use era_cheatcodes::addrs::Addr;
use era_cheatcodes::events::{are_logs_equal, check_expected_emits, compare_logs, EmitChecks, LogEntry};
use era_cheatcodes::words::Word;

fn log(addr_lo: u128, topics: Vec<u128>, data: Vec<u8>) -> LogEntry {
    LogEntry {
        address: Addr { hi: 0, lo: addr_lo },
        topics: topics.into_iter().map(|t| Word { hi: 0, lo: t }).collect(),
        data,
    }
}

fn all_checks() -> EmitChecks {
    EmitChecks { address: None, topic1: true, topic2: true, topic3: true, data: true }
}

#[test]
fn equal_logs_match_under_all_checks() {
    let a = log(5, vec![1, 2, 3], vec![9]);
    let b = log(6, vec![1, 2, 3], vec![9]);
    // address is not required here, so differing emitters still match
    assert!(are_logs_equal(&a, &b, &all_checks()));
}

#[test]
fn address_check_distinguishes_emitters() {
    let a = log(5, vec![1], vec![]);
    let b = log(6, vec![1], vec![]);
    let mut c = all_checks();
    c.address = Some(Addr { hi: 0, lo: 5 });
    assert!(!are_logs_equal(&a, &b, &c));
    c.address = Some(Addr { hi: 0, lo: 6 });
    assert!(are_logs_equal(&a, &b, &c));
}

#[test]
fn disabled_checks_ignore_differences() {
    let a = log(5, vec![1, 2], vec![1]);
    let b = log(5, vec![1, 9], vec![2]);
    let c = EmitChecks { address: None, topic1: true, topic2: false, topic3: false, data: false };
    assert!(are_logs_equal(&a, &b, &c));
}

#[test]
fn subsequence_matching_allows_gaps() {
    let expected = vec![log(1, vec![1], vec![]), log(1, vec![3], vec![])];
    let actual = vec![
        log(1, vec![1], vec![]),
        log(1, vec![2], vec![]),
        log(1, vec![3], vec![]),
    ];
    assert!(compare_logs(&expected, &actual, &all_checks()));
}

#[test]
fn subsequence_matching_requires_order() {
    let expected = vec![log(1, vec![3], vec![]), log(1, vec![1], vec![])];
    let actual = vec![log(1, vec![1], vec![]), log(1, vec![3], vec![])];
    assert!(!compare_logs(&expected, &actual, &all_checks()));
}

#[test]
fn empty_expected_always_matches() {
    let actual = vec![log(1, vec![1], vec![])];
    assert!(compare_logs(&Vec::new(), &actual, &all_checks()));
    assert!(compare_logs(&Vec::new(), &Vec::new(), &all_checks()));
}

#[test]
fn missing_expected_entry_fails() {
    let expected = vec![log(1, vec![1], vec![]), log(1, vec![2], vec![])];
    let actual = vec![log(1, vec![1], vec![])];
    assert!(!compare_logs(&expected, &actual, &all_checks()));
}

#[test]
fn surplus_entries_are_trimmed_before_comparison() {
    // The expected window holds [t1] plus one boundary entry; the actual
    // window holds [t1, t9] plus one boundary entry.  After trimming one
    // from each, [t1] must embed into [t1, t9].
    let expected = vec![log(1, vec![1], vec![]), log(1, vec![7], vec![])];
    let actual = vec![
        log(1, vec![1], vec![]),
        log(1, vec![9], vec![]),
        log(1, vec![8], vec![]),
    ];
    assert!(check_expected_emits(expected, 1, actual, 1, &all_checks()));
}

#[test]
fn surplus_larger_than_window_empties_it() {
    let expected = vec![log(1, vec![1], vec![])];
    let actual = vec![log(1, vec![2], vec![])];
    // trimming everything from the expected side leaves nothing to demand
    assert!(check_expected_emits(expected, 5, actual, 0, &all_checks()));
}
