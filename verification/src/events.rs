//! Event-log entries and the expected-emit comparison.
//!
//! An `expectEmit` cheatcode opens an "expected" window of the host's event
//! log; the next outside call opens the "actual" window.  At test finish the
//! two windows are compared: the actual sequence must contain the expected
//! sequence as an ordered (not necessarily contiguous) subsequence, matched
//! field by field per the configured checks.

use vstd::prelude::*;

use crate::addrs::Addr;
use crate::words::Word;

verus! {

/// One event-log record: emitting address, topics, and payload.
#[derive(Debug)]
pub struct LogEntry {
    /// The address that emitted the event.
    pub address: Addr,
    /// The indexed topics, in order.
    pub topics: Vec<Word>,
    /// The unindexed payload bytes.
    pub data: Vec<u8>,
}

/// Which fields of a log entry an emit expectation compares.
#[derive(Clone, Copy, Debug)]
pub struct EmitChecks {
    /// The emitting address to require, if any.
    pub address: Option<Addr>,
    /// Whether to compare the first topic.
    pub topic1: bool,
    /// Whether to compare the second topic.
    pub topic2: bool,
    /// Whether to compare the third topic.
    pub topic3: bool,
    /// Whether to compare the payload.
    pub data: bool,
}

/// The phases of the expected-emit machine: declaring the expected window,
/// tracking the watched call, asserting, and done.
#[derive(Clone, Copy, Debug, PartialEq, Eq, Structural)]
pub enum ExpectedEmitState {
    /// No emit expectation declared.
    NotStarted,
    /// `expectEmit` fired; the expected window is open.
    ExpectedEmitTriggered,
    /// The watched call started; the actual window is open.
    CallTriggered,
    /// The watched call unwound; comparison is due at cycle end.
    Assert,
    /// The comparison ran.
    Finished,
}

/// The expected-emit machine's bookkeeping: phase, the logical-timestamp
/// bounds of both windows, the watched call's depth, and the field checks.
#[derive(Clone, Copy, Debug)]
pub struct EmitConfig {
    /// Current phase.
    pub expected_emit_state: ExpectedEmitState,
    /// Timestamp at which the expected window opened.
    pub expect_emits_since: u32,
    /// Timestamp at which the expected window closed.
    pub expect_emits_until: u32,
    /// Timestamp at which the actual window opened.
    pub call_emits_since: u32,
    /// Timestamp at which the actual window closed.
    pub call_emits_until: u32,
    /// Call-stack depth of the watched call.
    pub call_depth: usize,
    /// Which fields to compare.
    pub checks: EmitChecks,
}

impl EmitConfig {
    /// The initial, idle configuration.
    pub fn idle() -> (r: EmitConfig)
        ensures
            r.expected_emit_state == ExpectedEmitState::NotStarted,
    {
        EmitConfig {
            expected_emit_state: ExpectedEmitState::NotStarted,
            expect_emits_since: 0,
            expect_emits_until: 0,
            call_emits_since: 0,
            call_emits_until: 0,
            call_depth: 0,
            checks: EmitChecks {
                address: None,
                topic1: false,
                topic2: false,
                topic3: false,
                data: false,
            },
        }
    }
}

/// Topic `i` of `e`, if it has one.
pub open spec fn topic_at(e: LogEntry, i: int) -> Option<Word> {
    if 0 <= i < e.topics@.len() {
        Option::Some(e.topics@[i])
    } else {
        Option::None
    }
}

/// Whether expected log `a` accepts actual log `b` under `c`: the address
/// when required, each topic whose check is on, and the payload when its
/// check is on.
pub open spec fn log_matches(a: LogEntry, b: LogEntry, c: EmitChecks) -> bool {
    &&& match c.address {
        Option::Some(addr) => b.address == addr,
        Option::None => true,
    }
    &&& (c.topic1 ==> topic_at(a, 0) == topic_at(b, 0))
    &&& (c.topic2 ==> topic_at(a, 1) == topic_at(b, 1))
    &&& (c.topic3 ==> topic_at(a, 2) == topic_at(b, 2))
    &&& (c.data ==> a.data@ == b.data@)
}

/// Whether `expected` embeds into `actual` in order, entry by entry under
/// [`log_matches`].
pub open spec fn logs_subsequence(e: Seq<LogEntry>, a: Seq<LogEntry>, c: EmitChecks) -> bool
    decreases a.len(),
{
    if e.len() == 0 {
        true
    } else if a.len() == 0 {
        false
    } else {
        (log_matches(e[0], a[0], c) && logs_subsequence(e.skip(1), a.skip(1), c))
            || logs_subsequence(e, a.skip(1), c)
    }
}

/// An embedding into the tail is an embedding into the whole.
pub proof fn lemma_subsequence_tail_actual(e: Seq<LogEntry>, a: Seq<LogEntry>, c: EmitChecks)
    requires
        a.len() > 0,
        logs_subsequence(e, a.skip(1), c),
    ensures
        logs_subsequence(e, a, c),
{
}

/// Dropping the first expected entry keeps embeddability.
pub proof fn lemma_subsequence_drop_expected(e: Seq<LogEntry>, a: Seq<LogEntry>, c: EmitChecks)
    requires
        e.len() > 0,
        logs_subsequence(e, a, c),
    ensures
        logs_subsequence(e.skip(1), a, c),
    decreases a.len(),
{
    if a.len() == 0 {
    } else {
        if log_matches(e[0], a[0], c) && logs_subsequence(e.skip(1), a.skip(1), c) {
            lemma_subsequence_tail_actual(e.skip(1), a, c);
        } else {
            lemma_subsequence_drop_expected(e, a.skip(1), c);
            lemma_subsequence_tail_actual(e.skip(1), a, c);
        }
    }
}

/// When the heads match, the greedy step loses nothing: the embedding can
/// always use the first actual entry.
pub proof fn lemma_subsequence_greedy(e: Seq<LogEntry>, a: Seq<LogEntry>, c: EmitChecks)
    requires
        e.len() > 0,
        a.len() > 0,
        log_matches(e[0], a[0], c),
        logs_subsequence(e, a, c),
    ensures
        logs_subsequence(e.skip(1), a.skip(1), c),
{
    if !logs_subsequence(e.skip(1), a.skip(1), c) {
        assert(logs_subsequence(e, a.skip(1), c));
        lemma_subsequence_drop_expected(e, a.skip(1), c);
    }
}

/// Runtime test for [`log_matches`].
pub fn are_logs_equal(a: &LogEntry, b: &LogEntry, c: &EmitChecks) -> (r: bool)
    ensures
        r == log_matches(*a, *b, *c),
{
    let address_match = match c.address {
        Some(addr) => b.address == addr,
        None => true,
    };
    let topics_match = (!c.topic1 || topics_agree(a, b, 0)) && (!c.topic2 || topics_agree(a, b, 1))
        && (!c.topic3 || topics_agree(a, b, 2));
    let data_match = if c.data {
        let eq = a.data == b.data;
        proof {
            if eq {
                assert(a.data@ =~= b.data@);
            }
        }
        eq
    } else {
        true
    };
    address_match && topics_match && data_match
}

/// Whether the `i`th topics of `a` and `b` agree (both absent counts as
/// agreement).
fn topics_agree(a: &LogEntry, b: &LogEntry, i: usize) -> (r: bool)
    ensures
        r == (topic_at(*a, i as int) == topic_at(*b, i as int)),
{
    if i < a.topics.len() && i < b.topics.len() {
        a.topics[i] == b.topics[i]
    } else {
        !(i < a.topics.len()) && !(i < b.topics.len())
    }
}

/// Greedy subsequence matching of the expected window against the actual
/// window; complete for this matching relation (see
/// [`lemma_subsequence_greedy`]).
pub fn compare_logs(expected: &Vec<LogEntry>, actual: &Vec<LogEntry>, c: &EmitChecks) -> (r: bool)
    ensures
        r == logs_subsequence(expected@, actual@, *c),
{
    let ghost e = expected@;
    let ghost a = actual@;
    proof {
        assert(e.skip(0) =~= e);
        assert(a.skip(0) =~= a);
    }
    let mut i: usize = 0;
    let mut j: usize = 0;
    while i < expected.len() && j < actual.len()
        invariant
            i <= e.len(),
            j <= a.len(),
            e == expected@,
            a == actual@,
            logs_subsequence(e, a, *c) == logs_subsequence(e.skip(i as int), a.skip(j as int), *c),
        decreases a.len() - j,
    {
        let ghost ei = e.skip(i as int);
        let ghost aj = a.skip(j as int);
        proof {
            assert(ei[0] == e[i as int]);
            assert(aj[0] == a[j as int]);
            assert(ei.skip(1) =~= e.skip(i + 1));
            assert(aj.skip(1) =~= a.skip(j + 1));
        }
        if are_logs_equal(&expected[i], &actual[j], c) {
            proof {
                if logs_subsequence(ei, aj, *c) {
                    lemma_subsequence_greedy(ei, aj, *c);
                }
            }
            i = i + 1;
            j = j + 1;
        } else {
            proof {
                if logs_subsequence(ei, aj.skip(1), *c) {
                    lemma_subsequence_tail_actual(ei, aj, *c);
                }
            }
            j = j + 1;
        }
    }
    proof {
        if i >= e.len() {
            assert(e.skip(i as int).len() == 0);
        } else {
            assert(a.skip(j as int).len() == 0);
            assert(e.skip(i as int).len() > 0);
        }
    }
    i >= expected.len()
}

/// The expected or actual window after discarding the rightmost `surplus`
/// entries that belong to the closing boundary, not the window.
pub open spec fn trimmed_window(s: Seq<LogEntry>, surplus: nat) -> Seq<LogEntry> {
    if surplus >= s.len() {
        Seq::empty()
    } else {
        s.take(s.len() - surplus)
    }
}

/// The emit assertion: both windows, each trimmed of its boundary surplus,
/// compared as ordered subsequence.
pub open spec fn emit_windows_match(
    expected: Seq<LogEntry>,
    expected_surplus: nat,
    actual: Seq<LogEntry>,
    actual_surplus: nat,
    c: EmitChecks,
) -> bool {
    logs_subsequence(
        trimmed_window(expected, expected_surplus),
        trimmed_window(actual, actual_surplus),
        c,
    )
}

/// Trims both windows by their surplus entry counts and compares them.
///
/// `expected` and `actual` are the host's event-log queries from each
/// window's opening timestamp; each surplus is how many further entries the
/// host found from the window's closing timestamp on.
pub fn check_expected_emits(
    mut expected: Vec<LogEntry>,
    expected_surplus: usize,
    mut actual: Vec<LogEntry>,
    actual_surplus: usize,
    c: &EmitChecks,
) -> (r: bool)
    ensures
        r == emit_windows_match(
            expected@,
            expected_surplus as nat,
            actual@,
            actual_surplus as nat,
            *c,
        ),
{
    let ghost e0 = expected@;
    let ghost a0 = actual@;
    let keep_expected = if expected_surplus >= expected.len() {
        0
    } else {
        expected.len() - expected_surplus
    };
    let keep_actual = if actual_surplus >= actual.len() {
        0
    } else {
        actual.len() - actual_surplus
    };
    expected.truncate(keep_expected);
    actual.truncate(keep_actual);
    proof {
        assert(expected@ =~= trimmed_window(e0, expected_surplus as nat));
        assert(actual@ =~= trimmed_window(a0, actual_surplus as nat));
    }
    compare_logs(&expected, &actual, c)
}

} // verus!
