use era_cheatcodes::addrs::{addr_of_word, word_of_addr, Addr};
use era_cheatcodes::storage::{merge_excluding_system_context, StorageKey, StorageMap};
use era_cheatcodes::encode::into_word_bytecodes;
use era_cheatcodes::words::{
    decompose_full_nonce, nonces_to_full_nonce, pack_block_info, unpack_block_info, word_limb_u64,
    Word,
};

fn key(addr_lo: u128, slot_lo: u128) -> StorageKey {
    StorageKey { addr: Addr { hi: 0, lo: addr_lo }, slot: Word { hi: 0, lo: slot_lo } }
}

#[test]
fn pack_and_unpack_block_info_round_trip() {
    let w = pack_block_info(123456, 987654321);
    assert_eq!(w.hi, 123456);
    assert_eq!(w.lo, 987654321);
    let (number, timestamp) = unpack_block_info(&w);
    assert_eq!(number, 123456);
    assert_eq!(timestamp, 987654321);
}

#[test]
fn nonce_decompose_compose_round_trip() {
    let full = Word { hi: 3, lo: 17 };
    let (tx, deploy) = decompose_full_nonce(&full);
    assert_eq!(tx, Word { hi: 0, lo: 17 });
    assert_eq!(deploy, Word { hi: 0, lo: 3 });
    let back = nonces_to_full_nonce(&tx, &deploy);
    assert_eq!(back, full);
}

#[test]
fn word_addr_conversions() {
    let a = Addr { hi: 0xDEAD, lo: 0x1234 };
    let w = word_of_addr(&a);
    assert_eq!(w.hi, 0xDEAD);
    assert_eq!(w.lo, 0x1234);
    let b = addr_of_word(&w);
    assert_eq!(b, a);
    // The top 96 bits of a word are dropped when it is read as an address.
    let wide = Word { hi: 0xFFFF_0000_0000_0001, lo: 7 };
    let c = addr_of_word(&wide);
    assert_eq!(c.hi, 1);
    assert_eq!(c.lo, 7);
}

#[test]
fn storage_map_write_read_overwrite() {
    let mut m = StorageMap::new();
    assert_eq!(m.read(&key(1, 2)), None);
    m.write(key(1, 2), Word { hi: 0, lo: 10 });
    m.write(key(1, 3), Word { hi: 0, lo: 20 });
    assert_eq!(m.read(&key(1, 2)), Some(Word { hi: 0, lo: 10 }));
    assert_eq!(m.read(&key(1, 3)), Some(Word { hi: 0, lo: 20 }));
    m.write(key(1, 2), Word { hi: 0, lo: 30 });
    assert_eq!(m.read(&key(1, 2)), Some(Word { hi: 0, lo: 30 }));
    assert_eq!(m.len(), 2);
}

#[test]
fn merge_prefers_overlay_and_drops_system_context() {
    let mut base = StorageMap::new();
    base.write(key(1, 1), Word { hi: 0, lo: 100 });
    base.write(key(2, 1), Word { hi: 0, lo: 200 });
    // A system-context entry (address 0x800b) must not survive the merge.
    base.write(key(0x800b, 5), Word { hi: 0, lo: 999 });
    let mut overlay = StorageMap::new();
    overlay.write(key(2, 1), Word { hi: 0, lo: 201 });
    overlay.write(key(3, 1), Word { hi: 0, lo: 300 });
    overlay.write(key(0x800b, 6), Word { hi: 0, lo: 888 });
    let merged = merge_excluding_system_context(&base, &overlay);
    assert_eq!(merged.read(&key(1, 1)), Some(Word { hi: 0, lo: 100 }));
    assert_eq!(merged.read(&key(2, 1)), Some(Word { hi: 0, lo: 201 }));
    assert_eq!(merged.read(&key(3, 1)), Some(Word { hi: 0, lo: 300 }));
    assert_eq!(merged.read(&key(0x800b, 5)), None);
    assert_eq!(merged.read(&key(0x800b, 6)), None);
}

#[test]
fn duplicate_preserves_entries() {
    let mut m = StorageMap::new();
    m.write(key(9, 9), Word { hi: 1, lo: 2 });
    let d = m.duplicate();
    assert_eq!(d.read(&key(9, 9)), Some(Word { hi: 1, lo: 2 }));
    assert_eq!(d.as_vec().len(), m.as_vec().len());
}

#[test]
fn word_limbs_slice_most_significant_first() {
    let w = Word { hi: (1u128 << 64) + 2, lo: (3u128 << 64) + 4 };
    assert_eq!(word_limb_u64(&w, 0), 1);
    assert_eq!(word_limb_u64(&w, 1), 2);
    assert_eq!(word_limb_u64(&w, 2), 3);
    assert_eq!(word_limb_u64(&w, 3), 4);
}

#[test]
fn bytecodes_chunk_into_padded_words() {
    let hash = Word { hi: 0, lo: 0x1234 };
    let code = vec![0xAB; 33]; // spills into a second, mostly padded word
    let out = into_word_bytecodes(&vec![(hash, code)]);
    assert_eq!(out.len(), 1);
    assert_eq!(out[0].0, hash);
    assert_eq!(out[0].1.len(), 2);
    assert_eq!(out[0].1[0], Word { hi: u128::from_be_bytes([0xAB; 16]), lo: u128::from_be_bytes([0xAB; 16]) });
    let mut chunk = [0u8; 16];
    chunk[0] = 0xAB;
    assert_eq!(out[0].1[1], Word { hi: u128::from_be_bytes(chunk), lo: 0 });
}
