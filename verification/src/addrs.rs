//! 160-bit account addresses and the fixed addresses the tracer treats
//! specially: the reserved cheatcode dispatch address, the test contract
//! address, and the internal system contracts that pranking and emit
//! tracking must not leak into.

use vstd::prelude::*;

verus! {

/// A 160-bit address: `hi * 2^128 + lo`, with `hi` holding the top 32 bits.
#[derive(Clone, Copy, Debug, PartialEq, Eq, Structural)]
pub struct Addr {
    pub hi: u32,
    pub lo: u128,
}

impl Addr {
    /// The mathematical value of this address.
    pub open spec fn as_int(self) -> int {
        self.hi * 0x1_0000_0000_0000_0000_0000_0000_0000_0000int + self.lo
    }

    /// The zero address.
    pub fn zero() -> (r: Addr)
        ensures
            r == (Addr { hi: 0u32, lo: 0u128 }),
    {
        Addr { hi: 0, lo: 0 }
    }

    /// An address whose top 32 bits are zero.
    pub fn low(lo: u128) -> (r: Addr)
        ensures
            r == (Addr { hi: 0u32, lo }),
    {
        Addr { hi: 0, lo }
    }
}

/// The 256-bit word holding this address zero-extended.
pub fn word_of_addr(a: &Addr) -> (r: crate::words::Word)
    ensures
        r.hi == a.hi,
        r.lo == a.lo,
        r.as_int() == a.as_int(),
{
    crate::words::Word { hi: a.hi as u128, lo: a.lo }
}

/// The address held in the low 160 bits of a word.
pub fn addr_of_word(w: &crate::words::Word) -> (r: Addr)
    ensures
        r.lo == w.lo,
        r.hi == w.hi % 0x1_0000_0000,
{
    Addr { hi: (w.hi % 0x1_0000_0000) as u32, lo: w.lo }
}

/// The reserved address contract calls to which are intercepted as cheatcode
/// requests: 0x7109709ecfa91a80626ff3989d68f67f5b1dd12d.
pub open spec fn cheatcode_address() -> Addr {
    Addr { hi: 0x7109709e, lo: 0xcfa91a80626ff3989d68f67f5b1dd12d }
}

/// Runtime value of [`cheatcode_address`].
pub fn make_cheatcode_address() -> (r: Addr)
    ensures
        r == cheatcode_address(),
{
    Addr { hi: 0x7109709e, lo: 0xcfa91a80626ff3989d68f67f5b1dd12d }
}

/// The address at which the outer test contract runs:
/// 0x2e1908b13b8b625ed13ecf03c87d45c499d1f325.
pub open spec fn test_address() -> Addr {
    Addr { hi: 0x2e1908b1, lo: 0x3b8b625ed13ecf03c87d45c499d1f325 }
}

/// Runtime value of [`test_address`].
pub fn make_test_address() -> (r: Addr)
    ensures
        r == test_address(),
{
    Addr { hi: 0x2e1908b1, lo: 0x3b8b625ed13ecf03c87d45c499d1f325 }
}

/// The internal system contract that simulates value transfer; calls routed
/// through it wrap the real destination and value in system registers.
pub open spec fn msg_value_simulator_address() -> Addr {
    Addr { hi: 0, lo: 0x8009 }
}

/// Runtime value of [`msg_value_simulator_address`].
pub fn make_msg_value_simulator_address() -> (r: Addr)
    ensures
        r == msg_value_simulator_address(),
{
    Addr { hi: 0, lo: 0x8009 }
}

/// The system contract that stores deployed account code hashes.
pub open spec fn account_code_storage_address() -> Addr {
    Addr { hi: 0, lo: 0x8002 }
}

/// Runtime value of [`account_code_storage_address`].
pub fn make_account_code_storage_address() -> (r: Addr)
    ensures
        r == account_code_storage_address(),
{
    Addr { hi: 0, lo: 0x8002 }
}

/// The system-context contract, whose storage holds the transaction origin
/// and the current virtual block info.
pub open spec fn system_context_address() -> Addr {
    Addr { hi: 0, lo: 0x800b }
}

/// Runtime value of [`system_context_address`].
pub fn make_system_context_address() -> (r: Addr)
    ensures
        r == system_context_address(),
{
    Addr { hi: 0, lo: 0x800b }
}

/// Whether `a` is one of the fixed internal/system contract addresses.
/// Prank sender overrides and emit-window tracking skip these.
pub open spec fn is_internal_address(a: Addr) -> bool {
    a.hi == 0 && (a.lo == 0 || a.lo == 0x0001 || a.lo == 0x0002 || (0x8001 <= a.lo
        && a.lo <= 0x8010))
}

/// Runtime test for [`is_internal_address`].
pub fn check_internal_address(a: &Addr) -> (r: bool)
    ensures
        r == is_internal_address(*a),
{
    a.hi == 0 && (a.lo == 0 || a.lo == 0x0001 || a.lo == 0x0002 || (0x8001 <= a.lo && a.lo
        <= 0x8010))
}

/// Whether `a` lies in the reserved low range (only the bottom 16 bits may
/// be set), where kernel-space contracts live.
pub open spec fn is_reserved_address(a: Addr) -> bool {
    a.hi == 0 && a.lo < 0x1_0000
}

/// Runtime test for [`is_reserved_address`].
pub fn check_reserved_address(a: &Addr) -> (r: bool)
    ensures
        r == is_reserved_address(*a),
{
    a.hi == 0 && a.lo < 0x1_0000
}

} // verus!
