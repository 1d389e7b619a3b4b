use vstd::prelude::*;
use crate::address::Address;

verus! {

/// One compiled instruction of a transaction: the index of its target program
/// in the shared account-key list, the indices of its operand accounts, and
/// its opaque data bytes.
pub struct Instruction {
    pub program_id_index: u8,
    pub accounts: Vec<u8>,
    pub data: Vec<u8>,
}

/// The instruction-bearing part of a transaction: an ordered sequence of
/// instructions whose account references are indices into a shared
/// account-key list.
///
/// Account indices are not assumed valid here; a reference that points
/// outside the account-key list surfaces as an error during scanning, never
/// as a panic.
pub struct Message {
    pub account_keys: Vec<Address>,
    pub instructions: Vec<Instruction>,
}

} // verus!
