use vstd::prelude::*;
use crate::address::{addr_eq, Address};
use crate::error::KoraError;
use crate::transaction::{Instruction, Message};

verus! {

// ---------------------------------------------------------------------------
// Outside facts: the ATA program, address derivation, rent.
// ---------------------------------------------------------------------------

/// The bytes of the associated-token-account program id, the base58 decoding
/// of "ATokenGPvbdGVxr1b2hvZbsiqW5xWH25efTNsLJA8knL".
pub open spec fn ata_program_id_bytes() -> Seq<u8> {
    seq![
        140u8, 151u8, 37u8, 143u8, 78u8, 36u8, 137u8, 241u8,
        187u8, 61u8, 16u8, 41u8, 20u8, 142u8, 13u8, 131u8,
        11u8, 90u8, 19u8, 153u8, 218u8, 255u8, 16u8, 132u8,
        4u8, 142u8, 123u8, 216u8, 219u8, 233u8, 248u8, 89u8,
    ]
}

/// Relies on spl_associated_token_account::id: the program id it returns is
/// the one the crate declares, "ATokenGPvbdGVxr1b2hvZbsiqW5xWH25efTNsLJA8knL",
/// whose base58 decoding is `ata_program_id_bytes`.
#[verifier::external_body]
fn ata_program_address() -> (r: Address)
    ensures
        r@ == ata_program_id_bytes(),
{
    Address { bytes: spl_associated_token_account::id().to_bytes() }
}

/// The canonical associated-token-account address derived from an owner and a
/// mint. The derivation is a pure function of the two addresses; its value is
/// given by the outside derivation routine.
pub uninterp spec fn derived_ata(owner: Seq<u8>, mint: Seq<u8>) -> Seq<u8>;

/// Relies on spl_associated_token_account::get_associated_token_address: a
/// deterministic, input-only derivation of the canonical ATA address for an
/// (owner, mint) pair.
#[allow(deprecated)]
#[verifier::external_body]
fn derive_ata_address(owner: &Address, mint: &Address) -> (r: Address)
    ensures
        r@ == derived_ata(owner@, mint@),
{
    let o = solana_sdk::pubkey::Pubkey::new_from_array(owner.bytes);
    let m = solana_sdk::pubkey::Pubkey::new_from_array(mint.bytes);
    Address { bytes: spl_associated_token_account::get_associated_token_address(&o, &m).to_bytes() }
}

/// Relies on spl_token::state::Account::LEN: a packed token account record is
/// 165 bytes.
#[verifier::external_body]
fn token_account_byte_len() -> (r: usize)
    ensures
        r == 165usize,
{
    <spl_token::state::Account as solana_sdk::program_pack::Pack>::LEN
}

/// The default-rent minimum balance for rent exemption of an account of the
/// given byte size: (128 bytes of storage overhead plus the data length)
/// times 3480 lamports per byte-year, times the 2-year exemption threshold.
pub open spec fn rent_exempt_min_spec(data_len: int) -> int {
    (128 + data_len) * 3480 * 2
}

/// Relies on solana_sdk::rent::Rent: under the default configuration
/// (3480 lamports per byte-year, exemption threshold 2.0 years, 128 bytes of
/// account storage overhead), `minimum_balance` computes
/// ((128 + data_len) * 3480) as f64 * 2.0, which is exact for every data
/// length admitted here.
#[verifier::external_body]
fn rent_exempt_minimum(data_len: usize) -> (r: u64)
    requires
        data_len <= 0x1000_0000,
    ensures
        r == rent_exempt_min_spec(data_len as int),
{
    solana_sdk::rent::Rent::default().minimum_balance(data_len)
}

// ---------------------------------------------------------------------------
// Priority fee: maximum of the recently observed prioritization fees.
// ---------------------------------------------------------------------------

/// The maximum of a sequence of observed fees, 0 for the empty sequence:
/// no observation means no competitive pressure, not an error.
pub open spec fn seq_max(s: Seq<u64>) -> int
    decreases s.len(),
{
    if s.len() == 0 {
        0
    } else if s.last() as int > seq_max(s.drop_last()) {
        s.last() as int
    } else {
        seq_max(s.drop_last())
    }
}

/// The priority-fee estimate: the maximum fee observed across recent blocks,
/// so the relayer is willing to pay at least as much as the most expensive
/// recent inclusion. An empty observation set yields 0 and is not an error.
pub fn max_prioritization_fee(fees: &Vec<u64>) -> (r: u64)
    ensures
        r as int == seq_max(fees@),
        fees@.len() == 0 ==> r == 0,
        forall|i: int| 0 <= i < fees@.len() ==> fees@[i] <= r,
        fees@.len() > 0 ==> exists|i: int| 0 <= i < fees@.len() && fees@[i] == r,
{
    let mut best: u64 = 0;
    let mut i: usize = 0;
    while i < fees.len()
        invariant
            i <= fees@.len(),
            best as int == seq_max(fees@.take(i as int)),
            forall|j: int| 0 <= j < i ==> fees@[j] <= best,
            best != 0 ==> exists|j: int| 0 <= j < i && fees@[j] == best,
        decreases fees@.len() - i,
    {
        proof {
            assert(fees@.take(i + 1).drop_last() =~= fees@.take(i as int));
            assert(fees@.take(i + 1).last() == fees@[i as int]);
        }
        if fees[i] > best {
            best = fees[i];
        }
        i = i + 1;
    }
    proof {
        assert(fees@.take(fees@.len() as int) =~= fees@);
    }
    best
}

// ---------------------------------------------------------------------------
// Total fee: the checked sum of the three components.
// ---------------------------------------------------------------------------

/// The three independently sourced cost components of one transaction.
#[derive(Clone, Copy, Debug, PartialEq, Eq)]
pub struct FeeComponents {
    pub base_fee: u64,
    pub priority_fee: u64,
    pub account_creation_fee: u64,
}

/// Sum the three fee components. The sum never silently wraps: a total that
/// does not fit in 64 bits surfaces as an internal-consistency error.
pub fn checked_total_fee(base_fee: u64, priority_fee: u64, account_creation_fee: u64) -> (r:
    Result<u64, KoraError>)
    ensures
        base_fee + priority_fee + account_creation_fee <= u64::MAX ==> (r matches Ok(t)
            && t == base_fee + priority_fee + account_creation_fee),
        base_fee + priority_fee + account_creation_fee > u64::MAX ==> (r matches Err(e)
            && e is InternalError),
{
    match base_fee.checked_add(priority_fee) {
        Some(partial) => match partial.checked_add(account_creation_fee) {
            Some(total) => Ok(total),
            None => Err(KoraError::InternalError(String::from_str("total fee exceeds u64"))),
        },
        None => Err(KoraError::InternalError(String::from_str("total fee exceeds u64"))),
    }
}

impl FeeComponents {
    /// The total fee owed for the transaction, as the checked sum of the
    /// three components.
    pub fn total(&self) -> (r: Result<u64, KoraError>)
        ensures
            self.base_fee + self.priority_fee + self.account_creation_fee <= u64::MAX
                ==> (r matches Ok(t) && t == self.base_fee + self.priority_fee
                + self.account_creation_fee),
            self.base_fee + self.priority_fee + self.account_creation_fee > u64::MAX
                ==> (r matches Err(e) && e is InternalError),
    {
        checked_total_fee(self.base_fee, self.priority_fee, self.account_creation_fee)
    }
}

/// The total fee is the mathematical sum of its three components, so neither
/// the total nor whether it overflows depends on the order in which the
/// components are summed.
pub proof fn lemma_total_fee_order_independent(a: u64, b: u64, c: u64)
    ensures
        a + b + c == a + c + b,
        a + b + c == b + a + c,
        a + b + c == b + c + a,
        a + b + c == c + a + b,
        a + b + c == c + b + a,
        a + b + c == (a + b) + c && a + b + c == a + (b + c),
        (a + b + c <= u64::MAX) <==> (c + b + a <= u64::MAX),
{
}

// ---------------------------------------------------------------------------
// Account-creation surcharge: scan for ATA-creation instructions.
// ---------------------------------------------------------------------------

/// The bytes of the account key at the given index of the message's key list.
pub open spec fn key_bytes(msg: Message, idx: int) -> Seq<u8> {
    msg.account_keys@[idx]@
}

/// The instruction's target program is the ATA program.
pub open spec fn ins_targets_ata_program(msg: Message, ins: Instruction) -> bool {
    &&& (ins.program_id_index as int) < msg.account_keys@.len()
    &&& key_bytes(msg, ins.program_id_index as int) == ata_program_id_bytes()
}

/// The three positional operands of an ATA-creation instruction — the stated
/// ATA (operand 1), the owner (operand 2) and the mint (operand 3), a layout
/// contract of the outside ATA program — exist and point into the key list.
pub open spec fn ins_operands_in_bounds(msg: Message, ins: Instruction) -> bool {
    &&& ins.accounts@.len() >= 4
    &&& (ins.accounts@[1] as int) < msg.account_keys@.len()
    &&& (ins.accounts@[2] as int) < msg.account_keys@.len()
    &&& (ins.accounts@[3] as int) < msg.account_keys@.len()
}

/// The stated ATA address of an ATA-creation instruction.
pub open spec fn stated_ata(msg: Message, ins: Instruction) -> Seq<u8> {
    key_bytes(msg, ins.accounts@[1] as int)
}

/// The owner operand of an ATA-creation instruction.
pub open spec fn owner_key(msg: Message, ins: Instruction) -> Seq<u8> {
    key_bytes(msg, ins.accounts@[2] as int)
}

/// The mint operand of an ATA-creation instruction.
pub open spec fn mint_key(msg: Message, ins: Instruction) -> Seq<u8> {
    key_bytes(msg, ins.accounts@[3] as int)
}

/// An instruction is well formed for the scan when its program index is in
/// bounds, and, if it targets the ATA program, its three positional operands
/// are in bounds as well.
pub open spec fn ins_wf(msg: Message, ins: Instruction) -> bool {
    &&& (ins.program_id_index as int) < msg.account_keys@.len()
    &&& (ins_targets_ata_program(msg, ins) ==> ins_operands_in_bounds(msg, ins))
}

/// Every instruction of the message is well formed for the scan.
pub open spec fn msg_wf(msg: Message) -> bool {
    forall|i: int|
        0 <= i < msg.instructions@.len() ==> ins_wf(msg, #[trigger] msg.instructions@[i])
}

/// The instruction will create the canonical ATA: it targets the ATA program
/// and its stated ATA address equals the address derived from its owner and
/// mint operands. A stated address that differs from the derived one is never
/// counted, whether or not it exists on chain.
pub open spec fn ins_creates_ata(msg: Message, ins: Instruction) -> bool {
    &&& ins_targets_ata_program(msg, ins)
    &&& ins_operands_in_bounds(msg, ins)
    &&& stated_ata(msg, ins) == derived_ata(owner_key(msg, ins), mint_key(msg, ins))
}

/// The stated addresses of the ATA-creation instructions among the first `n`
/// instructions, in instruction order.
pub open spec fn ata_candidates_prefix(msg: Message, n: int) -> Seq<Seq<u8>>
    decreases n,
{
    if n <= 0 {
        Seq::empty()
    } else {
        let pre = ata_candidates_prefix(msg, n - 1);
        if ins_creates_ata(msg, msg.instructions@[n - 1]) {
            pre.push(stated_ata(msg, msg.instructions@[n - 1]))
        } else {
            pre
        }
    }
}

/// The stated addresses of all ATA-creation instructions of the message, in
/// instruction order: the accounts whose existence decides the surcharge.
pub open spec fn ata_candidates(msg: Message) -> Seq<Seq<u8>> {
    ata_candidates_prefix(msg, msg.instructions@.len() as int)
}

/// Scan the message for ATA-creation instructions and return the addresses of
/// the accounts they would create, in instruction order.
///
/// An account index that points outside the key list is structurally invalid
/// input and surfaces as `InvalidTransaction`, never as a panic. A message
/// with no ATA-creation instruction yields no candidates, so no existence
/// lookup (and no surcharge) follows from it.
pub fn ata_creation_candidates(msg: &Message) -> (r: Result<Vec<Address>, KoraError>)
    ensures
        r is Ok <==> msg_wf(*msg),
        r matches Ok(v) ==> v@.map_values(|a: Address| a@) == ata_candidates(*msg),
        r matches Err(e) ==> e is InvalidTransaction,
{
    let ata_program = ata_program_address();
    let mut out: Vec<Address> = Vec::new();
    let mut i: usize = 0;
    while i < msg.instructions.len()
        invariant
            i <= msg.instructions@.len(),
            ata_program@ == ata_program_id_bytes(),
            forall|j: int| 0 <= j < i ==> ins_wf(*msg, #[trigger] msg.instructions@[j]),
            out@.map_values(|a: Address| a@) == ata_candidates_prefix(*msg, i as int),
        decreases msg.instructions@.len() - i,
    {
        let ins = &msg.instructions[i];
        let ghost gins = msg.instructions@[i as int];
        let pidx = ins.program_id_index as usize;
        if pidx >= msg.account_keys.len() {
            assert(!ins_wf(*msg, gins));
            return Err(KoraError::InvalidTransaction(String::from_str(
                "instruction program index out of bounds",
            )));
        }
        if addr_eq(&msg.account_keys[pidx], &ata_program) {
            if ins.accounts.len() < 4 {
                assert(!ins_wf(*msg, gins));
                return Err(KoraError::InvalidTransaction(String::from_str(
                    "ATA-creation instruction has too few account operands",
                )));
            }
            let a1 = ins.accounts[1] as usize;
            let a2 = ins.accounts[2] as usize;
            let a3 = ins.accounts[3] as usize;
            if a1 >= msg.account_keys.len() || a2 >= msg.account_keys.len() || a3
                >= msg.account_keys.len() {
                assert(!ins_wf(*msg, gins));
                return Err(KoraError::InvalidTransaction(String::from_str(
                    "instruction account index out of bounds",
                )));
            }
            let stated = msg.account_keys[a1];
            let owner = msg.account_keys[a2];
            let mint = msg.account_keys[a3];
            let expected = derive_ata_address(&owner, &mint);
            if addr_eq(&stated, &expected) {
                out.push(stated);
                proof {
                    assert(ins_creates_ata(*msg, gins));
                    assert(out@.map_values(|a: Address| a@) =~= ata_candidates_prefix(
                        *msg,
                        i + 1,
                    ));
                }
            } else {
                assert(!ins_creates_ata(*msg, gins));
            }
        } else {
            assert(!ins_targets_ata_program(*msg, gins));
            assert(!ins_creates_ata(*msg, gins));
        }
        i = i + 1;
    }
    Ok(out)
}

// ---------------------------------------------------------------------------
// Account-creation surcharge: cost of the accounts that do not yet exist.
// ---------------------------------------------------------------------------

/// The outcome of one chain lookup for a candidate account's existence.
///
/// "Not found" is the expected signal that the account must be created; it is
/// not an error. Any other lookup failure carries its cause and fails the
/// whole estimate, so a transient network fault can never silently suppress
/// the surcharge.
#[derive(Clone, Debug, PartialEq, Eq)]
pub enum AccountLookup {
    Exists,
    NotFound,
    Failed(String),
}

/// How many lookups reported "not found": the number of accounts the
/// transaction will have to create.
pub open spec fn count_not_found(s: Seq<AccountLookup>) -> int
    decreases s.len(),
{
    if s.len() == 0 {
        0
    } else {
        count_not_found(s.drop_last()) + if s.last() is NotFound {
            1int
        } else {
            0int
        }
    }
}

/// Some lookup failed for a reason other than "not found".
pub open spec fn any_lookup_failed(s: Seq<AccountLookup>) -> bool {
    exists|i: int| 0 <= i < s.len() && s[i] is Failed
}

/// The lamport surcharge for the candidate accounts that do not yet exist:
/// the rent-exempt minimum for one 165-byte token account, once per account
/// found missing.
///
/// A failed lookup is a chain-query failure of the whole estimate; it is
/// propagated as `RpcError`, never swallowed, because undercharging for
/// account creation is a financial correctness bug.
pub fn ata_creation_fee(lookups: &Vec<AccountLookup>) -> (r: Result<u64, KoraError>)
    ensures
        any_lookup_failed(lookups@) ==> (r matches Err(e) && e is RpcError),
        !any_lookup_failed(lookups@) ==> if count_not_found(lookups@) * rent_exempt_min_spec(165)
            <= u64::MAX {
            (r matches Ok(fee) && fee == count_not_found(lookups@) * rent_exempt_min_spec(165))
        } else {
            (r matches Err(e) && e is InternalError)
        },
{
    let mut count: u64 = 0;
    let mut i: usize = 0;
    while i < lookups.len()
        invariant
            i <= lookups@.len(),
            count <= i,
            count as int == count_not_found(lookups@.take(i as int)),
            forall|j: int| 0 <= j < i ==> !(#[trigger] lookups@[j] is Failed),
        decreases lookups@.len() - i,
    {
        proof {
            assert(lookups@.take(i + 1).drop_last() =~= lookups@.take(i as int));
            assert(lookups@.take(i + 1).last() == lookups@[i as int]);
        }
        match &lookups[i] {
            AccountLookup::Exists => {},
            AccountLookup::NotFound => {
                count = count + 1;
            },
            AccountLookup::Failed(cause) => {
                return Err(KoraError::RpcError(String::from_str(cause.as_str())));
            },
        }
        i = i + 1;
    }
    proof {
        assert(lookups@.take(lookups@.len() as int) =~= lookups@);
    }
    let rent_per_account = rent_exempt_minimum(token_account_byte_len());
    match count.checked_mul(rent_per_account) {
        Some(fee) => Ok(fee),
        None => Err(KoraError::InternalError(String::from_str(
            "account-creation surcharge exceeds u64",
        ))),
    }
}

// ---------------------------------------------------------------------------
// The estimate: compose the three components.
// ---------------------------------------------------------------------------

/// Compose the fee estimate from the three independently sourced inputs: the
/// chain's base fee for the message, the recently observed prioritization
/// fees, and the existence-lookup outcomes for the scanned ATA-creation
/// candidates.
///
/// A failed existence lookup fails the whole estimate as `RpcError`; an empty
/// prioritization-fee list contributes 0; a total that does not fit in 64
/// bits is an internal-consistency error, never a silent wrap.
pub fn estimate_fee_from_parts(
    base_fee: u64,
    recent_prioritization_fees: &Vec<u64>,
    ata_lookups: &Vec<AccountLookup>,
) -> (r: Result<u64, KoraError>)
    ensures
        any_lookup_failed(ata_lookups@) ==> (r matches Err(e) && e is RpcError),
        !any_lookup_failed(ata_lookups@) ==> if base_fee + seq_max(recent_prioritization_fees@)
            + count_not_found(ata_lookups@) * rent_exempt_min_spec(165) <= u64::MAX {
            (r matches Ok(t) && t == base_fee + seq_max(recent_prioritization_fees@)
                + count_not_found(ata_lookups@) * rent_exempt_min_spec(165))
        } else {
            (r matches Err(e) && e is InternalError)
        },
{
    let account_creation_fee = match ata_creation_fee(ata_lookups) {
        Ok(fee) => fee,
        Err(e) => {
            return Err(e);
        },
    };
    let priority_fee = max_prioritization_fee(recent_prioritization_fees);
    checked_total_fee(base_fee, priority_fee, account_creation_fee)
}

// ---------------------------------------------------------------------------
// Laws of the scan.
// ---------------------------------------------------------------------------

/// A message none of whose instructions targets the ATA program yields no
/// creation candidates at all: no existence lookup and no account-creation
/// surcharge can follow from it.
pub proof fn lemma_no_ata_instructions_no_candidates(msg: Message)
    requires
        forall|i: int|
            0 <= i < msg.instructions@.len() ==> !ins_targets_ata_program(
                msg,
                #[trigger] msg.instructions@[i],
            ),
    ensures
        ata_candidates(msg).len() == 0,
{
    lemma_no_ata_instructions_no_candidates_prefix(msg, msg.instructions@.len() as int);
}

proof fn lemma_no_ata_instructions_no_candidates_prefix(msg: Message, n: int)
    requires
        n <= msg.instructions@.len(),
        forall|i: int|
            0 <= i < msg.instructions@.len() ==> !ins_targets_ata_program(
                msg,
                #[trigger] msg.instructions@[i],
            ),
    ensures
        ata_candidates_prefix(msg, n).len() == 0,
    decreases n,
{
    if n > 0 {
        lemma_no_ata_instructions_no_candidates_prefix(msg, n - 1);
    }
}

/// An instruction whose stated ATA address differs from the address derived
/// from its owner and mint operands contributes no creation candidate,
/// wherever it stands in the message and whether or not the stated address
/// exists on chain.
pub proof fn lemma_mismatched_ata_never_counted(msg: Message, i: int)
    requires
        0 <= i < msg.instructions@.len(),
        stated_ata(msg, msg.instructions@[i]) != derived_ata(
            owner_key(msg, msg.instructions@[i]),
            mint_key(msg, msg.instructions@[i]),
        ),
    ensures
        ata_candidates_prefix(msg, i + 1) == ata_candidates_prefix(msg, i),
{
    assert(!ins_creates_ata(msg, msg.instructions@[i]));
}

/// Every creation candidate is the canonical derived address of some
/// ATA-creation instruction of the message.
pub proof fn lemma_candidates_are_derived(msg: Message, k: int)
    requires
        0 <= k < ata_candidates(msg).len(),
    ensures
        exists|i: int|
            0 <= i < msg.instructions@.len() && ins_creates_ata(
                msg,
                #[trigger] msg.instructions@[i],
            ) && ata_candidates(msg)[k] == stated_ata(msg, msg.instructions@[i]),
{
    lemma_candidates_are_derived_prefix(msg, msg.instructions@.len() as int, k);
}

proof fn lemma_candidates_are_derived_prefix(msg: Message, n: int, k: int)
    requires
        n <= msg.instructions@.len(),
        0 <= k < ata_candidates_prefix(msg, n).len(),
    ensures
        exists|i: int|
            0 <= i < n && ins_creates_ata(msg, #[trigger] msg.instructions@[i])
                && ata_candidates_prefix(msg, n)[k] == stated_ata(msg, msg.instructions@[i]),
    decreases n,
{
    if n > 0 {
        let pre = ata_candidates_prefix(msg, n - 1);
        if ins_creates_ata(msg, msg.instructions@[n - 1]) && k == pre.len() {
            assert(ata_candidates_prefix(msg, n)[k] == stated_ata(msg, msg.instructions@[n - 1]));
        } else {
            lemma_candidates_are_derived_prefix(msg, n - 1, k);
            let i = choose|i: int|
                0 <= i < n - 1 && ins_creates_ata(msg, #[trigger] msg.instructions@[i])
                    && ata_candidates_prefix(msg, n - 1)[k] == stated_ata(
                    msg,
                    msg.instructions@[i],
                );
            assert(ata_candidates_prefix(msg, n)[k] == stated_ata(msg, msg.instructions@[i]));
        }
    }
}

} // verus!
