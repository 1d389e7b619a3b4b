use vstd::prelude::*;
use crate::error::KoraError;

verus! {

/// What the converter reads from an on-chain mint record: the number of
/// decimals that scales a raw integer token amount to its human denomination.
#[derive(Clone, Copy, Debug, PartialEq, Eq)]
pub struct MintInfo {
    pub decimals: u8,
}

/// A packed mint record is exactly 82 bytes:
/// an optional mint authority (4-byte tag + 32-byte key), the 8-byte supply,
/// the decimals byte, the initialized flag, and an optional freeze authority
/// (4-byte tag + 32-byte key).
pub const MINT_RECORD_LEN: usize = 82;

/// The 4-byte little-endian tag of an optional key field: 0 for absent,
/// 1 for present; anything else is invalid.
pub open spec fn coption_tag_valid(data: Seq<u8>, off: int) -> bool {
    &&& (data[off] == 0 || data[off] == 1)
    &&& data[off + 1] == 0
    &&& data[off + 2] == 0
    &&& data[off + 3] == 0
}

/// The byte sequences that decode to a valid, initialized mint record:
/// exactly 82 bytes, both authority tags valid, and the initialized flag
/// (byte 45) set to 1.
pub open spec fn mint_bytes_valid(data: Seq<u8>) -> bool {
    &&& data.len() == MINT_RECORD_LEN
    &&& coption_tag_valid(data, 0)
    &&& data[45] == 1
    &&& coption_tag_valid(data, 46)
}

/// The decimals field of a mint record sits at byte 44.
pub open spec fn mint_decimals_of(data: Seq<u8>) -> u8 {
    data[44]
}

/// Relies on spl_token::state::Mint::unpack: it succeeds exactly on 82-byte
/// records whose two authority option tags are a little-endian 0 or 1 and
/// whose initialized flag (byte 45) is 1, and it reads `decimals` from
/// byte 44.
#[verifier::external_body]
fn unpack_mint_decimals(data: &Vec<u8>) -> (r: Result<u8, String>)
    ensures
        r is Ok <==> mint_bytes_valid(data@),
        r matches Ok(d) ==> d == mint_decimals_of(data@),
{
    match <spl_token::state::Mint as solana_sdk::program_pack::Pack>::unpack(data.as_slice()) {
        Ok(m) => Ok(m.decimals),
        Err(e) => Err(e.to_string()),
    }
}

/// Decode fetched mint account bytes into the mint metadata the converter
/// needs.
///
/// Decoding never raises a chain-query error: the bytes were already
/// retrieved, so the only failure is `InvalidTransaction`, raised exactly on
/// byte sequences that are not a valid initialized mint record.
pub fn decode_mint(data: &Vec<u8>) -> (r: Result<MintInfo, KoraError>)
    ensures
        r is Ok <==> mint_bytes_valid(data@),
        r matches Ok(m) ==> m.decimals == mint_decimals_of(data@),
        r matches Err(e) ==> e is InvalidTransaction,
{
    match unpack_mint_decimals(data) {
        Ok(d) => Ok(MintInfo { decimals: d }),
        Err(msg) => Err(KoraError::InvalidTransaction(msg)),
    }
}

} // verus!
