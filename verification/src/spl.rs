use vstd::prelude::*;
use solana_program::program_pack::Pack;
use solana_program::pubkey::Pubkey;

verus! {

use vstd::bytes::spec_u64_from_le_bytes;
use crate::address::Address;

/// Whether an address is the identity of the token ledger program.  Names the
/// result of `spl_token::check_id`, a function of the address bytes alone.
pub uninterp spec fn is_spl_token_id(a: Seq<u8>) -> bool;

/// The program-derived custody address that authorises movements out of the
/// sale token account.  Names the result of
/// `Pubkey::try_find_program_address` under the sale's fixed seed, a function
/// of the program identity alone.
pub uninterp spec fn sale_custody_address(program_id: Seq<u8>) -> Seq<u8>;

/// Whether a custody address can be derived for a program identity at all.
/// Names the success of `Pubkey::try_find_program_address` under the sale's
/// fixed seed, which — like the address itself — depends on the program
/// identity alone.
pub uninterp spec fn sale_custody_exists(program_id: Seq<u8>) -> bool;

/// Whether `d` is a well-formed, initialised token ledger account record:
/// exactly 165 bytes, the three optional-field tags are the little-endian
/// words 0 or 1, and the state byte marks the account initialised or frozen.
pub open spec fn valid_token_account_bytes(d: Seq<u8>) -> bool {
    &&& d.len() == 165
    &&& (d.subrange(72, 76) == seq![0u8, 0u8, 0u8, 0u8] || d.subrange(72, 76) == seq![
        1u8,
        0u8,
        0u8,
        0u8,
    ])
    &&& (d[108] == 1 || d[108] == 2)
    &&& (d.subrange(109, 113) == seq![0u8, 0u8, 0u8, 0u8] || d.subrange(109, 113) == seq![
        1u8,
        0u8,
        0u8,
        0u8,
    ])
    &&& (d.subrange(129, 133) == seq![0u8, 0u8, 0u8, 0u8] || d.subrange(129, 133) == seq![
        1u8,
        0u8,
        0u8,
        0u8,
    ])
}

/// The balance held by a token ledger account record: the little-endian word
/// at bytes 64..72.
pub open spec fn token_account_amount(d: Seq<u8>) -> u64 {
    spec_u64_from_le_bytes(d.subrange(64, 72))
}

/// Relies on `spl_token::check_id`: whether the given address is the token
/// ledger program's own identity.
#[verifier::external_body]
pub fn is_token_program(a: &Address) -> (r: bool)
    ensures
        r == is_spl_token_id(a.bytes()),
{
    let v = a.to_vec();
    let arr: [u8; 32] = v.try_into().unwrap();
    spl_token::check_id(&Pubkey::new_from_array(arr))
}

/// Relies on `Pubkey::try_find_program_address` with the sale's fixed seed:
/// the custody address derived from the program identity, or nothing where no
/// derivation exists.
#[verifier::external_body]
pub fn derive_sale_authority(program_id: &Address) -> (r: Option<Address>)
    ensures
        r is Some <==> sale_custody_exists(program_id.bytes()),
        r matches Some(a) ==> a.bytes() == sale_custody_address(program_id.bytes()),
{
    let v = program_id.to_vec();
    let arr: [u8; 32] = v.try_into().unwrap();
    let pid = Pubkey::new_from_array(arr);
    match Pubkey::try_find_program_address(&[b"solrsale"], &pid) {
        Some((addr, _bump)) => Some(Address::from_bytes(&addr.to_bytes())),
        None => None,
    }
}

/// Relies on `spl_token::state::Account::unpack`: it accepts exactly the
/// buffers that `valid_token_account_bytes` admits, and reads the balance
/// from bytes 64..72 as a little-endian word.
#[verifier::external_body]
pub fn unpack_token_account_amount(data: &[u8]) -> (r: Option<u64>)
    ensures
        r is Some <==> valid_token_account_bytes(data@),
        r is Some ==> r.unwrap() == token_account_amount(data@),
{
    match spl_token::state::Account::unpack(data) {
        Ok(a) => Some(a.amount),
        Err(_) => None,
    }
}

} // verus!
