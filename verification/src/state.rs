use vstd::prelude::*;

verus! {

use vstd::bytes::{spec_u64_to_le_bytes, u64_to_le_bytes, u64_from_le_bytes};
use vstd::bytes::lemma_auto_spec_u64_to_from_le_bytes;
use vstd::slice::{slice_subrange, slice_index_get};
use crate::address::{Address, spec_address_from_bytes};
use crate::error::ProcessError;

/// The persisted length of a sale record in bytes.
pub const RECORD_LEN: usize = 203;

/// The sale record: one per sale, created before initialisation and mutated in
/// place for the sale's lifetime.
///
/// Persisted layout, fixed offsets, 203 bytes in all: `is_initialized` (1),
/// five addresses (32 each), five little-endian 64-bit amounts (8 each),
/// `token_sale_paused` (1), `token_sale_ended` (1).  Boolean fields admit the
/// byte values 0 and 1 only.
#[derive(Clone, Copy, Debug, PartialEq, Eq, Structural)]
pub struct TokenSale {
    /// Set exactly once, by initialisation.
    pub is_initialized: bool,
    /// The account that initialised the sale; the only one permitted to
    /// pause, resume or end it.
    pub init_pubkey: Address,
    /// Holder of the tokens being sold, owned by the program-derived custody
    /// address after initialisation.
    pub sale_token_account_pubkey: Address,
    /// Destination for buyer payments.
    pub pool_token_account_pubkey: Address,
    /// The allowlist registry pinned at initialisation.
    pub whitelist_map_pubkey: Address,
    /// The program authorised to interpret the allowlist, pinned at
    /// initialisation.
    pub whitelist_program_pubkey: Address,
    /// Tokens intended to be sold; reconciled at funding.
    pub token_sale_amount: u64,
    /// Minimum purchase per transaction, in payment units.
    pub usd_min_amount: u64,
    /// Maximum purchase per transaction, in payment units.
    pub usd_max_amount: u64,
    /// Tokens purchasable per one payment unit.
    pub token_sale_price: u64,
    /// Unix timestamp before which purchases are rejected.
    pub token_sale_time: u64,
    /// Operator-controlled gate: purchases blocked while set.
    pub token_sale_paused: bool,
    /// Terminal operator-controlled gate: never cleared once set.
    pub token_sale_ended: bool,
}

/// The lifecycle stage of a sale, derived from its record's flags.
#[derive(Clone, Copy, Debug, PartialEq, Eq, Structural)]
pub enum SaleStage {
    /// The record has not been initialised.
    Uninitialized,
    /// The sale accepts funding and purchases.
    Active,
    /// The sale is paused by its authority.
    Paused,
    /// The sale is over for good.
    Ended,
}

/// The stage encoded by a record's three flags.  `ended` dominates `paused`.
pub open spec fn spec_stage(s: TokenSale) -> SaleStage {
    if !s.is_initialized {
        SaleStage::Uninitialized
    } else if s.token_sale_ended {
        SaleStage::Ended
    } else if s.token_sale_paused {
        SaleStage::Paused
    } else {
        SaleStage::Active
    }
}

/// The byte that persists a boolean field.
pub open spec fn bool_byte(b: bool) -> u8 {
    if b {
        1u8
    } else {
        0u8
    }
}

/// The exact 203-byte persisted form of a sale record.
pub open spec fn record_bytes(s: TokenSale) -> Seq<u8> {
    seq![bool_byte(s.is_initialized)] + s.init_pubkey.bytes()
        + s.sale_token_account_pubkey.bytes() + s.pool_token_account_pubkey.bytes()
        + s.whitelist_map_pubkey.bytes() + s.whitelist_program_pubkey.bytes()
        + spec_u64_to_le_bytes(s.token_sale_amount) + spec_u64_to_le_bytes(s.usd_min_amount)
        + spec_u64_to_le_bytes(s.usd_max_amount) + spec_u64_to_le_bytes(s.token_sale_price)
        + spec_u64_to_le_bytes(s.token_sale_time) + seq![
        bool_byte(s.token_sale_paused),
        bool_byte(s.token_sale_ended),
    ]
}

/// What decoding a record buffer yields.  A buffer shorter than the record,
/// or a boolean byte other than 0 or 1, is rejected; bytes past the record
/// are ignored.
pub open spec fn parse_record(src: Seq<u8>) -> Result<TokenSale, ProcessError> {
    if src.len() < 203 {
        Err(ProcessError::InvalidAccountData)
    } else if src[0] > 1 || src[201] > 1 || src[202] > 1 {
        Err(ProcessError::InvalidAccountData)
    } else {
        Ok(TokenSale {
            is_initialized: src[0] == 1,
            init_pubkey: spec_address_from_bytes(src.subrange(1, 33)),
            sale_token_account_pubkey: spec_address_from_bytes(src.subrange(33, 65)),
            pool_token_account_pubkey: spec_address_from_bytes(src.subrange(65, 97)),
            whitelist_map_pubkey: spec_address_from_bytes(src.subrange(97, 129)),
            whitelist_program_pubkey: spec_address_from_bytes(src.subrange(129, 161)),
            token_sale_amount: vstd::bytes::spec_u64_from_le_bytes(src.subrange(161, 169)),
            usd_min_amount: vstd::bytes::spec_u64_from_le_bytes(src.subrange(169, 177)),
            usd_max_amount: vstd::bytes::spec_u64_from_le_bytes(src.subrange(177, 185)),
            token_sale_price: vstd::bytes::spec_u64_from_le_bytes(src.subrange(185, 193)),
            token_sale_time: vstd::bytes::spec_u64_from_le_bytes(src.subrange(193, 201)),
            token_sale_paused: src[201] == 1,
            token_sale_ended: src[202] == 1,
        })
    }
}

impl TokenSale {
    /// Whether the record has been initialised.
    pub fn is_initialized(&self) -> (r: bool)
        ensures
            r == self.is_initialized,
    {
        self.is_initialized
    }

    /// The lifecycle stage encoded by this record's flags.
    pub fn stage(&self) -> (r: SaleStage)
        ensures
            r == spec_stage(*self),
    {
        if !self.is_initialized {
            SaleStage::Uninitialized
        } else if self.token_sale_ended {
            SaleStage::Ended
        } else if self.token_sale_paused {
            SaleStage::Paused
        } else {
            SaleStage::Active
        }
    }

    /// Decodes a record from the first 203 bytes of its persisted form.
    pub fn unpack_from_slice(src: &[u8]) -> (r: Result<TokenSale, ProcessError>)
        ensures
            r == parse_record(src@),
    {
        if src.len() < RECORD_LEN {
            return Err(ProcessError::InvalidAccountData);
        }
        let b_init: u8 = *slice_index_get(src, 0);
        let b_paused: u8 = *slice_index_get(src, 201);
        let b_ended: u8 = *slice_index_get(src, 202);
        if b_init > 1 || b_paused > 1 || b_ended > 1 {
            return Err(ProcessError::InvalidAccountData);
        }
        Ok(TokenSale {
            is_initialized: b_init == 1,
            init_pubkey: Address::from_bytes(slice_subrange(src, 1, 33)),
            sale_token_account_pubkey: Address::from_bytes(slice_subrange(src, 33, 65)),
            pool_token_account_pubkey: Address::from_bytes(slice_subrange(src, 65, 97)),
            whitelist_map_pubkey: Address::from_bytes(slice_subrange(src, 97, 129)),
            whitelist_program_pubkey: Address::from_bytes(slice_subrange(src, 129, 161)),
            token_sale_amount: u64_from_le_bytes(slice_subrange(src, 161, 169)),
            usd_min_amount: u64_from_le_bytes(slice_subrange(src, 169, 177)),
            usd_max_amount: u64_from_le_bytes(slice_subrange(src, 177, 185)),
            token_sale_price: u64_from_le_bytes(slice_subrange(src, 185, 193)),
            token_sale_time: u64_from_le_bytes(slice_subrange(src, 193, 201)),
            token_sale_paused: b_paused == 1,
            token_sale_ended: b_ended == 1,
        })
    }

    /// Writes the 203-byte persisted form of this record into `dst`,
    /// replacing its contents.
    pub fn pack_into_slice(&self, dst: &mut Vec<u8>)
        ensures
            final(dst)@ == record_bytes(*self),
    {
        dst.clear();
        if self.is_initialized {
            dst.push(1u8);
        } else {
            dst.push(0u8);
        }
        let a0 = self.init_pubkey.to_vec();
        dst.extend_from_slice(a0.as_slice());
        let a1 = self.sale_token_account_pubkey.to_vec();
        dst.extend_from_slice(a1.as_slice());
        let a2 = self.pool_token_account_pubkey.to_vec();
        dst.extend_from_slice(a2.as_slice());
        let a3 = self.whitelist_map_pubkey.to_vec();
        dst.extend_from_slice(a3.as_slice());
        let a4 = self.whitelist_program_pubkey.to_vec();
        dst.extend_from_slice(a4.as_slice());
        let n0 = u64_to_le_bytes(self.token_sale_amount);
        dst.extend_from_slice(n0.as_slice());
        let n1 = u64_to_le_bytes(self.usd_min_amount);
        dst.extend_from_slice(n1.as_slice());
        let n2 = u64_to_le_bytes(self.usd_max_amount);
        dst.extend_from_slice(n2.as_slice());
        let n3 = u64_to_le_bytes(self.token_sale_price);
        dst.extend_from_slice(n3.as_slice());
        let n4 = u64_to_le_bytes(self.token_sale_time);
        dst.extend_from_slice(n4.as_slice());
        if self.token_sale_paused {
            dst.push(1u8);
        } else {
            dst.push(0u8);
        }
        if self.token_sale_ended {
            dst.push(1u8);
        } else {
            dst.push(0u8);
        }
        proof {
            assert(dst@ =~= record_bytes(*self));
        }
    }
}

/// The persisted form of a record is 203 bytes long.
pub proof fn lemma_record_bytes_len(s: TokenSale)
    ensures
        record_bytes(s).len() == 203,
{
    lemma_auto_spec_u64_to_from_le_bytes();
    s.init_pubkey.lemma_bytes_len();
    s.sale_token_account_pubkey.lemma_bytes_len();
    s.pool_token_account_pubkey.lemma_bytes_len();
    s.whitelist_map_pubkey.lemma_bytes_len();
    s.whitelist_program_pubkey.lemma_bytes_len();
}

/// Round trip: decoding the persisted form of a record yields the record
/// back, for every record.
pub proof fn lemma_record_roundtrip(s: TokenSale)
    ensures
        parse_record(record_bytes(s)) == Ok::<TokenSale, ProcessError>(s),
{
    lemma_auto_spec_u64_to_from_le_bytes();
    lemma_record_bytes_len(s);
    s.init_pubkey.lemma_bytes_len();
    s.sale_token_account_pubkey.lemma_bytes_len();
    s.pool_token_account_pubkey.lemma_bytes_len();
    s.whitelist_map_pubkey.lemma_bytes_len();
    s.whitelist_program_pubkey.lemma_bytes_len();
    let b = record_bytes(s);
    assert(b[0] == bool_byte(s.is_initialized));
    assert(b[201] == bool_byte(s.token_sale_paused));
    assert(b[202] == bool_byte(s.token_sale_ended));
    assert(b.subrange(1, 33) =~= s.init_pubkey.bytes());
    assert(b.subrange(33, 65) =~= s.sale_token_account_pubkey.bytes());
    assert(b.subrange(65, 97) =~= s.pool_token_account_pubkey.bytes());
    assert(b.subrange(97, 129) =~= s.whitelist_map_pubkey.bytes());
    assert(b.subrange(129, 161) =~= s.whitelist_program_pubkey.bytes());
    assert(b.subrange(161, 169) =~= spec_u64_to_le_bytes(s.token_sale_amount));
    assert(b.subrange(169, 177) =~= spec_u64_to_le_bytes(s.usd_min_amount));
    assert(b.subrange(177, 185) =~= spec_u64_to_le_bytes(s.usd_max_amount));
    assert(b.subrange(185, 193) =~= spec_u64_to_le_bytes(s.token_sale_price));
    assert(b.subrange(193, 201) =~= spec_u64_to_le_bytes(s.token_sale_time));
    s.init_pubkey.lemma_wire_roundtrip();
    s.sale_token_account_pubkey.lemma_wire_roundtrip();
    s.pool_token_account_pubkey.lemma_wire_roundtrip();
    s.whitelist_map_pubkey.lemma_wire_roundtrip();
    s.whitelist_program_pubkey.lemma_wire_roundtrip();
}

/// Inverse round trip: re-encoding a decoded record reproduces exactly the
/// 203 bytes the decoder consumed.
pub proof fn lemma_record_parse_inverse(src: Seq<u8>)
    ensures
        parse_record(src) matches Ok(s) ==> record_bytes(s) == src.subrange(0, 203),
{
    lemma_auto_spec_u64_to_from_le_bytes();
    match parse_record(src) {
        Ok(s) => {
            Address::lemma_wire_inverse(src.subrange(1, 33));
            Address::lemma_wire_inverse(src.subrange(33, 65));
            Address::lemma_wire_inverse(src.subrange(65, 97));
            Address::lemma_wire_inverse(src.subrange(97, 129));
            Address::lemma_wire_inverse(src.subrange(129, 161));
            assert(spec_u64_to_le_bytes(vstd::bytes::spec_u64_from_le_bytes(src.subrange(161, 169)))
                == src.subrange(161, 169));
            assert(spec_u64_to_le_bytes(vstd::bytes::spec_u64_from_le_bytes(src.subrange(169, 177)))
                == src.subrange(169, 177));
            assert(spec_u64_to_le_bytes(vstd::bytes::spec_u64_from_le_bytes(src.subrange(177, 185)))
                == src.subrange(177, 185));
            assert(spec_u64_to_le_bytes(vstd::bytes::spec_u64_from_le_bytes(src.subrange(185, 193)))
                == src.subrange(185, 193));
            assert(spec_u64_to_le_bytes(vstd::bytes::spec_u64_from_le_bytes(src.subrange(193, 201)))
                == src.subrange(193, 201));
            assert(bool_byte(s.is_initialized) == src[0]);
            assert(bool_byte(s.token_sale_paused) == src[201]);
            assert(bool_byte(s.token_sale_ended) == src[202]);
            assert(record_bytes(s) =~= src.subrange(0, 203));
        },
        Err(_) => {
        },
    }
}

} // verus!
