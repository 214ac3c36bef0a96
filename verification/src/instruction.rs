use vstd::prelude::*;

verus! {

use vstd::bytes::{spec_u64_to_le_bytes, spec_u64_from_le_bytes, u64_to_le_bytes, u64_from_le_bytes};
use vstd::bytes::lemma_auto_spec_u64_to_from_le_bytes;
use vstd::slice::{slice_subrange, slice_index_get};
use crate::error::TokenSaleError;

/// The six operations of the sale, as decoded from the wire.
///
/// The wire form is one discriminant byte followed by the variant's fields as
/// little-endian 8-byte unsigned integers, in declaration order, with no
/// terminator and no length prefix.
#[derive(Clone, Copy, Debug, PartialEq, Eq, Structural)]
pub enum TokenSaleInstruction {
    /// Initialise the sale record and hand the sale token account over to the
    /// program-derived custody address.  Tag 0.
    InitTokenSale {
        /// Amount of tokens for sale, to be deposited at funding time.
        token_sale_amount: u64,
        /// Minimum purchase amount per transaction, in payment units.
        usd_min_amount: u64,
        /// Maximum purchase amount per transaction, in payment units.
        usd_max_amount: u64,
        /// Tokens purchasable per one payment unit.
        token_sale_price: u64,
        /// Unix timestamp at which the sale goes live.
        token_sale_time: u64,
    },
    /// Move the declared sale amount from the pool into the sale token
    /// account.  Tag 1.
    FundTokenSale {
        /// Amount of tokens deposited into the sale token account.
        token_sale_amount: u64,
    },
    /// Atomically swap a buyer's payment for sale tokens.  Tag 2.
    ExecuteTokenSale {
        /// Purchase amount in payment units.
        usd_amount: u64,
    },
    /// Pause the sale.  Tag 3.
    PauseTokenSale {},
    /// Resume a paused sale.  Tag 4.
    ResumeTokenSale {},
    /// End the sale for good.  Tag 5.
    EndTokenSale {},
}

/// The exact byte encoding of an instruction.
pub open spec fn instruction_bytes(i: TokenSaleInstruction) -> Seq<u8> {
    match i {
        TokenSaleInstruction::InitTokenSale {
            token_sale_amount,
            usd_min_amount,
            usd_max_amount,
            token_sale_price,
            token_sale_time,
        } => seq![0u8] + spec_u64_to_le_bytes(token_sale_amount)
            + spec_u64_to_le_bytes(usd_min_amount) + spec_u64_to_le_bytes(usd_max_amount)
            + spec_u64_to_le_bytes(token_sale_price) + spec_u64_to_le_bytes(token_sale_time),
        TokenSaleInstruction::FundTokenSale { token_sale_amount } => seq![1u8]
            + spec_u64_to_le_bytes(token_sale_amount),
        TokenSaleInstruction::ExecuteTokenSale { usd_amount } => seq![2u8]
            + spec_u64_to_le_bytes(usd_amount),
        TokenSaleInstruction::PauseTokenSale {  } => seq![3u8],
        TokenSaleInstruction::ResumeTokenSale {  } => seq![4u8],
        TokenSaleInstruction::EndTokenSale {  } => seq![5u8],
    }
}

/// What decoding a buffer yields: the instruction whose tag is the first byte,
/// with each field read from the following little-endian words.  An empty
/// buffer, an unknown tag, or a buffer shorter than the tag requires is
/// rejected.  Bytes past what the tag requires are ignored.
pub open spec fn parse_instruction(input: Seq<u8>) -> Result<TokenSaleInstruction, TokenSaleError> {
    if input.len() == 0 {
        Err(TokenSaleError::InvalidInstruction)
    } else if input[0] == 0 {
        if input.len() >= 41 {
            Ok(TokenSaleInstruction::InitTokenSale {
                token_sale_amount: spec_u64_from_le_bytes(input.subrange(1, 9)),
                usd_min_amount: spec_u64_from_le_bytes(input.subrange(9, 17)),
                usd_max_amount: spec_u64_from_le_bytes(input.subrange(17, 25)),
                token_sale_price: spec_u64_from_le_bytes(input.subrange(25, 33)),
                token_sale_time: spec_u64_from_le_bytes(input.subrange(33, 41)),
            })
        } else {
            Err(TokenSaleError::InvalidInstruction)
        }
    } else if input[0] == 1 {
        if input.len() >= 9 {
            Ok(TokenSaleInstruction::FundTokenSale {
                token_sale_amount: spec_u64_from_le_bytes(input.subrange(1, 9)),
            })
        } else {
            Err(TokenSaleError::InvalidInstruction)
        }
    } else if input[0] == 2 {
        if input.len() >= 9 {
            Ok(TokenSaleInstruction::ExecuteTokenSale {
                usd_amount: spec_u64_from_le_bytes(input.subrange(1, 9)),
            })
        } else {
            Err(TokenSaleError::InvalidInstruction)
        }
    } else if input[0] == 3 {
        Ok(TokenSaleInstruction::PauseTokenSale {  })
    } else if input[0] == 4 {
        Ok(TokenSaleInstruction::ResumeTokenSale {  })
    } else if input[0] == 5 {
        Ok(TokenSaleInstruction::EndTokenSale {  })
    } else {
        Err(TokenSaleError::InvalidInstruction)
    }
}

impl TokenSaleInstruction {
    /// Decodes a byte buffer into an instruction.
    pub fn unpack(input: &[u8]) -> (r: Result<TokenSaleInstruction, TokenSaleError>)
        ensures
            r == parse_instruction(input@),
            input@.len() == 0 ==> (r matches Err(e) && e == TokenSaleError::InvalidInstruction),
            input@.len() > 0 && input@[0] > 5 ==> (r matches Err(e) && e
                == TokenSaleError::InvalidInstruction),
    {
        if input.len() == 0 {
            return Err(TokenSaleError::InvalidInstruction);
        }
        let tag: u8 = *slice_index_get(input, 0);
        if tag == 0 {
            if input.len() < 41 {
                return Err(TokenSaleError::InvalidInstruction);
            }
            let token_sale_amount: u64 = u64_from_le_bytes(slice_subrange(input, 1, 9));
            let usd_min_amount: u64 = u64_from_le_bytes(slice_subrange(input, 9, 17));
            let usd_max_amount: u64 = u64_from_le_bytes(slice_subrange(input, 17, 25));
            let token_sale_price: u64 = u64_from_le_bytes(slice_subrange(input, 25, 33));
            let token_sale_time: u64 = u64_from_le_bytes(slice_subrange(input, 33, 41));
            Ok(TokenSaleInstruction::InitTokenSale {
                token_sale_amount,
                usd_min_amount,
                usd_max_amount,
                token_sale_price,
                token_sale_time,
            })
        } else if tag == 1 {
            if input.len() < 9 {
                return Err(TokenSaleError::InvalidInstruction);
            }
            let token_sale_amount: u64 = u64_from_le_bytes(slice_subrange(input, 1, 9));
            Ok(TokenSaleInstruction::FundTokenSale { token_sale_amount })
        } else if tag == 2 {
            if input.len() < 9 {
                return Err(TokenSaleError::InvalidInstruction);
            }
            let usd_amount: u64 = u64_from_le_bytes(slice_subrange(input, 1, 9));
            Ok(TokenSaleInstruction::ExecuteTokenSale { usd_amount })
        } else if tag == 3 {
            Ok(TokenSaleInstruction::PauseTokenSale {  })
        } else if tag == 4 {
            Ok(TokenSaleInstruction::ResumeTokenSale {  })
        } else if tag == 5 {
            Ok(TokenSaleInstruction::EndTokenSale {  })
        } else {
            Err(TokenSaleError::InvalidInstruction)
        }
    }

    /// Encodes this instruction into its byte form.
    pub fn pack(&self) -> (buf: Vec<u8>)
        ensures
            buf@ == instruction_bytes(*self),
    {
        let mut buf: Vec<u8> = Vec::new();
        match *self {
            TokenSaleInstruction::InitTokenSale {
                token_sale_amount,
                usd_min_amount,
                usd_max_amount,
                token_sale_price,
                token_sale_time,
            } => {
                buf.push(0u8);
                let b0 = u64_to_le_bytes(token_sale_amount);
                buf.extend_from_slice(b0.as_slice());
                let b1 = u64_to_le_bytes(usd_min_amount);
                buf.extend_from_slice(b1.as_slice());
                let b2 = u64_to_le_bytes(usd_max_amount);
                buf.extend_from_slice(b2.as_slice());
                let b3 = u64_to_le_bytes(token_sale_price);
                buf.extend_from_slice(b3.as_slice());
                let b4 = u64_to_le_bytes(token_sale_time);
                buf.extend_from_slice(b4.as_slice());
                proof {
                    assert(buf@ =~= instruction_bytes(*self));
                }
            },
            TokenSaleInstruction::FundTokenSale { token_sale_amount } => {
                buf.push(1u8);
                let b0 = u64_to_le_bytes(token_sale_amount);
                buf.extend_from_slice(b0.as_slice());
                proof {
                    assert(buf@ =~= instruction_bytes(*self));
                }
            },
            TokenSaleInstruction::ExecuteTokenSale { usd_amount } => {
                buf.push(2u8);
                let b0 = u64_to_le_bytes(usd_amount);
                buf.extend_from_slice(b0.as_slice());
                proof {
                    assert(buf@ =~= instruction_bytes(*self));
                }
            },
            TokenSaleInstruction::PauseTokenSale {  } => {
                buf.push(3u8);
                proof {
                    assert(buf@ =~= instruction_bytes(*self));
                }
            },
            TokenSaleInstruction::ResumeTokenSale {  } => {
                buf.push(4u8);
                proof {
                    assert(buf@ =~= instruction_bytes(*self));
                }
            },
            TokenSaleInstruction::EndTokenSale {  } => {
                buf.push(5u8);
                proof {
                    assert(buf@ =~= instruction_bytes(*self));
                }
            },
        }
        buf
    }
}

/// Inverse round trip: re-encoding a decoded instruction reproduces exactly
/// the bytes the decoder consumed.
pub proof fn lemma_unpack_pack_roundtrip(input: Seq<u8>)
    ensures
        parse_instruction(input) matches Ok(x) ==> instruction_bytes(x) == input.subrange(
            0,
            instruction_bytes(x).len() as int,
        ),
{
    lemma_auto_spec_u64_to_from_le_bytes();
    match parse_instruction(input) {
        Ok(x) => {
            match x {
                TokenSaleInstruction::InitTokenSale { .. } => {
                    assert(spec_u64_to_le_bytes(spec_u64_from_le_bytes(input.subrange(1, 9)))
                        == input.subrange(1, 9));
                    assert(spec_u64_to_le_bytes(spec_u64_from_le_bytes(input.subrange(9, 17)))
                        == input.subrange(9, 17));
                    assert(spec_u64_to_le_bytes(spec_u64_from_le_bytes(input.subrange(17, 25)))
                        == input.subrange(17, 25));
                    assert(spec_u64_to_le_bytes(spec_u64_from_le_bytes(input.subrange(25, 33)))
                        == input.subrange(25, 33));
                    assert(spec_u64_to_le_bytes(spec_u64_from_le_bytes(input.subrange(33, 41)))
                        == input.subrange(33, 41));
                    assert(instruction_bytes(x) =~= input.subrange(0, 41));
                },
                TokenSaleInstruction::FundTokenSale { .. } => {
                    assert(spec_u64_to_le_bytes(spec_u64_from_le_bytes(input.subrange(1, 9)))
                        == input.subrange(1, 9));
                    assert(instruction_bytes(x) =~= input.subrange(0, 9));
                },
                TokenSaleInstruction::ExecuteTokenSale { .. } => {
                    assert(spec_u64_to_le_bytes(spec_u64_from_le_bytes(input.subrange(1, 9)))
                        == input.subrange(1, 9));
                    assert(instruction_bytes(x) =~= input.subrange(0, 9));
                },
                TokenSaleInstruction::PauseTokenSale {  } => {
                    assert(instruction_bytes(x) =~= input.subrange(0, 1));
                },
                TokenSaleInstruction::ResumeTokenSale {  } => {
                    assert(instruction_bytes(x) =~= input.subrange(0, 1));
                },
                TokenSaleInstruction::EndTokenSale {  } => {
                    assert(instruction_bytes(x) =~= input.subrange(0, 1));
                },
            }
        },
        Err(_) => {
        },
    }
}

/// Round trip: decoding an encoded instruction yields the instruction back,
/// for every instruction tag and all field values.
pub proof fn lemma_pack_unpack_roundtrip(x: TokenSaleInstruction)
    ensures
        parse_instruction(instruction_bytes(x)) == Ok::<TokenSaleInstruction, TokenSaleError>(x),
{
    lemma_auto_spec_u64_to_from_le_bytes();
    let s = instruction_bytes(x);
    match x {
        TokenSaleInstruction::InitTokenSale {
            token_sale_amount,
            usd_min_amount,
            usd_max_amount,
            token_sale_price,
            token_sale_time,
        } => {
            assert(s.subrange(1, 9) =~= spec_u64_to_le_bytes(token_sale_amount));
            assert(s.subrange(9, 17) =~= spec_u64_to_le_bytes(usd_min_amount));
            assert(s.subrange(17, 25) =~= spec_u64_to_le_bytes(usd_max_amount));
            assert(s.subrange(25, 33) =~= spec_u64_to_le_bytes(token_sale_price));
            assert(s.subrange(33, 41) =~= spec_u64_to_le_bytes(token_sale_time));
        },
        TokenSaleInstruction::FundTokenSale { token_sale_amount } => {
            assert(s.subrange(1, 9) =~= spec_u64_to_le_bytes(token_sale_amount));
        },
        TokenSaleInstruction::ExecuteTokenSale { usd_amount } => {
            assert(s.subrange(1, 9) =~= spec_u64_to_le_bytes(usd_amount));
        },
        TokenSaleInstruction::PauseTokenSale {  } => {
        },
        TokenSaleInstruction::ResumeTokenSale {  } => {
        },
        TokenSaleInstruction::EndTokenSale {  } => {
        },
    }
}

} // verus!
