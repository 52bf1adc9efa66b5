//! Instructions of the lending program and their byte encoding.
use crate::bytes::{
    le_bytes, le_value, lemma_le_bytes_len, lemma_le_bytes_of_value, lemma_le_value_bound,
    lemma_le_value_of_bytes, lemma_pow256_16, push_bytes32, push_le, read_bytes32, read_le,
};
use crate::lending::error::LendingError;
use crate::lending::pack::push_model;
use crate::lending::state::{
    InterestRateModel, all_zero, interest_model_bytes, interest_model_from_bytes,
};
use crate::pubkey::Pubkey;
use vstd::prelude::*;

verus! {

/// Minimum number of multisignature signers.
pub const MIN_SIGNERS: usize = 1;

/// Maximum number of multisignature signers.
pub const MAX_SIGNERS: usize = 11;

/// Instructions of the lending program.
#[derive(Clone, Copy, Debug, PartialEq, Eq)]
pub enum LendingInstruction {
    /// Initializes a lending market with its owner.
    InitLendingMarket { owner: Pubkey },
    /// Initializes a new lending pool, depositing an initial amount of liquidity.
    InitLendingPool { liquidity_amount: u64 },
    /// Replaces the interest rate model of a pool.
    UpdateInterestModel { interest_model: InterestRateModel },
    /// Deposits liquidity into a pool in exchange for share tokens.
    DepositToLendingPool { liquidity_amount: u64 },
    /// Redeems share tokens for liquidity.
    WithdrawFromLendingPool { share_amount: u64 },
    /// Redeems share tokens for a given amount of liquidity.
    WithdrawFromLendingPool2 { liquidity_amount: u64 },
    /// Mints credit for a borrower.
    MintCredit { credit_amount: u64 },
    /// Burns a borrower's credit.
    BurnCredit { credit_amount: u64 },
    /// Borrows liquidity from a pool.
    BorrowFromLendingPool { tkn_amount: u64 },
    /// Repays borrowed liquidity to a pool.
    RepayToLendingPool { tkn_amount: u64 },
    /// Updates a pool: accrues interest.
    UpdateLendingPool,
    /// Withdraws the interest reserve, by the admin.
    AdminWithdrawReserve,
    /// Withdraws part of the interest reserve, by the admin.
    AdminReduceReserve(u64),
    /// Transfers the ownership of a lending market.
    TransferMarketOwner,
    /// Sets the fee receiver of a pool.
    SetFeeReceiver,
    /// Updates a pool, second form.
    UpdateLendingPool2,
}

/// The encoding of an instruction: its tag, then its argument, an address as its 32 bytes, an
/// interest model as its 11 bytes and an amount as eight little-endian bytes.
pub open spec fn lending_instruction_bytes(ix: LendingInstruction) -> Seq<u8> {
    match ix {
        LendingInstruction::InitLendingMarket { owner } => seq![0u8] + owner.0@,
        LendingInstruction::InitLendingPool { liquidity_amount } => seq![2u8] + le_bytes(
            liquidity_amount as nat,
            8,
        ),
        LendingInstruction::UpdateInterestModel { interest_model } => seq![3u8] + interest_model_bytes(
            interest_model,
        ),
        LendingInstruction::DepositToLendingPool { liquidity_amount } => seq![4u8] + le_bytes(
            liquidity_amount as nat,
            8,
        ),
        LendingInstruction::WithdrawFromLendingPool { share_amount } => seq![5u8] + le_bytes(
            share_amount as nat,
            8,
        ),
        LendingInstruction::WithdrawFromLendingPool2 { liquidity_amount } => seq![6u8] + le_bytes(
            liquidity_amount as nat,
            8,
        ),
        LendingInstruction::MintCredit { credit_amount } => seq![7u8] + le_bytes(
            credit_amount as nat,
            8,
        ),
        LendingInstruction::BurnCredit { credit_amount } => seq![8u8] + le_bytes(
            credit_amount as nat,
            8,
        ),
        LendingInstruction::BorrowFromLendingPool { tkn_amount } => seq![10u8] + le_bytes(
            tkn_amount as nat,
            8,
        ),
        LendingInstruction::RepayToLendingPool { tkn_amount } => seq![11u8] + le_bytes(
            tkn_amount as nat,
            8,
        ),
        LendingInstruction::UpdateLendingPool => seq![12u8],
        LendingInstruction::AdminWithdrawReserve => seq![13u8],
        LendingInstruction::AdminReduceReserve(amount) => seq![14u8] + le_bytes(amount as nat, 8),
        LendingInstruction::TransferMarketOwner => seq![15u8],
        LendingInstruction::SetFeeReceiver => seq![16u8],
        LendingInstruction::UpdateLendingPool2 => seq![17u8],
    }
}

/// Whether decoding runs through: an interest model must have its 11 bytes.
pub open spec fn lending_unpack_defined(s: Seq<u8>) -> bool {
    s.len() > 0 && s[0] == 3 ==> s.len() >= 12
}

/// The tags of the instructions whose argument is an amount.
pub open spec fn is_amount_tag(t: u8) -> bool {
    t == 2 || t == 4 || t == 5 || t == 6 || t == 7 || t == 8 || t == 10 || t == 11 || t == 14
}

/// The tags of the instructions without argument.
pub open spec fn is_unit_tag(t: u8) -> bool {
    t == 12 || t == 13 || t == 15 || t == 16 || t == 17
}

/// Whether `s` decodes to an instruction: a known tag followed by at least the bytes of its
/// argument.
pub open spec fn lending_unpack_ok(s: Seq<u8>) -> bool {
    &&& s.len() > 0
    &&& s[0] == 0 ==> s.len() >= 33
    &&& is_amount_tag(s[0]) ==> s.len() >= 9
    &&& s[0] == 0 || s[0] == 3 || is_amount_tag(s[0]) || is_unit_tag(s[0])
}

/// Whether `ix` is the instruction that `s` decodes to; bytes after the argument are not read,
/// and all-zero model bytes read as the default model.
pub open spec fn lending_instruction_decodes(s: Seq<u8>, ix: LendingInstruction) -> bool {
    let amount = le_value(s.subrange(1, 9)) as u64;
    if s[0] == 0 {
        ix matches LendingInstruction::InitLendingMarket { owner } && owner.0@ == s.subrange(1, 33)
    } else if s[0] == 3 {
        ix == LendingInstruction::UpdateInterestModel {
            interest_model: interest_model_from_bytes(s.subrange(1, 12)),
        }
    } else if s[0] == 2 {
        ix == (LendingInstruction::InitLendingPool { liquidity_amount: amount })
    } else if s[0] == 4 {
        ix == (LendingInstruction::DepositToLendingPool { liquidity_amount: amount })
    } else if s[0] == 5 {
        ix == (LendingInstruction::WithdrawFromLendingPool { share_amount: amount })
    } else if s[0] == 6 {
        ix == (LendingInstruction::WithdrawFromLendingPool2 { liquidity_amount: amount })
    } else if s[0] == 7 {
        ix == (LendingInstruction::MintCredit { credit_amount: amount })
    } else if s[0] == 8 {
        ix == (LendingInstruction::BurnCredit { credit_amount: amount })
    } else if s[0] == 10 {
        ix == (LendingInstruction::BorrowFromLendingPool { tkn_amount: amount })
    } else if s[0] == 11 {
        ix == (LendingInstruction::RepayToLendingPool { tkn_amount: amount })
    } else if s[0] == 14 {
        ix == LendingInstruction::AdminReduceReserve(amount)
    } else if s[0] == 12 {
        ix == LendingInstruction::UpdateLendingPool
    } else if s[0] == 13 {
        ix == LendingInstruction::AdminWithdrawReserve
    } else if s[0] == 15 {
        ix == LendingInstruction::TransferMarketOwner
    } else if s[0] == 16 {
        ix == LendingInstruction::SetFeeReceiver
    } else if s[0] == 17 {
        ix == LendingInstruction::UpdateLendingPool2
    } else {
        false
    }
}

/// The eight little-endian bytes at the start of `input`, and what follows them; fewer than eight
/// bytes is an unpack error.
fn unpack_u64(input: &[u8]) -> (r: Result<(u64, &[u8]), LendingError>)
    ensures
        r is Ok <==> input@.len() >= 8,
        r matches Ok((v, rest)) ==> v == le_value(input@.subrange(0, 8)) && rest@ == input@.subrange(
            8,
            input@.len() as int,
        ),
        r matches Err(e) ==> e == LendingError::InstructionUnpackError,
{
    if input.len() < 8 {
        return Err(LendingError::InstructionUnpackError);
    }
    proof {
        lemma_pow256_16();
        lemma_le_value_bound(input@.subrange(0, 8));
    }
    let amount = read_le(input, 0, 8) as u64;
    let (_, rest) = input.split_at(8);
    Ok((amount, rest))
}

/// The address in the 32 bytes at the start of `input`, and what follows it; fewer than 32 bytes
/// is an unpack error.
fn unpack_owner_pubkey(input: &[u8]) -> (r: Result<(Pubkey, &[u8]), LendingError>)
    ensures
        r is Ok <==> input@.len() >= 32,
        r matches Ok((k, rest)) ==> k.0@ == input@.subrange(0, 32) && rest@ == input@.subrange(
            32,
            input@.len() as int,
        ),
        r matches Err(e) ==> e == LendingError::InstructionUnpackError,
{
    if input.len() < 32 {
        return Err(LendingError::InstructionUnpackError);
    }
    let key = read_bytes32(input, 0);
    let (_, rest) = input.split_at(32);
    Ok((Pubkey(key), rest))
}

/// Whether the instruction with tag `t` takes an amount.
fn is_amount_tag_exec(t: u8) -> (r: bool)
    ensures
        r == is_amount_tag(t),
{
    t == 2 || t == 4 || t == 5 || t == 6 || t == 7 || t == 8 || t == 10 || t == 11 || t == 14
}

impl LendingInstruction {
    /// Decodes an instruction. No bytes, an unknown tag, or a missing argument is an unpack
    /// error.
    pub fn unpack(input: &[u8]) -> (r: Result<LendingInstruction, LendingError>)
        requires
            lending_unpack_defined(input@),
        ensures
            r is Ok <==> lending_unpack_ok(input@),
            r matches Ok(ix) ==> lending_instruction_decodes(input@, ix),
            r matches Err(e) ==> e == LendingError::InstructionUnpackError,
    {
        if input.len() == 0 {
            return Err(LendingError::InstructionUnpackError);
        }
        let (tag_bytes, rest) = input.split_at(1);
        let tag = tag_bytes[0];
        assert(rest@ =~= input@.subrange(1, input@.len() as int));
        if tag == 0 {
            let (owner, _rest) = match unpack_owner_pubkey(rest) {
                Ok(x) => x,
                Err(e) => return Err(e),
            };
            assert(rest@.subrange(0, 32) =~= input@.subrange(1, 33));
            return Ok(LendingInstruction::InitLendingMarket { owner });
        }
        if tag == 3 {
            let interest_model = InterestRateModel::unpack_from_slice(rest);
            assert(rest@.subrange(0, 11) =~= input@.subrange(1, 12));
            return Ok(LendingInstruction::UpdateInterestModel { interest_model });
        }
        if is_amount_tag_exec(tag) {
            let (amount, _rest) = match unpack_u64(rest) {
                Ok(x) => x,
                Err(e) => return Err(e),
            };
            assert(rest@.subrange(0, 8) =~= input@.subrange(1, 9));
            let ix = if tag == 2 {
                LendingInstruction::InitLendingPool { liquidity_amount: amount }
            } else if tag == 4 {
                LendingInstruction::DepositToLendingPool { liquidity_amount: amount }
            } else if tag == 5 {
                LendingInstruction::WithdrawFromLendingPool { share_amount: amount }
            } else if tag == 6 {
                LendingInstruction::WithdrawFromLendingPool2 { liquidity_amount: amount }
            } else if tag == 7 {
                LendingInstruction::MintCredit { credit_amount: amount }
            } else if tag == 8 {
                LendingInstruction::BurnCredit { credit_amount: amount }
            } else if tag == 10 {
                LendingInstruction::BorrowFromLendingPool { tkn_amount: amount }
            } else if tag == 11 {
                LendingInstruction::RepayToLendingPool { tkn_amount: amount }
            } else {
                LendingInstruction::AdminReduceReserve(amount)
            };
            return Ok(ix);
        }
        if tag == 12 {
            Ok(LendingInstruction::UpdateLendingPool)
        } else if tag == 13 {
            Ok(LendingInstruction::AdminWithdrawReserve)
        } else if tag == 15 {
            Ok(LendingInstruction::TransferMarketOwner)
        } else if tag == 16 {
            Ok(LendingInstruction::SetFeeReceiver)
        } else if tag == 17 {
            Ok(LendingInstruction::UpdateLendingPool2)
        } else {
            Err(LendingError::InstructionUnpackError)
        }
    }

    /// Encodes the instruction.
    pub fn pack(&self) -> (r: Vec<u8>)
        ensures
            r@ == lending_instruction_bytes(*self),
    {
        let mut buf: Vec<u8> = Vec::new();
        match self {
            LendingInstruction::InitLendingMarket { owner } => {
                buf.push(0);
                push_bytes32(&mut buf, &owner.0);
            },
            LendingInstruction::InitLendingPool { liquidity_amount } => {
                buf.push(2);
                push_le(&mut buf, *liquidity_amount as u128, 8);
            },
            LendingInstruction::UpdateInterestModel { interest_model } => {
                buf.push(3);
                push_model(&mut buf, interest_model);
            },
            LendingInstruction::DepositToLendingPool { liquidity_amount } => {
                buf.push(4);
                push_le(&mut buf, *liquidity_amount as u128, 8);
            },
            LendingInstruction::WithdrawFromLendingPool { share_amount } => {
                buf.push(5);
                push_le(&mut buf, *share_amount as u128, 8);
            },
            LendingInstruction::WithdrawFromLendingPool2 { liquidity_amount } => {
                buf.push(6);
                push_le(&mut buf, *liquidity_amount as u128, 8);
            },
            LendingInstruction::MintCredit { credit_amount } => {
                buf.push(7);
                push_le(&mut buf, *credit_amount as u128, 8);
            },
            LendingInstruction::BurnCredit { credit_amount } => {
                buf.push(8);
                push_le(&mut buf, *credit_amount as u128, 8);
            },
            LendingInstruction::BorrowFromLendingPool { tkn_amount } => {
                buf.push(10);
                push_le(&mut buf, *tkn_amount as u128, 8);
            },
            LendingInstruction::RepayToLendingPool { tkn_amount } => {
                buf.push(11);
                push_le(&mut buf, *tkn_amount as u128, 8);
            },
            LendingInstruction::UpdateLendingPool => {
                buf.push(12);
            },
            LendingInstruction::AdminWithdrawReserve => {
                buf.push(13);
            },
            LendingInstruction::AdminReduceReserve(amount) => {
                buf.push(14);
                push_le(&mut buf, *amount as u128, 8);
            },
            LendingInstruction::TransferMarketOwner => {
                buf.push(15);
            },
            LendingInstruction::SetFeeReceiver => {
                buf.push(16);
            },
            LendingInstruction::UpdateLendingPool2 => {
                buf.push(17);
            },
        }
        assert(buf@ =~= lending_instruction_bytes(*self));
        buf
    }
}

/// Eight little-endian bytes after any tag read back as the number they encode.
proof fn lemma_amount_round_trip(x: u64)
    ensures
        forall|t: u8|
            #![trigger (seq![t] + le_bytes(x as nat, 8))]
            (seq![t] + le_bytes(x as nat, 8)).len() == 9 && le_value(
                (seq![t] + le_bytes(x as nat, 8)).subrange(1, 9),
            ) == x,
{
    lemma_pow256_16();
    lemma_le_bytes_len(x as nat, 8);
    lemma_le_value_of_bytes(x as nat, 8);
    assert forall|t: u8| #![trigger (seq![t] + le_bytes(x as nat, 8))]
        (seq![t] + le_bytes(x as nat, 8)).subrange(1, 9) =~= le_bytes(x as nat, 8) by {}
}

/// Decoding the encoding of an instruction gives the instruction back, unless it sets an
/// interest model whose bytes are all zero (those read as the default model).
pub proof fn lemma_lending_instruction_round_trip(ix: LendingInstruction)
    requires
        ix matches LendingInstruction::UpdateInterestModel { interest_model } ==> !all_zero(
            interest_model_bytes(interest_model),
        ),
    ensures
        lending_unpack_defined(lending_instruction_bytes(ix)),
        lending_unpack_ok(lending_instruction_bytes(ix)),
        forall|q: LendingInstruction|
            #[trigger] lending_instruction_decodes(lending_instruction_bytes(ix), q) <==> q == ix,
{
    let s = lending_instruction_bytes(ix);
    match ix {
        LendingInstruction::InitLendingMarket { owner } => {
            assert(s.subrange(1, 33) =~= owner.0@);
            assert forall|q: LendingInstruction| #[trigger]
                lending_instruction_decodes(s, q) implies q == ix by {
                let qk = q->owner;
                assert(qk.0 =~= owner.0);
            }
        },
        LendingInstruction::UpdateInterestModel { interest_model } => {
            assert(s.subrange(1, 12) =~= interest_model_bytes(interest_model));
            crate::lending::state::lemma_interest_model_round_trip(interest_model);
        },
        LendingInstruction::InitLendingPool { liquidity_amount } => {
            lemma_amount_round_trip(liquidity_amount);
        },
        LendingInstruction::DepositToLendingPool { liquidity_amount } => {
            lemma_amount_round_trip(liquidity_amount);
        },
        LendingInstruction::WithdrawFromLendingPool { share_amount } => {
            lemma_amount_round_trip(share_amount);
        },
        LendingInstruction::WithdrawFromLendingPool2 { liquidity_amount } => {
            lemma_amount_round_trip(liquidity_amount);
        },
        LendingInstruction::MintCredit { credit_amount } => {
            lemma_amount_round_trip(credit_amount);
        },
        LendingInstruction::BurnCredit { credit_amount } => {
            lemma_amount_round_trip(credit_amount);
        },
        LendingInstruction::BorrowFromLendingPool { tkn_amount } => {
            lemma_amount_round_trip(tkn_amount);
        },
        LendingInstruction::RepayToLendingPool { tkn_amount } => {
            lemma_amount_round_trip(tkn_amount);
        },
        LendingInstruction::AdminReduceReserve(amount) => {
            lemma_amount_round_trip(amount);
        },
        _ => {},
    }
}

/// What an instruction decodes from is its encoding, followed by bytes that are not read, unless
/// it carries all-zero interest model bytes.
pub proof fn lemma_lending_instruction_bytes_round_trip(s: Seq<u8>, ix: LendingInstruction)
    requires
        lending_unpack_ok(s),
        lending_instruction_decodes(s, ix),
        s[0] == 3 ==> s.len() >= 12 && !all_zero(s.subrange(1, 12)),
    ensures
        ({
            let b = lending_instruction_bytes(ix);
            b.len() <= s.len() && b == s.subrange(0, b.len() as int)
        }),
{
    lemma_pow256_16();
    if s[0] == 0 {
        assert(lending_instruction_bytes(ix) =~= s.subrange(0, 33));
    } else if s[0] == 3 {
        let m = s.subrange(1, 12);
        assert(interest_model_bytes(interest_model_from_bytes(m)) =~= m);
        assert(lending_instruction_bytes(ix) =~= s.subrange(0, 12));
    } else if is_amount_tag(s[0]) {
        lemma_le_bytes_of_value(s.subrange(1, 9));
        lemma_le_value_bound(s.subrange(1, 9));
        assert(lending_instruction_bytes(ix) =~= s.subrange(0, 9));
    } else {
        assert(lending_instruction_bytes(ix) =~= s.subrange(0, 1));
    }
}

} // verus!
