use vstd::prelude::*;

verus! {

use crate::address::Address;
use crate::error::{ProcessError, TokenSaleError};
use crate::processor::{
    SaleContext, InitEffects, ExecuteEffects, SetAuthorityAction, TransferAction, init_outcome,
    fund_outcome, execute_outcome, pause_outcome, resume_outcome, end_outcome,
};
use crate::state::{TokenSale, SaleStage, spec_stage};
use crate::spl::{is_spl_token_id, valid_token_account_bytes, token_account_amount};

/// The gates of a purchase that precede the allowance check: a signing
/// buyer, a readable sale token account, an active sale, the real token
/// ledger program, the pinned allowlist accounts, and a listed allowlist
/// account.
pub open spec fn execute_entry_gates(ctx: SaleContext, record: TokenSale) -> bool {
    &&& ctx.caller_is_signer
    &&& valid_token_account_bytes(ctx.sale_token_account_data@)
    &&& spec_stage(record) == SaleStage::Active
    &&& is_spl_token_id(ctx.token_program.bytes())
    &&& record.whitelist_map_pubkey == ctx.token_whitelist_map
    &&& record.whitelist_program_pubkey == ctx.token_whitelist_program
    &&& ctx.whitelist_map_contains_account
}

/// All gates of a purchase up to the final liquidity arithmetic: the entry
/// gates, a listed buyer with enough allowance, the time gate, the pinned
/// sale and proceeds accounts, remaining liquidity, and the purchase bounds.
pub open spec fn execute_amount_gates(ctx: SaleContext, record: TokenSale, usd_amount: u64) -> bool {
    &&& execute_entry_gates(ctx, record)
    &&& (ctx.user_allowance matches Some(allowance) && usd_amount <= allowance)
    &&& record.token_sale_time <= ctx.current_time
    &&& record.sale_token_account_pubkey == ctx.token_sale_solr_account
    &&& record.pool_token_account_pubkey == ctx.pool_usdt_account
    &&& token_account_amount(ctx.sale_token_account_data@) > 0
    &&& record.usd_min_amount <= usd_amount
    &&& usd_amount <= record.usd_max_amount
}

/// The gates of a funding: a signing funder, the real token ledger program,
/// a readable sale token account, and an active sale.
pub open spec fn fund_gates(ctx: SaleContext, record: TokenSale) -> bool {
    &&& ctx.caller_is_signer
    &&& is_spl_token_id(ctx.token_program.bytes())
    &&& valid_token_account_bytes(ctx.sale_token_account_data@)
    &&& spec_stage(record) == SaleStage::Active
}

/// The configuration written at initialisation never changes afterwards:
/// authority, the four pinned addresses, the amounts, the price, the bounds
/// and the start time.
pub open spec fn config_unchanged(a: TokenSale, b: TokenSale) -> bool {
    &&& a.init_pubkey == b.init_pubkey
    &&& a.sale_token_account_pubkey == b.sale_token_account_pubkey
    &&& a.pool_token_account_pubkey == b.pool_token_account_pubkey
    &&& a.whitelist_map_pubkey == b.whitelist_map_pubkey
    &&& a.whitelist_program_pubkey == b.whitelist_program_pubkey
    &&& a.token_sale_amount == b.token_sale_amount
    &&& a.usd_min_amount == b.usd_min_amount
    &&& a.usd_max_amount == b.usd_max_amount
    &&& a.token_sale_price == b.token_sale_price
    &&& a.token_sale_time == b.token_sale_time
}

/// Initialisation happens exactly once: on an already-initialised record it
/// fails — with the initialised-conflict error whenever the structural gates
/// pass — and, failing, writes nothing.
pub proof fn lemma_init_not_reenterable(
    ctx: SaleContext,
    record: TokenSale,
    token_sale_amount: u64,
    usd_min_amount: u64,
    usd_max_amount: u64,
    token_sale_price: u64,
    token_sale_time: u64,
    custody: Address,
)
    requires
        record.is_initialized,
    ensures
        init_outcome(
            ctx,
            record,
            token_sale_amount,
            usd_min_amount,
            usd_max_amount,
            token_sale_price,
            token_sale_time,
            custody,
        ) is Err,
        ctx.caller_is_signer && ctx.rent_exempt ==> init_outcome(
            ctx,
            record,
            token_sale_amount,
            usd_min_amount,
            usd_max_amount,
            token_sale_price,
            token_sale_time,
            custody,
        ) == Err::<InitEffects, ProcessError>(ProcessError::AccountAlreadyInitialized),
{
}

/// Initialisation succeeds exactly for a signing caller, a storage-exempt
/// record and an uninitialised sale; it then pins the presented accounts,
/// records the caller as authority, and hands the sale token account to the
/// custody authority.
pub proof fn lemma_init_establishes(
    ctx: SaleContext,
    record: TokenSale,
    token_sale_amount: u64,
    usd_min_amount: u64,
    usd_max_amount: u64,
    token_sale_price: u64,
    token_sale_time: u64,
    custody: Address,
)
    ensures
        init_outcome(
            ctx,
            record,
            token_sale_amount,
            usd_min_amount,
            usd_max_amount,
            token_sale_price,
            token_sale_time,
            custody,
        ) is Ok <==> (ctx.caller_is_signer && ctx.rent_exempt && !record.is_initialized),
        init_outcome(
            ctx,
            record,
            token_sale_amount,
            usd_min_amount,
            usd_max_amount,
            token_sale_price,
            token_sale_time,
            custody,
        ) matches Ok(e) ==> ({
            &&& e.new_record.is_initialized
            &&& e.new_record.init_pubkey == ctx.caller
            &&& e.new_record.sale_token_account_pubkey == ctx.token_sale_solr_account
            &&& e.new_record.pool_token_account_pubkey == ctx.pool_usdt_account
            &&& e.new_record.whitelist_map_pubkey == ctx.token_whitelist_map
            &&& e.new_record.whitelist_program_pubkey == ctx.token_whitelist_program
            &&& e.new_record.token_sale_amount == token_sale_amount
            &&& e.new_record.usd_min_amount == usd_min_amount
            &&& e.new_record.usd_max_amount == usd_max_amount
            &&& e.new_record.token_sale_price == token_sale_price
            &&& e.new_record.token_sale_time == token_sale_time
            &&& e.transfer_ownership == (SetAuthorityAction {
                account: ctx.token_sale_solr_account,
                new_authority: custody,
                current_authority: ctx.caller,
            })
        }),
{
}

/// A funding succeeds exactly when the gates pass, the offered amount equals
/// the declared sale amount, and the sale token account does not already
/// hold that amount; it then moves exactly the declared amount from the pool
/// into the sale token account, authorised by the funder.
pub proof fn lemma_fund_reconciliation(ctx: SaleContext, record: TokenSale, token_sale_amount: u64)
    ensures
        fund_outcome(ctx, record, token_sale_amount) is Ok <==> (fund_gates(ctx, record)
            && token_sale_amount == record.token_sale_amount && token_account_amount(
            ctx.sale_token_account_data@,
        ) != record.token_sale_amount),
        fund_outcome(ctx, record, token_sale_amount) matches Ok(t) ==> ({
            &&& t.from == ctx.pool_solr_account
            &&& t.to == ctx.token_sale_solr_account
            &&& t.authority == ctx.caller
            &&& t.amount == record.token_sale_amount
        }),
{
}

/// A funding whose amount differs from the declared sale amount never
/// succeeds, and fails with the reconciliation error whenever the gates
/// pass; funding a sale token account that already holds the declared
/// amount never succeeds either, and fails with the double-funding error
/// whenever the gates pass.
pub proof fn lemma_fund_errors(ctx: SaleContext, record: TokenSale, token_sale_amount: u64)
    ensures
        token_sale_amount != record.token_sale_amount ==> fund_outcome(
            ctx,
            record,
            token_sale_amount,
        ) is Err,
        token_account_amount(ctx.sale_token_account_data@) == record.token_sale_amount
            ==> fund_outcome(ctx, record, token_sale_amount) is Err,
        fund_gates(ctx, record) && token_sale_amount != record.token_sale_amount ==> fund_outcome(
            ctx,
            record,
            token_sale_amount,
        ) == Err::<TransferAction, ProcessError>(
            ProcessError::Sale(TokenSaleError::TokenSaleAmountExceeds),
        ),
        fund_gates(ctx, record) && token_sale_amount == record.token_sale_amount
            && token_account_amount(ctx.sale_token_account_data@) == record.token_sale_amount
            ==> fund_outcome(ctx, record, token_sale_amount) == Err::<
            TransferAction,
            ProcessError,
        >(ProcessError::Sale(TokenSaleError::TokenSaleFunded)),
{
}

/// A purchase above the buyer's remaining allowance never succeeds, and
/// fails with the allocation error whenever the entry gates pass; failing,
/// it performs no transfer at all.
pub proof fn lemma_execute_exceeds_allocation(
    ctx: SaleContext,
    record: TokenSale,
    usd_amount: u64,
    custody: Address,
)
    requires
        ctx.user_allowance matches Some(allowance) && usd_amount > allowance,
    ensures
        execute_outcome(ctx, record, usd_amount, custody) is Err,
        execute_entry_gates(ctx, record) ==> execute_outcome(ctx, record, usd_amount, custody)
            == Err::<ExecuteEffects, ProcessError>(
            ProcessError::Sale(TokenSaleError::ExceedsAllocation),
        ),
{
}

/// A purchase before the start time never succeeds, and fails with the
/// not-started error whenever everything up to the allowance check passes —
/// however satisfiable every other condition is.
pub proof fn lemma_execute_before_start(
    ctx: SaleContext,
    record: TokenSale,
    usd_amount: u64,
    custody: Address,
)
    requires
        ctx.current_time < record.token_sale_time,
    ensures
        execute_outcome(ctx, record, usd_amount, custody) is Err,
        execute_entry_gates(ctx, record) && (ctx.user_allowance matches Some(allowance)
            && usd_amount <= allowance) ==> execute_outcome(ctx, record, usd_amount, custody)
            == Err::<ExecuteEffects, ProcessError>(
            ProcessError::Sale(TokenSaleError::TokenSaleNotStarted),
        ),
{
}

/// A purchase whose payment times price overflows 64 bits never succeeds —
/// it is rejected before any transfer — and fails with the liquidity error
/// whenever every other gate passes.
pub proof fn lemma_execute_overflow_guard(
    ctx: SaleContext,
    record: TokenSale,
    usd_amount: u64,
    custody: Address,
)
    requires
        (usd_amount as int) * (record.token_sale_price as int) > u64::MAX as int,
    ensures
        execute_outcome(ctx, record, usd_amount, custody) is Err,
        execute_amount_gates(ctx, record, usd_amount) ==> execute_outcome(
            ctx,
            record,
            usd_amount,
            custody,
        ) == Err::<ExecuteEffects, ProcessError>(ProcessError::Sale(TokenSaleError::AmountExceeds)),
{
}

/// A purchase succeeds exactly when every gate passes and the token output
/// fits both 64 bits and the remaining liquidity; it then moves exactly the
/// payment from the buyer's payment account to the proceeds account, and
/// exactly payment times price from the sale token account to the buyer,
/// authorised by the custody authority, and resets the buyer's allowance.
pub proof fn lemma_execute_success(
    ctx: SaleContext,
    record: TokenSale,
    usd_amount: u64,
    custody: Address,
)
    ensures
        execute_outcome(ctx, record, usd_amount, custody) is Ok <==> (execute_amount_gates(
            ctx,
            record,
            usd_amount,
        ) && (usd_amount as int) * (record.token_sale_price as int) <= u64::MAX as int && (
        usd_amount as int) * (record.token_sale_price as int) <= token_account_amount(
            ctx.sale_token_account_data@,
        ) as int),
        execute_outcome(ctx, record, usd_amount, custody) matches Ok(e) ==> ({
            &&& e.payment.from == ctx.user_usdt_account
            &&& e.payment.to == ctx.pool_usdt_account
            &&& e.payment.to == record.pool_token_account_pubkey
            &&& e.payment.authority == ctx.caller
            &&& e.payment.amount == usd_amount
            &&& e.delivery.from == ctx.token_sale_solr_account
            &&& e.delivery.from == record.sale_token_account_pubkey
            &&& e.delivery.to == ctx.user_solr_account
            &&& e.delivery.authority == custody
            &&& e.delivery.amount == (usd_amount as int) * (record.token_sale_price as int)
            &&& e.reset_allowance_of == ctx.caller
        }),
{
}

/// Once a buyer's allowance is spent — reset to zero or dropped from the
/// allowlist — no further purchase of a positive amount ever succeeds.
pub proof fn lemma_no_repeat_purchase(
    ctx: SaleContext,
    record: TokenSale,
    usd_amount: u64,
    custody: Address,
)
    requires
        ctx.user_allowance is None || ctx.user_allowance == Some(0u64),
        usd_amount > 0,
    ensures
        execute_outcome(ctx, record, usd_amount, custody) is Err,
{
}

/// An ended sale is terminal: no purchase, pause, resume, further end or
/// funding ever succeeds on it again.
pub proof fn lemma_ended_is_terminal(
    ctx: SaleContext,
    record: TokenSale,
    usd_amount: u64,
    token_sale_amount: u64,
    custody: Address,
)
    requires
        record.token_sale_ended,
    ensures
        execute_outcome(ctx, record, usd_amount, custody) is Err,
        pause_outcome(ctx, record) is Err,
        resume_outcome(ctx, record) is Err,
        end_outcome(ctx, record) is Err,
        fund_outcome(ctx, record, token_sale_amount) is Err,
{
}

/// The flag operations preserve the configuration and move the flags one
/// way: pausing and resuming only steer the paused flag of an unended sale,
/// and ending sets the terminal flag for good.
pub proof fn lemma_flag_ops_shape(ctx: SaleContext, record: TokenSale)
    ensures
        pause_outcome(ctx, record) matches Ok(nr) ==> ({
            &&& config_unchanged(nr, record)
            &&& nr.is_initialized
            &&& nr.token_sale_paused
            &&& nr.token_sale_ended == record.token_sale_ended
            &&& spec_stage(nr) == SaleStage::Paused
        }),
        resume_outcome(ctx, record) matches Ok(nr) ==> ({
            &&& config_unchanged(nr, record)
            &&& nr.is_initialized
            &&& !nr.token_sale_paused
            &&& nr.token_sale_ended == record.token_sale_ended
            &&& spec_stage(nr) == SaleStage::Active
        }),
        end_outcome(ctx, record) matches Ok(nr) ==> ({
            &&& config_unchanged(nr, record)
            &&& nr.is_initialized
            &&& nr.token_sale_ended
            &&& spec_stage(nr) == SaleStage::Ended
        }),
        pause_outcome(ctx, record) is Ok || resume_outcome(ctx, record) is Ok || end_outcome(
            ctx,
            record,
        ) is Ok ==> (ctx.caller_is_signer && ctx.caller == record.init_pubkey
            && record.is_initialized && !record.token_sale_ended),
{
}

} // verus!
