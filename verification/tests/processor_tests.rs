use solana_program::program_option::COption;
use solana_program::program_pack::Pack;
use solana_program::pubkey::Pubkey;
use solr_token_sale::address::Address;
use solr_token_sale::error::{ProcessError, TokenSaleError};
use solr_token_sale::instruction::TokenSaleInstruction;
use solr_token_sale::processor::{Processor, SaleContext, SaleEffects};
use solr_token_sale::state::TokenSale;

fn addr(n: u64) -> Address {
    Address { w0: n, w1: 0, w2: 0, w3: 0 }
}

fn spl_program_address() -> Address {
    Address::from_bytes(&spl_token::id().to_bytes())
}

/// A sale token account record as the token ledger program itself packs it.
fn spl_account_bytes(amount: u64) -> Vec<u8> {
    let account = spl_token::state::Account {
        mint: Pubkey::new_from_array([7u8; 32]),
        owner: Pubkey::new_from_array([8u8; 32]),
        amount,
        delegate: COption::None,
        state: spl_token::state::AccountState::Initialized,
        is_native: COption::None,
        delegated_amount: 0,
        close_authority: COption::None,
    };
    let mut data = vec![0u8; 165];
    spl_token::state::Account::pack(account, &mut data).unwrap();
    data
}

fn active_record() -> TokenSale {
    TokenSale {
        is_initialized: true,
        init_pubkey: addr(1),
        sale_token_account_pubkey: addr(2),
        pool_token_account_pubkey: addr(3),
        whitelist_map_pubkey: addr(4),
        whitelist_program_pubkey: addr(5),
        token_sale_amount: 1000,
        usd_min_amount: 10,
        usd_max_amount: 100,
        token_sale_price: 2,
        token_sale_time: 1000,
        token_sale_paused: false,
        token_sale_ended: false,
    }
}

fn buyer_ctx(record: &TokenSale, balance: u64, allowance: Option<u64>, now: u64) -> SaleContext {
    SaleContext {
        caller: addr(10),
        caller_is_signer: true,
        rent_exempt: true,
        token_program: spl_program_address(),
        pool_usdt_account: record.pool_token_account_pubkey,
        token_sale_solr_account: record.sale_token_account_pubkey,
        sale_token_account_data: spl_account_bytes(balance),
        pool_solr_account: addr(20),
        user_solr_account: addr(11),
        user_usdt_account: addr(12),
        token_whitelist_map: record.whitelist_map_pubkey,
        token_whitelist_account: addr(6),
        token_whitelist_program: record.whitelist_program_pubkey,
        whitelist_map_contains_account: true,
        user_allowance: allowance,
        current_time: now,
    }
}

fn sale_err(e: TokenSaleError) -> ProcessError {
    ProcessError::Sale(e)
}

#[test]
fn init_populates_record_and_hands_over_custody() {
    let record = TokenSale::unpack_from_slice(&[0u8; 203]).unwrap();
    let ctx = buyer_ctx(&active_record(), 0, None, 0);
    let custody = addr(99);
    let effects =
        Processor::process_init_sale(&ctx, &record, 1000, 10, 100, 2, 1000, &custody).unwrap();
    assert!(effects.new_record.is_initialized);
    assert_eq!(effects.new_record.init_pubkey, ctx.caller);
    assert_eq!(effects.new_record.sale_token_account_pubkey, ctx.token_sale_solr_account);
    assert_eq!(effects.new_record.pool_token_account_pubkey, ctx.pool_usdt_account);
    assert_eq!(effects.new_record.whitelist_map_pubkey, ctx.token_whitelist_map);
    assert_eq!(effects.new_record.whitelist_program_pubkey, ctx.token_whitelist_program);
    assert_eq!(effects.new_record.token_sale_amount, 1000);
    assert_eq!(effects.new_record.token_sale_price, 2);
    assert_eq!(effects.transfer_ownership.account, ctx.token_sale_solr_account);
    assert_eq!(effects.transfer_ownership.new_authority, custody);
    assert_eq!(effects.transfer_ownership.current_authority, ctx.caller);
}

#[test]
fn init_is_not_reenterable() {
    let record = active_record();
    let ctx = buyer_ctx(&record, 0, None, 0);
    let r = Processor::process_init_sale(&ctx, &record, 1, 2, 3, 4, 5, &addr(99));
    assert_eq!(r, Err(ProcessError::AccountAlreadyInitialized));
}

#[test]
fn init_requires_signer_and_rent_exemption() {
    let record = TokenSale::unpack_from_slice(&[0u8; 203]).unwrap();
    let mut ctx = buyer_ctx(&active_record(), 0, None, 0);
    ctx.caller_is_signer = false;
    let r = Processor::process_init_sale(&ctx, &record, 1, 2, 3, 4, 5, &addr(99));
    assert_eq!(r, Err(ProcessError::MissingRequiredSignature));
    ctx.caller_is_signer = true;
    ctx.rent_exempt = false;
    let r = Processor::process_init_sale(&ctx, &record, 1, 2, 3, 4, 5, &addr(99));
    assert_eq!(r, Err(sale_err(TokenSaleError::NotRentExempt)));
}

#[test]
fn fund_moves_exactly_the_declared_amount() {
    let record = active_record();
    let ctx = buyer_ctx(&record, 0, None, 0);
    let transfer = Processor::process_fund_sale(&ctx, &record, 1000).unwrap();
    assert_eq!(transfer.amount, 1000);
    assert_eq!(transfer.from, ctx.pool_solr_account);
    assert_eq!(transfer.to, ctx.token_sale_solr_account);
    assert_eq!(transfer.authority, ctx.caller);
}

#[test]
fn fund_rejects_amount_mismatch() {
    let record = active_record();
    let ctx = buyer_ctx(&record, 0, None, 0);
    let r = Processor::process_fund_sale(&ctx, &record, 999);
    assert_eq!(r, Err(sale_err(TokenSaleError::TokenSaleAmountExceeds)));
}

#[test]
fn fund_rejects_double_funding() {
    let record = active_record();
    let ctx = buyer_ctx(&record, 1000, None, 0);
    let r = Processor::process_fund_sale(&ctx, &record, 1000);
    assert_eq!(r, Err(sale_err(TokenSaleError::TokenSaleFunded)));
}

#[test]
fn fund_rejects_uninitialized_sale() {
    let record = TokenSale::unpack_from_slice(&[0u8; 203]).unwrap();
    let ctx = buyer_ctx(&active_record(), 0, None, 0);
    let r = Processor::process_fund_sale(&ctx, &record, 0);
    assert_eq!(r, Err(sale_err(TokenSaleError::TokenSaleNotInit)));
}

#[test]
fn fund_rejects_foreign_token_program() {
    let record = active_record();
    let mut ctx = buyer_ctx(&record, 0, None, 0);
    ctx.token_program = addr(777);
    let r = Processor::process_fund_sale(&ctx, &record, 1000);
    assert_eq!(r, Err(ProcessError::InvalidAccountData));
}

#[test]
fn fund_rejects_unreadable_sale_token_account() {
    let record = active_record();
    let mut ctx = buyer_ctx(&record, 0, None, 0);
    ctx.sale_token_account_data[108] = 0;
    assert_eq!(
        Processor::process_fund_sale(&ctx, &record, 1000),
        Err(ProcessError::InvalidAccountData)
    );
    ctx.sale_token_account_data[108] = 3;
    assert_eq!(
        Processor::process_fund_sale(&ctx, &record, 1000),
        Err(ProcessError::InvalidAccountData)
    );
}

#[test]
fn execute_before_start_time_fails_even_if_otherwise_satisfiable() {
    let record = active_record();
    let ctx = buyer_ctx(&record, 1000, Some(50), 500);
    let r = Processor::process_execute_sale(&ctx, &record, 30, &addr(99));
    assert_eq!(r, Err(sale_err(TokenSaleError::TokenSaleNotStarted)));
}

#[test]
fn execute_beyond_allowance_fails_with_allocation_error() {
    let record = active_record();
    let ctx = buyer_ctx(&record, 1000, Some(50), 2000);
    let r = Processor::process_execute_sale(&ctx, &record, 60, &addr(99));
    assert_eq!(r, Err(sale_err(TokenSaleError::ExceedsAllocation)));
}

#[test]
fn execute_swaps_payment_for_tokens_at_the_fixed_price() {
    let record = active_record();
    let ctx = buyer_ctx(&record, 1000, Some(50), 2000);
    let custody = addr(99);
    let effects = Processor::process_execute_sale(&ctx, &record, 30, &custody).unwrap();
    assert_eq!(effects.payment.from, ctx.user_usdt_account);
    assert_eq!(effects.payment.to, ctx.pool_usdt_account);
    assert_eq!(effects.payment.authority, ctx.caller);
    assert_eq!(effects.payment.amount, 30);
    assert_eq!(effects.delivery.from, ctx.token_sale_solr_account);
    assert_eq!(effects.delivery.to, ctx.user_solr_account);
    assert_eq!(effects.delivery.authority, custody);
    assert_eq!(effects.delivery.amount, 60);
    assert_eq!(effects.reset_allowance_of, ctx.caller);
}

#[test]
fn execute_after_allowance_reset_fails_again() {
    let record = active_record();
    let spent = buyer_ctx(&record, 940, Some(0), 2000);
    let r = Processor::process_execute_sale(&spent, &record, 30, &addr(99));
    assert_eq!(r, Err(sale_err(TokenSaleError::ExceedsAllocation)));
    let dropped = buyer_ctx(&record, 940, None, 2000);
    let r = Processor::process_execute_sale(&dropped, &record, 30, &addr(99));
    assert_eq!(r, Err(sale_err(TokenSaleError::UserNotWhitelisted)));
}

#[test]
fn execute_overflowing_token_output_is_rejected() {
    let mut record = active_record();
    record.usd_max_amount = u64::MAX;
    record.token_sale_price = 1 << 32;
    let ctx = buyer_ctx(&record, 1000, Some(u64::MAX), 2000);
    let r = Processor::process_execute_sale(&ctx, &record, 1 << 32, &addr(99));
    assert_eq!(r, Err(sale_err(TokenSaleError::AmountExceeds)));
}

#[test]
fn execute_respects_purchase_bounds_and_liquidity() {
    let record = active_record();
    let ctx = buyer_ctx(&record, 1000, Some(u64::MAX), 2000);
    assert_eq!(
        Processor::process_execute_sale(&ctx, &record, 9, &addr(99)),
        Err(sale_err(TokenSaleError::AmountMinimum))
    );
    assert_eq!(
        Processor::process_execute_sale(&ctx, &record, 101, &addr(99)),
        Err(sale_err(TokenSaleError::AmountMaximum))
    );
    let shallow = buyer_ctx(&record, 100, Some(u64::MAX), 2000);
    assert_eq!(
        Processor::process_execute_sale(&shallow, &record, 100, &addr(99)),
        Err(sale_err(TokenSaleError::AmountExceeds))
    );
    let drained = buyer_ctx(&record, 0, Some(u64::MAX), 2000);
    assert_eq!(
        Processor::process_execute_sale(&drained, &record, 30, &addr(99)),
        Err(sale_err(TokenSaleError::TokenSaleEnded))
    );
}

#[test]
fn execute_rejects_substituted_accounts() {
    let record = active_record();
    let mut ctx = buyer_ctx(&record, 1000, Some(50), 2000);
    ctx.token_whitelist_map = addr(444);
    assert_eq!(
        Processor::process_execute_sale(&ctx, &record, 30, &addr(99)),
        Err(ProcessError::InvalidAccountData)
    );
    let mut ctx = buyer_ctx(&record, 1000, Some(50), 2000);
    ctx.token_whitelist_program = addr(445);
    assert_eq!(
        Processor::process_execute_sale(&ctx, &record, 30, &addr(99)),
        Err(ProcessError::InvalidAccountData)
    );
    let mut ctx = buyer_ctx(&record, 1000, Some(50), 2000);
    ctx.whitelist_map_contains_account = false;
    assert_eq!(
        Processor::process_execute_sale(&ctx, &record, 30, &addr(99)),
        Err(ProcessError::InvalidAccountData)
    );
    let mut ctx = buyer_ctx(&record, 1000, Some(50), 2000);
    ctx.token_sale_solr_account = addr(446);
    assert_eq!(
        Processor::process_execute_sale(&ctx, &record, 30, &addr(99)),
        Err(ProcessError::InvalidAccountData)
    );
    let mut ctx = buyer_ctx(&record, 1000, Some(50), 2000);
    ctx.pool_usdt_account = addr(447);
    assert_eq!(
        Processor::process_execute_sale(&ctx, &record, 30, &addr(99)),
        Err(ProcessError::InvalidAccountData)
    );
}

#[test]
fn paused_sale_blocks_purchases_until_resumed() {
    let mut record = active_record();
    record.token_sale_paused = true;
    let ctx = buyer_ctx(&record, 1000, Some(50), 2000);
    assert_eq!(
        Processor::process_execute_sale(&ctx, &record, 30, &addr(99)),
        Err(sale_err(TokenSaleError::TokenSalePaused))
    );
    let mut authority_ctx = buyer_ctx(&record, 1000, None, 2000);
    authority_ctx.caller = record.init_pubkey;
    let resumed = Processor::process_resume_sale(&authority_ctx, &record).unwrap();
    assert!(!resumed.token_sale_paused);
    let ctx = buyer_ctx(&resumed, 1000, Some(50), 2000);
    assert!(Processor::process_execute_sale(&ctx, &resumed, 30, &addr(99)).is_ok());
}

#[test]
fn pause_and_resume_require_the_recorded_authority() {
    let record = active_record();
    let ctx = buyer_ctx(&record, 0, None, 0);
    assert_eq!(
        Processor::process_pause_sale(&ctx, &record),
        Err(ProcessError::MissingRequiredSignature)
    );
    let mut authority_ctx = buyer_ctx(&record, 0, None, 0);
    authority_ctx.caller = record.init_pubkey;
    let paused = Processor::process_pause_sale(&authority_ctx, &record).unwrap();
    assert!(paused.token_sale_paused);
    assert_eq!(paused.init_pubkey, record.init_pubkey);
    assert_eq!(paused.token_sale_amount, record.token_sale_amount);
}

#[test]
fn ended_sale_is_terminal() {
    let record = active_record();
    let mut authority_ctx = buyer_ctx(&record, 1000, Some(50), 2000);
    authority_ctx.caller = record.init_pubkey;
    let ended = Processor::process_end_sale(&authority_ctx, &record).unwrap();
    assert!(ended.token_sale_ended);
    assert_eq!(
        Processor::process_execute_sale(&authority_ctx, &ended, 30, &addr(99)),
        Err(sale_err(TokenSaleError::TokenSaleComplete))
    );
    assert_eq!(
        Processor::process_pause_sale(&authority_ctx, &ended),
        Err(sale_err(TokenSaleError::TokenSaleComplete))
    );
    assert_eq!(
        Processor::process_resume_sale(&authority_ctx, &ended),
        Err(sale_err(TokenSaleError::TokenSaleComplete))
    );
    assert_eq!(
        Processor::process_end_sale(&authority_ctx, &ended),
        Err(sale_err(TokenSaleError::TokenSaleComplete))
    );
}

#[test]
fn process_decodes_dispatches_and_derives_custody() {
    let program_id_bytes = [9u8; 32];
    let program_id = Address::from_bytes(&program_id_bytes);
    let record = TokenSale::unpack_from_slice(&[0u8; 203]).unwrap();
    let ctx = buyer_ctx(&active_record(), 0, None, 0);
    let data = TokenSaleInstruction::InitTokenSale {
        token_sale_amount: 1000,
        usd_min_amount: 10,
        usd_max_amount: 100,
        token_sale_price: 2,
        token_sale_time: 1000,
    }
    .pack();
    let effects = Processor::process(&program_id, &data, &record, &ctx).unwrap();
    let (expected_custody, _bump) = Pubkey::find_program_address(
        &[b"solrsale"],
        &Pubkey::new_from_array(program_id_bytes),
    );
    match effects {
        SaleEffects::Initialized(e) => {
            assert_eq!(
                e.transfer_ownership.new_authority,
                Address::from_bytes(&expected_custody.to_bytes())
            );
            assert!(e.new_record.is_initialized);
        }
        _ => panic!("expected initialisation effects"),
    }
}

#[test]
fn process_rejects_undecodable_input() {
    let record = active_record();
    let ctx = buyer_ctx(&record, 0, None, 0);
    assert_eq!(
        Processor::process(&addr(9), &[], &record, &ctx),
        Err(sale_err(TokenSaleError::InvalidInstruction))
    );
    assert_eq!(
        Processor::process(&addr(9), &[77], &record, &ctx),
        Err(sale_err(TokenSaleError::InvalidInstruction))
    );
}

#[test]
fn process_routes_fund_and_flag_operations() {
    let record = active_record();
    let ctx = buyer_ctx(&record, 0, None, 0);
    let data = TokenSaleInstruction::FundTokenSale { token_sale_amount: 1000 }.pack();
    match Processor::process(&addr(9), &data, &record, &ctx).unwrap() {
        SaleEffects::Funded(t) => assert_eq!(t.amount, 1000),
        _ => panic!("expected funding effects"),
    }
    let mut authority_ctx = buyer_ctx(&record, 0, None, 0);
    authority_ctx.caller = record.init_pubkey;
    let data = TokenSaleInstruction::EndTokenSale {}.pack();
    match Processor::process(&addr(9), &data, &record, &authority_ctx).unwrap() {
        SaleEffects::RecordUpdated(nr) => assert!(nr.token_sale_ended),
        _ => panic!("expected a record update"),
    }
}
