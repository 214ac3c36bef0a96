use vstd::prelude::*;

verus! {

use crate::address::{Address, spec_address_from_bytes};
use crate::error::{ProcessError, TokenSaleError};
use crate::instruction::{TokenSaleInstruction, parse_instruction};
use crate::state::{TokenSale, SaleStage, spec_stage};
use crate::spl::{
    is_spl_token_id, sale_custody_address, sale_custody_exists, valid_token_account_bytes,
    token_account_amount, is_token_program, derive_sale_authority, unpack_token_account_amount,
};

/// What the settlement processor observes of one invocation beyond the sale
/// record itself: the presented account identities, the caller's signature,
/// and the oracle readings.  Each operation reads the fields it needs.
#[derive(Clone, Debug)]
pub struct SaleContext {
    /// The invocation's authorising account: the initialiser, funder, buyer
    /// or authority, depending on the operation.
    pub caller: Address,
    /// Whether `caller` signed the invocation.
    pub caller_is_signer: bool,
    /// Storage-cost exemption oracle reading for the sale record account.
    pub rent_exempt: bool,
    /// The presented token ledger program.
    pub token_program: Address,
    /// The presented proceeds account, destination of buyer payments.
    pub pool_usdt_account: Address,
    /// The presented sale token account.
    pub token_sale_solr_account: Address,
    /// Raw contents of the presented sale token account.
    pub sale_token_account_data: Vec<u8>,
    /// The funding source account (funding only).
    pub pool_solr_account: Address,
    /// The buyer's receiving account (purchase only).
    pub user_solr_account: Address,
    /// The buyer's payment account (purchase only).
    pub user_usdt_account: Address,
    /// The presented allowlist registry account.
    pub token_whitelist_map: Address,
    /// The presented allowlist account.
    pub token_whitelist_account: Address,
    /// The presented allowlist program.
    pub token_whitelist_program: Address,
    /// Whether the registry lists the presented allowlist account.
    pub whitelist_map_contains_account: bool,
    /// The buyer's remaining allowance, where the presented allowlist
    /// account lists the buyer at all.
    pub user_allowance: Option<u64>,
    /// Clock oracle reading, a Unix timestamp.
    pub current_time: u64,
}

/// One balance transfer for the external ledger to perform.
#[derive(Clone, Copy, Debug, PartialEq, Eq, Structural)]
pub struct TransferAction {
    /// The account debited.
    pub from: Address,
    /// The account credited.
    pub to: Address,
    /// The identity that authorises the movement.
    pub authority: Address,
    /// The amount moved.
    pub amount: u64,
}

/// One change of account ownership for the external ledger to perform.
#[derive(Clone, Copy, Debug, PartialEq, Eq, Structural)]
pub struct SetAuthorityAction {
    /// The account whose ownership changes.
    pub account: Address,
    /// The owner it changes to.
    pub new_authority: Address,
    /// The owner that authorises the change.
    pub current_authority: Address,
}

/// What a successful initialisation commits: the populated record and the
/// handover of the sale token account to the custody authority.
#[derive(Clone, Copy, Debug, PartialEq, Eq, Structural)]
pub struct InitEffects {
    /// The record to persist.
    pub new_record: TokenSale,
    /// The ownership handover to perform.
    pub transfer_ownership: SetAuthorityAction,
}

/// What a successful purchase commits: the two legs of the atomic swap and
/// the allowance reset.  No leg happens unless all three are committed.
#[derive(Clone, Copy, Debug, PartialEq, Eq, Structural)]
pub struct ExecuteEffects {
    /// Leg one: the buyer's payment into the proceeds account.
    pub payment: TransferAction,
    /// Leg two: the purchased tokens to the buyer, authorised by the custody
    /// authority.
    pub delivery: TransferAction,
    /// The participant whose allowance the registry must reset to zero.
    pub reset_allowance_of: Address,
}

/// Everything one successful operation commits.
#[derive(Clone, Copy, Debug, PartialEq, Eq, Structural)]
pub enum SaleEffects {
    /// An initialisation: persist the record, hand over the sale account.
    Initialized(InitEffects),
    /// A funding: one transfer into the sale token account.
    Funded(TransferAction),
    /// A purchase: the atomic swap and the allowance reset.
    Executed(ExecuteEffects),
    /// A pause, resume or end: persist the updated record.
    RecordUpdated(TokenSale),
}

/// The custody authority an honest derivation yields for a program identity.
pub open spec fn custody_authority(program_id: Address) -> Address {
    spec_address_from_bytes(sale_custody_address(program_id.bytes()))
}

/// The outcome of initialising a sale: every precondition in order, then the
/// populated record and the handover of the sale token account to `custody`.
pub open spec fn init_outcome(
    ctx: SaleContext,
    record: TokenSale,
    token_sale_amount: u64,
    usd_min_amount: u64,
    usd_max_amount: u64,
    token_sale_price: u64,
    token_sale_time: u64,
    custody: Address,
) -> Result<InitEffects, ProcessError> {
    if !ctx.caller_is_signer {
        Err(ProcessError::MissingRequiredSignature)
    } else if !ctx.rent_exempt {
        Err(ProcessError::Sale(TokenSaleError::NotRentExempt))
    } else if record.is_initialized {
        Err(ProcessError::AccountAlreadyInitialized)
    } else {
        Ok(
            InitEffects {
                new_record: TokenSale {
                    is_initialized: true,
                    init_pubkey: ctx.caller,
                    sale_token_account_pubkey: ctx.token_sale_solr_account,
                    pool_token_account_pubkey: ctx.pool_usdt_account,
                    whitelist_map_pubkey: ctx.token_whitelist_map,
                    whitelist_program_pubkey: ctx.token_whitelist_program,
                    token_sale_amount,
                    usd_min_amount,
                    usd_max_amount,
                    token_sale_price,
                    token_sale_time,
                    token_sale_paused: record.token_sale_paused,
                    token_sale_ended: record.token_sale_ended,
                },
                transfer_ownership: SetAuthorityAction {
                    account: ctx.token_sale_solr_account,
                    new_authority: custody,
                    current_authority: ctx.caller,
                },
            },
        )
    }
}

/// The outcome of funding a sale: every precondition in order, then the one
/// transfer of the declared amount from the pool into the sale token account.
pub open spec fn fund_outcome(ctx: SaleContext, record: TokenSale, token_sale_amount: u64) -> Result<
    TransferAction,
    ProcessError,
> {
    if !ctx.caller_is_signer {
        Err(ProcessError::MissingRequiredSignature)
    } else if !is_spl_token_id(ctx.token_program.bytes()) {
        Err(ProcessError::InvalidAccountData)
    } else if !valid_token_account_bytes(ctx.sale_token_account_data@) {
        Err(ProcessError::InvalidAccountData)
    } else if !record.is_initialized {
        Err(ProcessError::Sale(TokenSaleError::TokenSaleNotInit))
    } else if record.token_sale_ended {
        Err(ProcessError::Sale(TokenSaleError::TokenSaleComplete))
    } else if record.token_sale_paused {
        Err(ProcessError::Sale(TokenSaleError::TokenSalePaused))
    } else if token_sale_amount != record.token_sale_amount {
        Err(ProcessError::Sale(TokenSaleError::TokenSaleAmountExceeds))
    } else if token_account_amount(ctx.sale_token_account_data@) == record.token_sale_amount {
        Err(ProcessError::Sale(TokenSaleError::TokenSaleFunded))
    } else {
        Ok(
            TransferAction {
                from: ctx.pool_solr_account,
                to: ctx.token_sale_solr_account,
                authority: ctx.caller,
                amount: token_sale_amount,
            },
        )
    }
}

/// The outcome of a purchase: every security gate in order, then the atomic
/// swap of `usd_amount` payment units for `usd_amount * price` tokens,
/// delivered under the custody authority, and the buyer's allowance reset.
pub open spec fn execute_outcome(
    ctx: SaleContext,
    record: TokenSale,
    usd_amount: u64,
    custody: Address,
) -> Result<ExecuteEffects, ProcessError> {
    if !ctx.caller_is_signer {
        Err(ProcessError::MissingRequiredSignature)
    } else if spec_stage(record) == SaleStage::Uninitialized {
        Err(ProcessError::Sale(TokenSaleError::TokenSaleNotInit))
    } else if spec_stage(record) == SaleStage::Ended {
        Err(ProcessError::Sale(TokenSaleError::TokenSaleComplete))
    } else if spec_stage(record) == SaleStage::Paused {
        Err(ProcessError::Sale(TokenSaleError::TokenSalePaused))
    } else if !valid_token_account_bytes(ctx.sale_token_account_data@) {
        Err(ProcessError::InvalidAccountData)
    } else if !is_spl_token_id(ctx.token_program.bytes()) {
        Err(ProcessError::InvalidAccountData)
    } else if record.whitelist_map_pubkey != ctx.token_whitelist_map {
        Err(ProcessError::InvalidAccountData)
    } else if record.whitelist_program_pubkey != ctx.token_whitelist_program {
        Err(ProcessError::InvalidAccountData)
    } else if !ctx.whitelist_map_contains_account {
        Err(ProcessError::InvalidAccountData)
    } else {
        match ctx.user_allowance {
            None => Err(ProcessError::Sale(TokenSaleError::UserNotWhitelisted)),
            Some(allowance) => {
                let balance = token_account_amount(ctx.sale_token_account_data@);
                if usd_amount > allowance {
                    Err(ProcessError::Sale(TokenSaleError::ExceedsAllocation))
                } else if ctx.current_time < record.token_sale_time {
                    Err(ProcessError::Sale(TokenSaleError::TokenSaleNotStarted))
                } else if record.sale_token_account_pubkey != ctx.token_sale_solr_account {
                    Err(ProcessError::InvalidAccountData)
                } else if record.pool_token_account_pubkey != ctx.pool_usdt_account {
                    Err(ProcessError::InvalidAccountData)
                } else if balance == 0 {
                    Err(ProcessError::Sale(TokenSaleError::TokenSaleEnded))
                } else if usd_amount < record.usd_min_amount {
                    Err(ProcessError::Sale(TokenSaleError::AmountMinimum))
                } else if usd_amount > record.usd_max_amount {
                    Err(ProcessError::Sale(TokenSaleError::AmountMaximum))
                } else if usd_amount * record.token_sale_price > u64::MAX {
                    Err(ProcessError::Sale(TokenSaleError::AmountExceeds))
                } else if usd_amount * record.token_sale_price > balance {
                    Err(ProcessError::Sale(TokenSaleError::AmountExceeds))
                } else {
                    Ok(
                        ExecuteEffects {
                            payment: TransferAction {
                                from: ctx.user_usdt_account,
                                to: ctx.pool_usdt_account,
                                authority: ctx.caller,
                                amount: usd_amount,
                            },
                            delivery: TransferAction {
                                from: ctx.token_sale_solr_account,
                                to: ctx.user_solr_account,
                                authority: custody,
                                amount: (usd_amount * record.token_sale_price) as u64,
                            },
                            reset_allowance_of: ctx.caller,
                        },
                    )
                }
            },
        }
    }
}

/// The outcome of pausing a sale: only the recorded authority, by signature,
/// may pause, only an initialised and unended sale; pausing a paused sale
/// leaves it paused.
pub open spec fn pause_outcome(ctx: SaleContext, record: TokenSale) -> Result<
    TokenSale,
    ProcessError,
> {
    if !ctx.caller_is_signer {
        Err(ProcessError::MissingRequiredSignature)
    } else if !record.is_initialized {
        Err(ProcessError::Sale(TokenSaleError::TokenSaleNotInit))
    } else if ctx.caller != record.init_pubkey {
        Err(ProcessError::MissingRequiredSignature)
    } else if record.token_sale_ended {
        Err(ProcessError::Sale(TokenSaleError::TokenSaleComplete))
    } else {
        Ok(TokenSale { token_sale_paused: true, ..record })
    }
}

/// The outcome of resuming a sale: the same gates as pausing; resuming an
/// active sale leaves it active.
pub open spec fn resume_outcome(ctx: SaleContext, record: TokenSale) -> Result<
    TokenSale,
    ProcessError,
> {
    if !ctx.caller_is_signer {
        Err(ProcessError::MissingRequiredSignature)
    } else if !record.is_initialized {
        Err(ProcessError::Sale(TokenSaleError::TokenSaleNotInit))
    } else if ctx.caller != record.init_pubkey {
        Err(ProcessError::MissingRequiredSignature)
    } else if record.token_sale_ended {
        Err(ProcessError::Sale(TokenSaleError::TokenSaleComplete))
    } else {
        Ok(TokenSale { token_sale_paused: false, ..record })
    }
}

/// The outcome of ending a sale: the same gates, and the ended flag is set
/// for good — an ended sale cannot be ended, paused or resumed again.
pub open spec fn end_outcome(ctx: SaleContext, record: TokenSale) -> Result<
    TokenSale,
    ProcessError,
> {
    if !ctx.caller_is_signer {
        Err(ProcessError::MissingRequiredSignature)
    } else if !record.is_initialized {
        Err(ProcessError::Sale(TokenSaleError::TokenSaleNotInit))
    } else if ctx.caller != record.init_pubkey {
        Err(ProcessError::MissingRequiredSignature)
    } else if record.token_sale_ended {
        Err(ProcessError::Sale(TokenSaleError::TokenSaleComplete))
    } else {
        Ok(TokenSale { token_sale_ended: true, ..record })
    }
}

/// The outcome of one whole invocation: decode the instruction, dispatch on
/// its tag, and wrap the operation's effects.
pub open spec fn process_outcome(
    ctx: SaleContext,
    record: TokenSale,
    input: Seq<u8>,
    custody: Address,
) -> Result<SaleEffects, ProcessError> {
    match parse_instruction(input) {
        Err(e) => Err(ProcessError::Sale(e)),
        Ok(instruction) => match instruction {
            TokenSaleInstruction::InitTokenSale {
                token_sale_amount,
                usd_min_amount,
                usd_max_amount,
                token_sale_price,
                token_sale_time,
            } => match init_outcome(
                ctx,
                record,
                token_sale_amount,
                usd_min_amount,
                usd_max_amount,
                token_sale_price,
                token_sale_time,
                custody,
            ) {
                Ok(e) => Ok(SaleEffects::Initialized(e)),
                Err(e) => Err(e),
            },
            TokenSaleInstruction::FundTokenSale { token_sale_amount } => match fund_outcome(
                ctx,
                record,
                token_sale_amount,
            ) {
                Ok(t) => Ok(SaleEffects::Funded(t)),
                Err(e) => Err(e),
            },
            TokenSaleInstruction::ExecuteTokenSale { usd_amount } => match execute_outcome(
                ctx,
                record,
                usd_amount,
                custody,
            ) {
                Ok(e) => Ok(SaleEffects::Executed(e)),
                Err(e) => Err(e),
            },
            TokenSaleInstruction::PauseTokenSale {  } => match pause_outcome(ctx, record) {
                Ok(nr) => Ok(SaleEffects::RecordUpdated(nr)),
                Err(e) => Err(e),
            },
            TokenSaleInstruction::ResumeTokenSale {  } => match resume_outcome(ctx, record) {
                Ok(nr) => Ok(SaleEffects::RecordUpdated(nr)),
                Err(e) => Err(e),
            },
            TokenSaleInstruction::EndTokenSale {  } => match end_outcome(ctx, record) {
                Ok(nr) => Ok(SaleEffects::RecordUpdated(nr)),
                Err(e) => Err(e),
            },
        },
    }
}

/// The settlement processor: validates one decoded operation against the
/// current sale record and the observed collaborator state, and returns the
/// effects to commit — or the error that aborts the whole invocation with no
/// effect at all.
pub struct Processor;

impl Processor {
    /// Initialises the sale: populates the record and hands the sale token
    /// account over to the given custody authority.
    pub fn process_init_sale(
        ctx: &SaleContext,
        record: &TokenSale,
        token_sale_amount: u64,
        usd_min_amount: u64,
        usd_max_amount: u64,
        token_sale_price: u64,
        token_sale_time: u64,
        custody: &Address,
    ) -> (r: Result<InitEffects, ProcessError>)
        ensures
            r == init_outcome(
                *ctx,
                *record,
                token_sale_amount,
                usd_min_amount,
                usd_max_amount,
                token_sale_price,
                token_sale_time,
                *custody,
            ),
    {
        if !ctx.caller_is_signer {
            return Err(ProcessError::MissingRequiredSignature);
        }
        if !ctx.rent_exempt {
            return Err(ProcessError::Sale(TokenSaleError::NotRentExempt));
        }
        if record.is_initialized {
            return Err(ProcessError::AccountAlreadyInitialized);
        }
        Ok(
            InitEffects {
                new_record: TokenSale {
                    is_initialized: true,
                    init_pubkey: ctx.caller,
                    sale_token_account_pubkey: ctx.token_sale_solr_account,
                    pool_token_account_pubkey: ctx.pool_usdt_account,
                    whitelist_map_pubkey: ctx.token_whitelist_map,
                    whitelist_program_pubkey: ctx.token_whitelist_program,
                    token_sale_amount,
                    usd_min_amount,
                    usd_max_amount,
                    token_sale_price,
                    token_sale_time,
                    token_sale_paused: record.token_sale_paused,
                    token_sale_ended: record.token_sale_ended,
                },
                transfer_ownership: SetAuthorityAction {
                    account: ctx.token_sale_solr_account,
                    new_authority: *custody,
                    current_authority: ctx.caller,
                },
            },
        )
    }

    /// Funds the sale: moves the declared amount from the pool into the sale
    /// token account, once.
    pub fn process_fund_sale(ctx: &SaleContext, record: &TokenSale, token_sale_amount: u64) -> (r:
        Result<TransferAction, ProcessError>)
        ensures
            r == fund_outcome(*ctx, *record, token_sale_amount),
    {
        if !ctx.caller_is_signer {
            return Err(ProcessError::MissingRequiredSignature);
        }
        if !is_token_program(&ctx.token_program) {
            return Err(ProcessError::InvalidAccountData);
        }
        let balance = match unpack_token_account_amount(ctx.sale_token_account_data.as_slice()) {
            Some(b) => b,
            None => {
                return Err(ProcessError::InvalidAccountData);
            },
        };
        if !record.is_initialized {
            return Err(ProcessError::Sale(TokenSaleError::TokenSaleNotInit));
        }
        if record.token_sale_ended {
            return Err(ProcessError::Sale(TokenSaleError::TokenSaleComplete));
        }
        if record.token_sale_paused {
            return Err(ProcessError::Sale(TokenSaleError::TokenSalePaused));
        }
        if token_sale_amount != record.token_sale_amount {
            return Err(ProcessError::Sale(TokenSaleError::TokenSaleAmountExceeds));
        }
        if balance == record.token_sale_amount {
            return Err(ProcessError::Sale(TokenSaleError::TokenSaleFunded));
        }
        Ok(
            TransferAction {
                from: ctx.pool_solr_account,
                to: ctx.token_sale_solr_account,
                authority: ctx.caller,
                amount: token_sale_amount,
            },
        )
    }

    /// Executes a purchase: checks every security gate in order, then
    /// returns the two legs of the atomic swap and the allowance reset.
    pub fn process_execute_sale(
        ctx: &SaleContext,
        record: &TokenSale,
        usd_amount: u64,
        custody: &Address,
    ) -> (r: Result<ExecuteEffects, ProcessError>)
        ensures
            r == execute_outcome(*ctx, *record, usd_amount, *custody),
    {
        if !ctx.caller_is_signer {
            return Err(ProcessError::MissingRequiredSignature);
        }
        let stage = record.stage();
        if stage == SaleStage::Uninitialized {
            return Err(ProcessError::Sale(TokenSaleError::TokenSaleNotInit));
        }
        if stage == SaleStage::Ended {
            return Err(ProcessError::Sale(TokenSaleError::TokenSaleComplete));
        }
        if stage == SaleStage::Paused {
            return Err(ProcessError::Sale(TokenSaleError::TokenSalePaused));
        }
        let balance = match unpack_token_account_amount(ctx.sale_token_account_data.as_slice()) {
            Some(b) => b,
            None => {
                return Err(ProcessError::InvalidAccountData);
            },
        };
        if !is_token_program(&ctx.token_program) {
            return Err(ProcessError::InvalidAccountData);
        }
        if record.whitelist_map_pubkey != ctx.token_whitelist_map {
            return Err(ProcessError::InvalidAccountData);
        }
        if record.whitelist_program_pubkey != ctx.token_whitelist_program {
            return Err(ProcessError::InvalidAccountData);
        }
        if !ctx.whitelist_map_contains_account {
            return Err(ProcessError::InvalidAccountData);
        }
        let allowance = match ctx.user_allowance {
            None => {
                return Err(ProcessError::Sale(TokenSaleError::UserNotWhitelisted));
            },
            Some(a) => a,
        };
        if usd_amount > allowance {
            return Err(ProcessError::Sale(TokenSaleError::ExceedsAllocation));
        }
        if ctx.current_time < record.token_sale_time {
            return Err(ProcessError::Sale(TokenSaleError::TokenSaleNotStarted));
        }
        if record.sale_token_account_pubkey != ctx.token_sale_solr_account {
            return Err(ProcessError::InvalidAccountData);
        }
        if record.pool_token_account_pubkey != ctx.pool_usdt_account {
            return Err(ProcessError::InvalidAccountData);
        }
        if balance == 0 {
            return Err(ProcessError::Sale(TokenSaleError::TokenSaleEnded));
        }
        if usd_amount < record.usd_min_amount {
            return Err(ProcessError::Sale(TokenSaleError::AmountMinimum));
        }
        if usd_amount > record.usd_max_amount {
            return Err(ProcessError::Sale(TokenSaleError::AmountMaximum));
        }
        proof {
            assert((usd_amount as int) * (record.token_sale_price as int) <= (u64::MAX as int) * (
            u64::MAX as int)) by (nonlinear_arith)
                requires
                    usd_amount <= u64::MAX,
                    record.token_sale_price <= u64::MAX,
            ;
        }
        let wide: u128 = (usd_amount as u128) * (record.token_sale_price as u128);
        if wide > (u64::MAX as u128) {
            return Err(ProcessError::Sale(TokenSaleError::AmountExceeds));
        }
        let token_purchase_amount: u64 = wide as u64;
        if token_purchase_amount > balance {
            return Err(ProcessError::Sale(TokenSaleError::AmountExceeds));
        }
        Ok(
            ExecuteEffects {
                payment: TransferAction {
                    from: ctx.user_usdt_account,
                    to: ctx.pool_usdt_account,
                    authority: ctx.caller,
                    amount: usd_amount,
                },
                delivery: TransferAction {
                    from: ctx.token_sale_solr_account,
                    to: ctx.user_solr_account,
                    authority: *custody,
                    amount: token_purchase_amount,
                },
                reset_allowance_of: ctx.caller,
            },
        )
    }

    /// Pauses the sale on behalf of its recorded authority.
    pub fn process_pause_sale(ctx: &SaleContext, record: &TokenSale) -> (r: Result<
        TokenSale,
        ProcessError,
    >)
        ensures
            r == pause_outcome(*ctx, *record),
    {
        if !ctx.caller_is_signer {
            return Err(ProcessError::MissingRequiredSignature);
        }
        if !record.is_initialized {
            return Err(ProcessError::Sale(TokenSaleError::TokenSaleNotInit));
        }
        if ctx.caller != record.init_pubkey {
            return Err(ProcessError::MissingRequiredSignature);
        }
        if record.token_sale_ended {
            return Err(ProcessError::Sale(TokenSaleError::TokenSaleComplete));
        }
        let mut new_record = *record;
        new_record.token_sale_paused = true;
        Ok(new_record)
    }

    /// Resumes the sale on behalf of its recorded authority.
    pub fn process_resume_sale(ctx: &SaleContext, record: &TokenSale) -> (r: Result<
        TokenSale,
        ProcessError,
    >)
        ensures
            r == resume_outcome(*ctx, *record),
    {
        if !ctx.caller_is_signer {
            return Err(ProcessError::MissingRequiredSignature);
        }
        if !record.is_initialized {
            return Err(ProcessError::Sale(TokenSaleError::TokenSaleNotInit));
        }
        if ctx.caller != record.init_pubkey {
            return Err(ProcessError::MissingRequiredSignature);
        }
        if record.token_sale_ended {
            return Err(ProcessError::Sale(TokenSaleError::TokenSaleComplete));
        }
        let mut new_record = *record;
        new_record.token_sale_paused = false;
        Ok(new_record)
    }

    /// Ends the sale for good on behalf of its recorded authority.
    pub fn process_end_sale(ctx: &SaleContext, record: &TokenSale) -> (r: Result<
        TokenSale,
        ProcessError,
    >)
        ensures
            r == end_outcome(*ctx, *record),
    {
        if !ctx.caller_is_signer {
            return Err(ProcessError::MissingRequiredSignature);
        }
        if !record.is_initialized {
            return Err(ProcessError::Sale(TokenSaleError::TokenSaleNotInit));
        }
        if ctx.caller != record.init_pubkey {
            return Err(ProcessError::MissingRequiredSignature);
        }
        if record.token_sale_ended {
            return Err(ProcessError::Sale(TokenSaleError::TokenSaleComplete));
        }
        let mut new_record = *record;
        new_record.token_sale_ended = true;
        Ok(new_record)
    }

    /// Processes one whole invocation: decodes the instruction, derives the
    /// custody authority where the operation needs it, and dispatches.
    ///
    /// Initialisation and purchase need the custody derivation: where it
    /// exists for this program identity they meet the exact outcome, and
    /// where it does not the invocation is rejected as structurally invalid.
    /// Every other operation meets the exact outcome unconditionally.
    pub fn process(
        program_id: &Address,
        instruction_data: &[u8],
        record: &TokenSale,
        ctx: &SaleContext,
    ) -> (r: Result<SaleEffects, ProcessError>)
        ensures
            parse_instruction(instruction_data@) matches Err(e) ==> r == Err::<
                SaleEffects,
                ProcessError,
            >(ProcessError::Sale(e)),
            (parse_instruction(instruction_data@) matches Ok(i) && !(i is InitTokenSale) && !(i
                is ExecuteTokenSale)) ==> r == process_outcome(
                *ctx,
                *record,
                instruction_data@,
                custody_authority(*program_id),
            ),
            (parse_instruction(instruction_data@) matches Ok(i) && (i is InitTokenSale || i
                is ExecuteTokenSale) && sale_custody_exists(program_id.bytes())) ==> r
                == process_outcome(
                *ctx,
                *record,
                instruction_data@,
                custody_authority(*program_id),
            ),
            (parse_instruction(instruction_data@) matches Ok(i) && (i is InitTokenSale || i
                is ExecuteTokenSale) && !sale_custody_exists(program_id.bytes())) ==> r == Err::<
                SaleEffects,
                ProcessError,
            >(ProcessError::InvalidAccountData),
    {
        let instruction = match TokenSaleInstruction::unpack(instruction_data) {
            Ok(i) => i,
            Err(e) => {
                return Err(ProcessError::Sale(e));
            },
        };
        match instruction {
            TokenSaleInstruction::InitTokenSale {
                token_sale_amount,
                usd_min_amount,
                usd_max_amount,
                token_sale_price,
                token_sale_time,
            } => {
                let custody = match derive_sale_authority(program_id) {
                    Some(c) => c,
                    None => {
                        return Err(ProcessError::InvalidAccountData);
                    },
                };
                proof {
                    custody.lemma_wire_roundtrip();
                }
                match Self::process_init_sale(
                    ctx,
                    record,
                    token_sale_amount,
                    usd_min_amount,
                    usd_max_amount,
                    token_sale_price,
                    token_sale_time,
                    &custody,
                ) {
                    Ok(e) => Ok(SaleEffects::Initialized(e)),
                    Err(e) => Err(e),
                }
            },
            TokenSaleInstruction::FundTokenSale { token_sale_amount } => {
                match Self::process_fund_sale(ctx, record, token_sale_amount) {
                    Ok(t) => Ok(SaleEffects::Funded(t)),
                    Err(e) => Err(e),
                }
            },
            TokenSaleInstruction::ExecuteTokenSale { usd_amount } => {
                let custody = match derive_sale_authority(program_id) {
                    Some(c) => c,
                    None => {
                        return Err(ProcessError::InvalidAccountData);
                    },
                };
                proof {
                    custody.lemma_wire_roundtrip();
                }
                match Self::process_execute_sale(ctx, record, usd_amount, &custody) {
                    Ok(e) => Ok(SaleEffects::Executed(e)),
                    Err(e) => Err(e),
                }
            },
            TokenSaleInstruction::PauseTokenSale {  } => {
                match Self::process_pause_sale(ctx, record) {
                    Ok(nr) => Ok(SaleEffects::RecordUpdated(nr)),
                    Err(e) => Err(e),
                }
            },
            TokenSaleInstruction::ResumeTokenSale {  } => {
                match Self::process_resume_sale(ctx, record) {
                    Ok(nr) => Ok(SaleEffects::RecordUpdated(nr)),
                    Err(e) => Err(e),
                }
            },
            TokenSaleInstruction::EndTokenSale {  } => {
                match Self::process_end_sale(ctx, record) {
                    Ok(nr) => Ok(SaleEffects::RecordUpdated(nr)),
                    Err(e) => Err(e),
                }
            },
        }
    }
}

} // verus!
