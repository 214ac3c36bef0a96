use vstd::prelude::*;

verus! {

/// The closed set of domain failures of the token sale.
#[derive(Clone, Copy, Debug, PartialEq, Eq, Structural)]
pub enum TokenSaleError {
    /// Invalid instruction
    InvalidInstruction,
    /// Not rent exempt
    NotRentExempt,
    /// User not whitelisted
    UserNotWhitelisted,
    /// Token sale not initialized
    TokenSaleNotInit,
    /// Token sale not started
    TokenSaleNotStarted,
    /// Token sale funded
    TokenSaleFunded,
    /// Token sale amount exceeds
    TokenSaleAmountExceeds,
    /// Token sale complete
    TokenSaleComplete,
    /// Amount less than minimum
    AmountMinimum,
    /// Amount more than maximum
    AmountMaximum,
    /// Amount exceeds tokens available for sale
    AmountExceeds,
    /// Amount exceeds your allocation
    ExceedsAllocation,
    /// Token sale paused
    TokenSalePaused,
    /// Token sale ended
    TokenSaleEnded,
}

/// The operator-facing message of each error.
pub open spec fn spec_message(e: TokenSaleError) -> Seq<char> {
    match e {
        TokenSaleError::InvalidInstruction => "Invalid Instruction"@,
        TokenSaleError::NotRentExempt => "Not Rent Exempt"@,
        TokenSaleError::UserNotWhitelisted => "User Not Whitelisted"@,
        TokenSaleError::TokenSaleNotInit => "Token Sale Not Initialized"@,
        TokenSaleError::TokenSaleNotStarted => "Token Sale Not Started"@,
        TokenSaleError::TokenSaleFunded => "Token Sale Funded"@,
        TokenSaleError::TokenSaleAmountExceeds => "Token Sale Amount Exceeds"@,
        TokenSaleError::TokenSaleComplete => "Token Sale Complete"@,
        TokenSaleError::AmountMinimum => "Amount Less Than Minimum"@,
        TokenSaleError::AmountMaximum => "Amount More Than Maximum"@,
        TokenSaleError::AmountExceeds => "Amount Exceeds Tokens Available For Sale"@,
        TokenSaleError::ExceedsAllocation => "Amount Exceeds Your Allocation"@,
        TokenSaleError::TokenSalePaused => "Token Sale Paused"@,
        TokenSaleError::TokenSaleEnded => "Token Sale Ended"@,
    }
}

impl TokenSaleError {
    /// A short operator-facing message for observability.
    pub fn message(&self) -> (m: &'static str)
        ensures
            m@ == spec_message(*self),
    {
        match self {
            TokenSaleError::InvalidInstruction => "Invalid Instruction",
            TokenSaleError::NotRentExempt => "Not Rent Exempt",
            TokenSaleError::UserNotWhitelisted => "User Not Whitelisted",
            TokenSaleError::TokenSaleNotInit => "Token Sale Not Initialized",
            TokenSaleError::TokenSaleNotStarted => "Token Sale Not Started",
            TokenSaleError::TokenSaleFunded => "Token Sale Funded",
            TokenSaleError::TokenSaleAmountExceeds => "Token Sale Amount Exceeds",
            TokenSaleError::TokenSaleComplete => "Token Sale Complete",
            TokenSaleError::AmountMinimum => "Amount Less Than Minimum",
            TokenSaleError::AmountMaximum => "Amount More Than Maximum",
            TokenSaleError::AmountExceeds => "Amount Exceeds Tokens Available For Sale",
            TokenSaleError::ExceedsAllocation => "Amount Exceeds Your Allocation",
            TokenSaleError::TokenSalePaused => "Token Sale Paused",
            TokenSaleError::TokenSaleEnded => "Token Sale Ended",
        }
    }
}

/// A failure surfaced by the settlement processor: a domain error of the sale,
/// or a structural failure of the invocation itself.
#[derive(Clone, Copy, Debug, PartialEq, Eq, Structural)]
pub enum ProcessError {
    /// A domain failure of the sale.
    Sale(TokenSaleError),
    /// A required signer did not sign the invocation.
    MissingRequiredSignature,
    /// A presented account does not hold what it must.
    InvalidAccountData,
    /// The sale record was already initialized.
    AccountAlreadyInitialized,
}

impl From<TokenSaleError> for ProcessError {
    fn from(e: TokenSaleError) -> (r: ProcessError) {
        ProcessError::Sale(e)
    }
}

impl vstd::std_specs::convert::FromSpecImpl<TokenSaleError> for ProcessError {
    open spec fn obeys_from_spec() -> bool {
        true
    }

    open spec fn from_spec(e: TokenSaleError) -> ProcessError {
        ProcessError::Sale(e)
    }
}

} // verus!
