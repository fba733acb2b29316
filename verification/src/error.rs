use vstd::prelude::*;

verus! {

/// Why an operation was refused. Every error aborts the whole operation:
/// no partial state change is ever kept.
#[derive(Clone, Copy, PartialEq, Eq, Structural, Debug)]
pub enum ErrorCode {
    /// The claim came before the grant's cliff timestamp.
    TooEarlyToClaim,
    /// The grant's vesting period has zero (or negative) length.
    InvalidVestingPeriod,
    /// The vesting multiplication cannot be represented in the
    /// intermediate range.
    CalculationOverflow,
    /// The computed claimable amount is zero.
    NothingToClaim,
    /// A signer or a supplied account does not match the stored
    /// authorization fields.
    Unauthorized,
    /// A record already exists under the same key.
    AlreadyExists,
    /// No record exists at the supplied address or key.
    AccountNotFound,
    /// The company name exceeds the persisted record's capacity,
    /// so the schedule cannot be created.
    CompanyNameTooLong,
}

impl ErrorCode {
    /// A human-readable description of the error.
    pub fn message(&self) -> (r: &'static str)
        ensures
            self is TooEarlyToClaim ==> r@ == "Too early to claim tokens"@,
            self is InvalidVestingPeriod ==> r@ == "Invalid vesting period"@,
            self is CalculationOverflow ==> r@ == "Calculation overflow"@,
            self is NothingToClaim ==> r@ == "Nothing to claim"@,
            self is Unauthorized ==> r@ == "Unauthorized"@,
            self is AlreadyExists ==> r@ == "Account already exists"@,
            self is AccountNotFound ==> r@ == "Account not found"@,
            self is CompanyNameTooLong ==> r@ == "Company name too long"@,
    {
        match self {
            ErrorCode::TooEarlyToClaim => "Too early to claim tokens",
            ErrorCode::InvalidVestingPeriod => "Invalid vesting period",
            ErrorCode::CalculationOverflow => "Calculation overflow",
            ErrorCode::NothingToClaim => "Nothing to claim",
            ErrorCode::Unauthorized => "Unauthorized",
            ErrorCode::AlreadyExists => "Account already exists",
            ErrorCode::AccountNotFound => "Account not found",
            ErrorCode::CompanyNameTooLong => "Company name too long",
        }
    }
}

} // verus!
