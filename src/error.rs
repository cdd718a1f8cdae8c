use vstd::prelude::*;

verus! {

/// Why an operation was refused. Every error leaves the ledger unchanged.
#[derive(Clone, Copy, Debug, PartialEq, Eq, Structural)]
pub enum PresaleError {
    /// A purchase was made while the sale is paused.
    PresaleNotActive,
    /// A purchase of zero units.
    InvalidAmount,
    /// An allocation or a running total would not fit in 64 bits.
    CalculationOverflow,
    /// A claim for a period outside 0 to 3.
    InvalidPeriod,
    /// A claim before the listing time.
    TokensNotListed,
    /// A claim before the period's unlock time.
    PeriodNotUnlocked,
    /// A second claim of the same period.
    AlreadyClaimed,
    /// An administrative operation by someone other than the authority.
    Unauthorized,
    /// A claim by an identity that has never bought.
    UnknownBuyer,
}

} // verus!
