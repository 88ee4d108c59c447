//! The errors an operation can end with, and the kind each belongs to.

use vstd::prelude::*;

verus! {

/// Why an operation was refused. An operation that returns one of these has
/// changed nothing.
#[derive(Clone, Copy, Debug, PartialEq, Eq, Structural)]
pub enum MaxiFarmError {
    /// The caller is not the authority that the operation asks for.
    Unauthorised,
    /// The new owner already is the owner.
    AlreadyBecameOwner,
    /// The transfer tax is above its limit, or is not what a transfer withheld.
    InvalidTax,
    /// The cap on taxed tokens is above one percent of the supply.
    InvalidMaxFeeTokens,
    /// The private sale period is longer than a day.
    InvalidPrivSalePeriod,
    /// The trading fee is above its limit.
    InvalidTradingFee,
    /// The total supply is not acceptable.
    InvalidTotalSupply,
    /// The initial virtual base reserves are not acceptable.
    InvalidInitVirtBaseReserves,
    /// The initial virtual quote reserves are not acceptable.
    InvalidInitVirtQuoteReserves,
    /// The threshold is zero.
    InvalidRealQuoteThreshold,
    /// The pool does not hold the whole supply at its creation.
    WrongBaseAmountOnCreation,
    /// More of the token can still be minted.
    BaseTokenMustNotBeMintable,
    /// Balances of the token can still be frozen.
    BaseTokenMustNotBeFreezable,
    /// Nothing is offered.
    WrongQuoteAmount,
    /// No tokens are traded, or more than the pool holds.
    WrongBaseAmount,
    /// A balance is short of what has to be taken from it.
    InsufficientFund,
    /// Neither token of a pair is the quote asset.
    UnknownToken,
    /// The token offered is the wrapped quote asset itself.
    InvalidTokenPair,
    /// The private sale is not over.
    NotElapsedPrivSalePeriod,
    /// A trade in the private sale brings no signature, or nothing attests it.
    MissingSignature,
    /// The attesting instruction is not one of the signature program, or has another shape.
    InvalidMessageFormat,
    /// The attesting instruction names another key, message or signature.
    WrongSignatureParams,
    /// The attesting instruction holds no message.
    TooShortDataLen,
    /// The key is not 32 bytes long.
    InvalidPubkeyLen,
    /// The signature is not 64 bytes long.
    InvalidSigLen,
    /// The header of the attesting instruction is not the expected one.
    SigVerificationFailed,
    /// A purchase would leave fewer tokens than the stated minimum.
    TooFewOutputTokens,
    /// A purchase would cost more than the stated maximum.
    TooMuchInputSol,
    /// A sale would bring less than the stated minimum.
    TooLowOuputSol,
    /// A purchase is larger than allowed.
    ExceededMaxBuy,
    /// The pool still trades.
    BondingCurveIncomplete,
    /// The pool has completed.
    BondingCurveComplete,
    /// The pool holds nothing to withdraw.
    BondingCurveAlreadyWithdrawn,
    /// The pool has not collected enough to be completed.
    InsufficientRealQuoteReserves,
    /// There is nothing to claim.
    NoRewardsAvailable,
    /// A quantity left the range of its type, or a division had no divisor.
    ArithmeticError,
}

/// The six families of failure.
#[derive(Clone, Copy, Debug, PartialEq, Eq, Structural)]
pub enum ErrorKind {
    /// The caller is not the authority the operation asks for.
    Authorization,
    /// A parameter is out of range.
    Validation,
    /// Slippage, a minimum that is not met, missing funds.
    Economic,
    /// The pool is in the wrong stage of its life.
    State,
    /// The private sale gate refused the trade.
    AccessGate,
    /// Overflow, underflow or division by zero.
    Arithmetic,
}

impl MaxiFarmError {
    /// The family an error belongs to.
    pub open spec fn spec_kind(self) -> ErrorKind {
        match self {
            MaxiFarmError::Unauthorised => ErrorKind::Authorization,
            MaxiFarmError::AlreadyBecameOwner
            | MaxiFarmError::InvalidTax
            | MaxiFarmError::InvalidMaxFeeTokens
            | MaxiFarmError::InvalidPrivSalePeriod
            | MaxiFarmError::InvalidTradingFee
            | MaxiFarmError::InvalidTotalSupply
            | MaxiFarmError::InvalidInitVirtBaseReserves
            | MaxiFarmError::InvalidInitVirtQuoteReserves
            | MaxiFarmError::InvalidRealQuoteThreshold
            | MaxiFarmError::WrongBaseAmountOnCreation
            | MaxiFarmError::BaseTokenMustNotBeMintable
            | MaxiFarmError::BaseTokenMustNotBeFreezable
            | MaxiFarmError::WrongQuoteAmount
            | MaxiFarmError::WrongBaseAmount
            | MaxiFarmError::UnknownToken
            | MaxiFarmError::InvalidTokenPair => ErrorKind::Validation,
            MaxiFarmError::InsufficientFund
            | MaxiFarmError::TooFewOutputTokens
            | MaxiFarmError::TooMuchInputSol
            | MaxiFarmError::TooLowOuputSol
            | MaxiFarmError::ExceededMaxBuy
            | MaxiFarmError::NoRewardsAvailable => ErrorKind::Economic,
            MaxiFarmError::BondingCurveIncomplete
            | MaxiFarmError::BondingCurveComplete
            | MaxiFarmError::BondingCurveAlreadyWithdrawn
            | MaxiFarmError::InsufficientRealQuoteReserves => ErrorKind::State,
            MaxiFarmError::NotElapsedPrivSalePeriod
            | MaxiFarmError::MissingSignature
            | MaxiFarmError::InvalidMessageFormat
            | MaxiFarmError::WrongSignatureParams
            | MaxiFarmError::TooShortDataLen
            | MaxiFarmError::InvalidPubkeyLen
            | MaxiFarmError::InvalidSigLen
            | MaxiFarmError::SigVerificationFailed => ErrorKind::AccessGate,
            MaxiFarmError::ArithmeticError => ErrorKind::Arithmetic,
        }
    }

    /// The family an error belongs to.
    #[verifier::when_used_as_spec(spec_kind)]
    pub fn kind(self) -> (k: ErrorKind)
        ensures
            k == self.spec_kind(),
    {
        match self {
            MaxiFarmError::Unauthorised => ErrorKind::Authorization,
            MaxiFarmError::AlreadyBecameOwner
            | MaxiFarmError::InvalidTax
            | MaxiFarmError::InvalidMaxFeeTokens
            | MaxiFarmError::InvalidPrivSalePeriod
            | MaxiFarmError::InvalidTradingFee
            | MaxiFarmError::InvalidTotalSupply
            | MaxiFarmError::InvalidInitVirtBaseReserves
            | MaxiFarmError::InvalidInitVirtQuoteReserves
            | MaxiFarmError::InvalidRealQuoteThreshold
            | MaxiFarmError::WrongBaseAmountOnCreation
            | MaxiFarmError::BaseTokenMustNotBeMintable
            | MaxiFarmError::BaseTokenMustNotBeFreezable
            | MaxiFarmError::WrongQuoteAmount
            | MaxiFarmError::WrongBaseAmount
            | MaxiFarmError::UnknownToken
            | MaxiFarmError::InvalidTokenPair => ErrorKind::Validation,
            MaxiFarmError::InsufficientFund
            | MaxiFarmError::TooFewOutputTokens
            | MaxiFarmError::TooMuchInputSol
            | MaxiFarmError::TooLowOuputSol
            | MaxiFarmError::ExceededMaxBuy
            | MaxiFarmError::NoRewardsAvailable => ErrorKind::Economic,
            MaxiFarmError::BondingCurveIncomplete
            | MaxiFarmError::BondingCurveComplete
            | MaxiFarmError::BondingCurveAlreadyWithdrawn
            | MaxiFarmError::InsufficientRealQuoteReserves => ErrorKind::State,
            MaxiFarmError::NotElapsedPrivSalePeriod
            | MaxiFarmError::MissingSignature
            | MaxiFarmError::InvalidMessageFormat
            | MaxiFarmError::WrongSignatureParams
            | MaxiFarmError::TooShortDataLen
            | MaxiFarmError::InvalidPubkeyLen
            | MaxiFarmError::InvalidSigLen
            | MaxiFarmError::SigVerificationFailed => ErrorKind::AccessGate,
            MaxiFarmError::ArithmeticError => ErrorKind::Arithmetic,
        }
    }
}

} // verus!
