//! The closed set of failures an operation can end in.

use vstd::prelude::*;

verus! {

/// Each variant names the one precondition that was violated.
#[derive(Clone, Copy, Debug, PartialEq, Eq, Structural)]
pub enum ErrorCode {
    IncorrectOwner,
    AssetIDMismatch,
    NoValidSignerPresent,
    InvalidNotary,
    EmptyTradeState,
    InvalidPrice,
    InvalidDiscriminator,
    InvalidPlatformFeeBp,
    NumericalOverflow,
    MismatchedCreatorDataLengths,
    CreatorShareTotalMustBe100,
    InvalidMakerTakerFee,
    InvalidCreators,
    SellerMismatch,
}

impl ErrorCode {
    /// The message shown with the error.
    pub fn message(&self) -> (text: &'static str)
        ensures
            text@ == error_message(*self)@,
    {
        match self {
            ErrorCode::IncorrectOwner => "IncorrectOwner",
            ErrorCode::AssetIDMismatch => "Asset ID does not match expected ID",
            ErrorCode::NoValidSignerPresent => "No valid signer present",
            ErrorCode::InvalidNotary => "Invalid notary",
            ErrorCode::EmptyTradeState => "Empty trade state",
            ErrorCode::InvalidPrice => "Invalid price",
            ErrorCode::InvalidDiscriminator => "Invalid discriminator",
            ErrorCode::InvalidPlatformFeeBp => "Invalid platform fee bp",
            ErrorCode::NumericalOverflow => "NumericalOverflow",
            ErrorCode::MismatchedCreatorDataLengths => "MismatchedCreatorDataLengths",
            ErrorCode::CreatorShareTotalMustBe100 => "CreatorShareTotalMustBe100",
            ErrorCode::InvalidMakerTakerFee => "InvalidMakerTakerFee",
            ErrorCode::InvalidCreators => "InvalidCreators",
            ErrorCode::SellerMismatch => "SellerMismatch",
        }
    }
}

/// The message of each error.
pub open spec fn error_message(error: ErrorCode) -> &'static str {
    match error {
        ErrorCode::IncorrectOwner => "IncorrectOwner",
        ErrorCode::AssetIDMismatch => "Asset ID does not match expected ID",
        ErrorCode::NoValidSignerPresent => "No valid signer present",
        ErrorCode::InvalidNotary => "Invalid notary",
        ErrorCode::EmptyTradeState => "Empty trade state",
        ErrorCode::InvalidPrice => "Invalid price",
        ErrorCode::InvalidDiscriminator => "Invalid discriminator",
        ErrorCode::InvalidPlatformFeeBp => "Invalid platform fee bp",
        ErrorCode::NumericalOverflow => "NumericalOverflow",
        ErrorCode::MismatchedCreatorDataLengths => "MismatchedCreatorDataLengths",
        ErrorCode::CreatorShareTotalMustBe100 => "CreatorShareTotalMustBe100",
        ErrorCode::InvalidMakerTakerFee => "InvalidMakerTakerFee",
        ErrorCode::InvalidCreators => "InvalidCreators",
        ErrorCode::SellerMismatch => "SellerMismatch",
    }
}

} // verus!
