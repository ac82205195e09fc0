//! Fixed parameters of the marketplace.

use vstd::prelude::*;

verus! {

/// Namespace label of every address the program derives.
pub const PREFIX: &'static str = "m3";

/// Label of the escrow identity, after the namespace label.
pub const SIGNER: &'static str = "signer";

/// Highest asking price a listing may carry, in the smallest currency unit.
pub const MAX_PRICE: u64 = 8000000 * 1000000000;

/// Largest magnitude of a maker or taker rate, in basis points.
pub const MAX_FEE_ABS_BP: i16 = 500;

/// Maker rate applied when the notary has not signed.
pub const DEFAULT_MAKER_FEE_BP: i16 = 0;

/// Taker rate applied when the notary has not signed.
pub const DEFAULT_TAKER_FEE_BP: u16 = 250;

/// Share of the royalty that the buyer pays to the creators: all of it.
pub const DEFAULT_CREATOR_ROYALTY_BP: u16 = 100 * 100;

/// Privileged identity that may cancel any listing.
pub const CANCEL_AUTHORITY: [u8; 32] = [
    168, 240, 43, 39, 126, 199, 113, 1, 66, 128, 129, 3, 61, 69, 231, 130,
    244, 36, 14, 229, 162, 215, 36, 36, 218, 125, 45, 89, 74, 117, 28, 121,
];

/// Where the platform's fees are paid.
pub const ME_TREASURY: [u8; 32] = [
    12, 158, 58, 228, 224, 183, 152, 74, 250, 18, 157, 96, 7, 160, 158, 224,
    142, 150, 46, 161, 202, 218, 73, 218, 230, 18, 50, 147, 194, 191, 195, 125,
];

/// The notary whose signature unlocks requested fee rates.
pub const ME_NOTARY: [u8; 32] = [
    5, 127, 54, 85, 153, 40, 206, 27, 171, 173, 182, 91, 139, 93, 158, 49,
    186, 39, 248, 83, 155, 236, 96, 44, 203, 26, 220, 42, 251, 159, 70, 112,
];

} // verus!
