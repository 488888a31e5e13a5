//! The RGB color space descriptor and its two standard constants.

use vstd::prelude::*;

use crate::color::Luminance;
use crate::color::Primaries;
use crate::color::Whitepoint;
use crate::color::transfer::Transfer;

verus! {

/// An rgb-ish, additive model based on the CIE 1931 XYZ observers.
///
/// The linear representation is screen-space linear RGB, which depends on
/// primaries, whitepoint and reference luminance; it is derived from the
/// encoded form through the transfer function.
#[derive(Clone, Debug, PartialEq, Eq, Structural)]
pub struct RgbColorSpace {
    pub primary: Primaries,
    pub transfer: Transfer,
    pub whitepoint: Whitepoint,
    pub luminance: Luminance,
}

/// The sRGB descriptor: BT.709 primaries, the sRGB transfer, D65, SDR.
pub open spec fn srgb_spec() -> RgbColorSpace {
    RgbColorSpace {
        primary: Primaries::Bt709,
        transfer: Transfer::Srgb,
        whitepoint: Whitepoint::D65,
        luminance: Luminance::Sdr,
    }
}

/// The BT.709 RGB descriptor: as sRGB but with the BT.709 transfer.
pub open spec fn bt709_rgb_spec() -> RgbColorSpace {
    RgbColorSpace {
        primary: Primaries::Bt709,
        transfer: Transfer::Bt709,
        whitepoint: Whitepoint::D65,
        luminance: Luminance::Sdr,
    }
}

impl RgbColorSpace {
    /// The standard sRGB descriptor value.
    pub fn srgb() -> (c: RgbColorSpace)
        ensures
            c == srgb_spec(),
    {
        RgbColorSpace {
            primary: Primaries::Bt709,
            transfer: Transfer::Srgb,
            whitepoint: Whitepoint::D65,
            luminance: Luminance::Sdr,
        }
    }

    /// The standard BT.709 RGB descriptor value.
    pub fn bt709_rgb() -> (c: RgbColorSpace)
        ensures
            c == bt709_rgb_spec(),
    {
        RgbColorSpace {
            primary: Primaries::Bt709,
            transfer: Transfer::Bt709,
            whitepoint: Whitepoint::D65,
            luminance: Luminance::Sdr,
        }
    }
}

} // verus!
