//! The Yuv color space descriptor.  The differencing algebra itself is out
//! of numeric scope; conversions through it report `NotImplemented`.

use vstd::prelude::*;

use crate::color::Differencing;
use crate::color::Luminance;
use crate::color::Primaries;
use crate::color::Whitepoint;
use crate::color::transfer::Transfer;

verus! {

/// A luminance/chrominance model derived from an RGB space by a
/// differencing scheme.
#[derive(Clone, Debug, PartialEq, Eq, Structural)]
pub struct YuvColorSpace {
    pub primary: Primaries,
    pub transfer: Transfer,
    pub whitepoint: Whitepoint,
    pub luminance: Luminance,
    pub differencing: Differencing,
}

} // verus!
