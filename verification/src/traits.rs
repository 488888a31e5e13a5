//! Capability traits of the conversion engine.

use vstd::prelude::*;

verus! {

/// A pixel representation that names the descriptor type identifying its
/// color space.
pub trait HasColorSpace {
    type ColorSpace;
}

} // verus!
