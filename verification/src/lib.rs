//! Colorimetric conversion core: transfer-function dispatch, exact
//! primaries-to-XYZ matrix derivation, and pixel conversion between RGB
//! color space descriptors.
//!
//! All linear algebra is carried out over exact integer fractions derived
//! from the standard chromaticity and whitepoint tables, so matrix
//! properties (whitepoint preservation, inversion round trips) are proved as
//! exact identities rather than approximate float checks.

pub mod color;
pub mod convert;
pub mod matrix;
pub mod traits;
