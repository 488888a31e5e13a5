//! Named transfer curves and the dispatch that classifies each one.
//!
//! The numeric curve evaluations are irrational (fractional powers), so the
//! verified core only decides, exactly, how each curve is to be applied: as
//! the identity, as a named scalar curve evaluated by the caller's numeric
//! layer, or not at all because the curve has no numeric definition yet.

use vstd::prelude::*;

use crate::color::ColorError;

verus! {

/// The transfer curve (EOTF/OETF pair) named by a standard.
#[derive(Clone, Copy, Debug, PartialEq, Eq, Structural)]
pub enum Transfer {
    /// Both directions are the identity.
    Linear,
    /// The sRGB piecewise linear/power curve.
    Srgb,
    /// The BT.709 piecewise curve.
    Bt709,
    /// The BT.470-M pure power curve.
    Bt470M,
    /// The BT.601 curve (same form as BT.709).
    Bt601,
    /// The SMPTE 240M curve.
    Smpte240,
    /// The BT.2020 curve for 10-bit systems.
    Bt2020_10bit,
    /// The BT.2020 curve for 12-bit systems; not numerically defined yet.
    Bt2020_12bit,
    /// The SMPTE 2084 perceptual quantizer.
    Smpte2084,
    /// The BT.2100 PQ curve; not numerically defined yet.
    Bt2100Pq,
    /// The BT.2100 HLG curve; not numerically defined yet.
    Bt2100Hlg,
    /// The BT.2100 scene-referred curve; not numerically defined yet.
    Bt2100Scene,
}

/// Whether the curve has a numeric definition in this engine.
pub open spec fn spec_implemented(t: Transfer) -> bool {
    !(t == Transfer::Bt2020_12bit || t == Transfer::Bt2100Pq || t == Transfer::Bt2100Hlg || t
        == Transfer::Bt2100Scene)
}

/// Whether a dedicated buffer-at-a-time specialization exists for the
/// curve; `Smpte2084` has a scalar definition but no vectorized form.
pub open spec fn spec_has_vectorized(t: Transfer) -> bool {
    t == Transfer::Linear || t == Transfer::Srgb || t == Transfer::Bt709 || t == Transfer::Bt470M
        || t == Transfer::Bt601 || t == Transfer::Smpte240 || t == Transfer::Bt2020_10bit
}

/// How a curve is applied per channel: not at all, or as the named scalar
/// curve, one channel at a time with the alpha channel passed through.
#[derive(Clone, Copy, Debug, PartialEq, Eq, Structural)]
pub enum CurveStep {
    /// The values already are linear; application is the identity.
    Identity,
    /// Apply the named curve's EOTF or OETF to each of R, G, B.
    Curve(Transfer),
}

impl Transfer {
    /// Whether this curve has a numeric definition.
    pub fn is_implemented(self) -> (r: bool)
        ensures
            r == spec_implemented(self),
    {
        !matches!(
            self,
            Transfer::Bt2020_12bit | Transfer::Bt2100Pq | Transfer::Bt2100Hlg
                | Transfer::Bt2100Scene
        )
    }

    /// Whether a buffer-at-a-time specialization of this curve exists, as
    /// distinct from the curve being implemented at all.
    pub fn has_vectorized_form(self) -> (r: bool)
        ensures
            r == spec_has_vectorized(self),
    {
        matches!(
            self,
            Transfer::Linear | Transfer::Srgb | Transfer::Bt709 | Transfer::Bt470M
                | Transfer::Bt601 | Transfer::Smpte240 | Transfer::Bt2020_10bit
        )
    }

    /// Classify how this curve converts between encoded and optical values,
    /// in either direction: the identity for `Linear`, the named curve for
    /// every other implemented transfer, and `NotImplemented` for the
    /// curves that have no numeric definition yet.
    pub fn curve_step(self) -> (r: Result<CurveStep, ColorError>)
        ensures
            self == Transfer::Linear ==> r == Ok::<CurveStep, ColorError>(CurveStep::Identity),
            spec_implemented(self) && self != Transfer::Linear ==> r == Ok::<
                CurveStep,
                ColorError,
            >(CurveStep::Curve(self)),
            !spec_implemented(self) ==> r == Err::<CurveStep, ColorError>(
                ColorError::NotImplemented,
            ),
    {
        if matches!(self, Transfer::Linear) {
            Ok(CurveStep::Identity)
        } else if self.is_implemented() {
            Ok(CurveStep::Curve(self))
        } else {
            Err(ColorError::NotImplemented)
        }
    }
}

} // verus!
