//! Color space descriptors: primaries, whitepoints, transfer curves,
//! reference luminances, and the derivation of the primaries-to-XYZ matrix.
//!
//! The standard tables are exact decimals (chromaticities to three places,
//! whitepoint tristimuli to five), so they are held as integers scaled by
//! 1000 and 100000 respectively, and every matrix derived from them is an
//! exact integer fraction.

pub mod rgb;
pub mod transfer;
pub mod yuv;

use vstd::prelude::*;

use crate::matrix::ColMatrix;
use crate::matrix::Mat3;
use crate::matrix::RowMatrix;
use crate::matrix::SMat3;
use crate::matrix::SVec3;
use crate::matrix::Vec3;
use crate::matrix::lemma_adj_identity;
use crate::matrix::lemma_mul_bound;
use crate::matrix::lemma_row_solve;
use crate::matrix::lemma_sadj_bound;
use crate::matrix::lemma_sdet_bound;
use crate::matrix::lemma_sdot_neg_right;
use crate::matrix::lemma_smul_vec_bound;
use crate::matrix::sadj;
use crate::matrix::scol;
use crate::matrix::scol_scale;
use crate::matrix::scols_to_row;
use crate::matrix::sdet;
use crate::matrix::sdot;
use crate::matrix::sidentity;
use crate::matrix::sinv_den;
use crate::matrix::sinv_num;
use crate::matrix::smat_bounded;
use crate::matrix::smul_mat;
use crate::matrix::smul_vec;
use crate::matrix::sscale_mat;
use crate::matrix::svec_bounded;

use self::rgb::RgbColorSpace;
use self::transfer::Transfer;
use self::yuv::YuvColorSpace;

verus! {

/// Chromaticities are stored scaled by this factor (three decimal places).
pub const CHROMA_SCALE: i128 = 1000;

/// Whitepoint tristimuli are stored scaled by this factor (five decimals).
pub const WHITE_SCALE: i128 = 100000;

/// Magnitude bound on the numerators of a derived primaries-to-XYZ matrix.
pub const XYZ_NUM_LIMIT: i128 = 1_200_000_000_000_000;

/// Upper bound on the denominator of a derived primaries-to-XYZ matrix.
pub const XYZ_DEN_LIMIT: i128 = 600_000_000_000_000;

/// Errors surfaced by the conversion engine.
#[derive(Clone, Copy, Debug, PartialEq, Eq, Structural)]
pub enum ColorError {
    /// The requested transfer curve or primaries case has no numeric
    /// definition yet.
    NotImplemented,
    /// A descriptor combination violates a stated invariant.
    InvalidColorSpace,
    /// A primaries/whitepoint combination yielded a non-invertible matrix;
    /// proved impossible for the standard tables, kept as a distinct kind
    /// for testability.
    SingularMatrix,
}

/// Identifies a color representation: the model by which channel numbers
/// relate to a physical stimulus.
#[derive(Clone, Debug, PartialEq, Eq, Structural)]
pub enum ColorSpace {
    /// An additive RGB-ish model based on the CIE 1931 XYZ observers.
    Rgb(RgbColorSpace),
    /// A luminance/chrominance encoding derived from an RGB space by a
    /// differencing scheme.
    Yuv(YuvColorSpace),
    /// The simple but perceptual Oklab space: two linear transforms around a
    /// cube-root non-linearity.
    Oklab,
    /// A group of scalar values with no assigned physical meaning; only an
    /// XYZ-style sample layout may be paired with it, an invariant enforced
    /// at construction.
    Scalars {
        /// The transfer to use for the points, as if they were RGB-ish.
        transfer: Transfer,
    },
    /// The SRLAB2 perceptual space: whitepoint adaptation in a cone-response
    /// space around an L*-style non-linearity.
    SrLab2 { whitepoint: Whitepoint },
}

/// The reference brightness of the color specification.
#[derive(Clone, Copy, Debug, PartialEq, Eq, Structural)]
pub enum Luminance {
    /// 100 cd/m^2.
    Sdr,
    /// 10000 cd/m^2, known as high-dynamic range.
    Hdr,
    /// 160 cd/m^2.
    AdobeRgb,
    /// 1000 nits, optimized for projector use.
    DciP3,
}

/// The relative stimuli of the three corners of a triangular RGB-ish gamut.
#[derive(Clone, Copy, Debug, PartialEq, Eq, Structural)]
pub enum Primaries {
    /// The CIE XYZ placeholder case; no derived matrix is defined for it.
    Xyz,
    /// First set of primaries specified in BT.601 (525-line systems); the
    /// same values as SMPTE 240M.
    Bt601_525,
    /// Second set of primaries specified in BT.601 (625-line systems).
    Bt601_625,
    /// Primaries specified in BT.709.
    Bt709,
    /// Primaries specified in SMPTE 240M; the same values as BT.601-525.
    Smpte240,
    /// Primaries specified in BT.2020, also known as Wide Color Gamut.
    Bt2020,
    /// Primaries specified in BT.2100; the same values as BT.2020.
    Bt2100,
}

/// The differencing scheme used in a Yuv construction.
#[derive(Clone, Copy, Debug, PartialEq, Eq, Structural)]
pub enum Differencing {
    /// BT.470 M/PAL differencing scheme for E_U and E_V.
    Bt407MPal,
    /// The more accurate variant derivable from the published parameters.
    Bt407MPalPrecise,
    /// BT.601 luminance differencing.
    Bt601,
    /// BT.601 differencing, quantized with headroom for analog use.
    Bt601Quantized,
    /// BT.601 differencing, quantized without headroom.
    Bt601FullSwing,
    /// BT.709 luminance differencing.
    Bt709,
    /// Analog form of the BT.709 differencing.
    Bt709Quantized,
    /// BT.709 differencing without headroom, as introduced in h.264.
    Bt709FullSwing,
    /// Factors from the analog SECAM standard.
    YDbDr,
    /// BT.2020 luminance differencing.
    Bt2020,
    /// BT.2100 luminance differencing; same coefficients as BT.2020.
    Bt2100,
    /// Differencing scheme from YCoCg/ITU-T H.273.
    YCoCg,
}

/// Rotated differencing schemes of the YIQ family.
#[derive(Clone, Copy, Debug, PartialEq, Eq, Structural)]
pub enum DifferencingYiq {
    /// Differencing scheme from NTSC in 1953.
    Ntsc1953,
    /// Differencing scheme from NTSC SMPTE, also known as FCC NTSC.
    SmpteC,
}

/// The whitepoint/standard illuminant.
#[derive(Clone, Copy, Debug, PartialEq, Eq, Structural)]
pub enum Whitepoint {
    A,
    B,
    C,
    D50,
    D55,
    D65,
    D75,
    E,
    F2,
    F7,
    F11,
}

/// CIE XYZ tristimulus of each standard illuminant under unit luminance,
/// scaled by [`WHITE_SCALE`].
pub open spec fn swhite(w: Whitepoint) -> SVec3 {
    match w {
        Whitepoint::A => SVec3 { x: 109850, y: 100000, z: 35585 },
        Whitepoint::B => SVec3 { x: 99072, y: 100000, z: 85223 },
        Whitepoint::C => SVec3 { x: 98074, y: 100000, z: 118232 },
        Whitepoint::D50 => SVec3 { x: 96422, y: 100000, z: 82521 },
        Whitepoint::D55 => SVec3 { x: 95682, y: 100000, z: 92149 },
        Whitepoint::D65 => SVec3 { x: 95047, y: 100000, z: 108883 },
        Whitepoint::D75 => SVec3 { x: 94972, y: 100000, z: 122638 },
        Whitepoint::E => SVec3 { x: 100000, y: 100000, z: 100000 },
        Whitepoint::F2 => SVec3 { x: 99186, y: 100000, z: 67393 },
        Whitepoint::F7 => SVec3 { x: 95041, y: 100000, z: 108747 },
        Whitepoint::F11 => SVec3 { x: 100962, y: 100000, z: 64350 },
    }
}

impl Whitepoint {
    /// The illuminant's CIE XYZ tristimulus, scaled by [`WHITE_SCALE`].
    pub fn to_xyz(self) -> (r: Vec3)
        ensures
            r@ == swhite(self),
            svec_bounded(r@, 200000),
            r.x > 0 && r.y > 0 && r.z > 0,
    {
        match self {
            Whitepoint::A => Vec3 { x: 109850, y: 100000, z: 35585 },
            Whitepoint::B => Vec3 { x: 99072, y: 100000, z: 85223 },
            Whitepoint::C => Vec3 { x: 98074, y: 100000, z: 118232 },
            Whitepoint::D50 => Vec3 { x: 96422, y: 100000, z: 82521 },
            Whitepoint::D55 => Vec3 { x: 95682, y: 100000, z: 92149 },
            Whitepoint::D65 => Vec3 { x: 95047, y: 100000, z: 108883 },
            Whitepoint::D75 => Vec3 { x: 94972, y: 100000, z: 122638 },
            Whitepoint::E => Vec3 { x: 100000, y: 100000, z: 100000 },
            Whitepoint::F2 => Vec3 { x: 99186, y: 100000, z: 67393 },
            Whitepoint::F7 => Vec3 { x: 95041, y: 100000, z: 108747 },
            Whitepoint::F11 => Vec3 { x: 100962, y: 100000, z: 64350 },
        }
    }
}

/// The unweighted primaries matrix `N` for each primaries set, row-major.
/// Column `j` is `[x, y, 1 - x - y]` of primary `j`, scaled by
/// [`CHROMA_SCALE`]: a positive multiple of the CIE XYZ direction
/// `[x/y, 1, (1-x-y)/y]` of that primary, which leaves the derived weighted
/// matrix unchanged.  The placeholder `Xyz` case maps to the identity.
pub open spec fn sprimary_cols(p: Primaries) -> SMat3 {
    match p {
        Primaries::Xyz => sidentity(),
        Primaries::Bt601_525 | Primaries::Smpte240 => SMat3 {
            r0: SVec3 { x: 630, y: 310, z: 155 },
            r1: SVec3 { x: 340, y: 595, z: 70 },
            r2: SVec3 { x: 30, y: 95, z: 775 },
        },
        Primaries::Bt601_625 => SMat3 {
            r0: SVec3 { x: 640, y: 290, z: 150 },
            r1: SVec3 { x: 330, y: 600, z: 60 },
            r2: SVec3 { x: 30, y: 110, z: 790 },
        },
        Primaries::Bt709 => SMat3 {
            r0: SVec3 { x: 640, y: 300, z: 150 },
            r1: SVec3 { x: 330, y: 600, z: 60 },
            r2: SVec3 { x: 30, y: 100, z: 790 },
        },
        Primaries::Bt2020 | Primaries::Bt2100 => SMat3 {
            r0: SVec3 { x: 708, y: 170, z: 131 },
            r1: SVec3 { x: 292, y: 797, z: 46 },
            r2: SVec3 { x: 0, y: 33, z: 823 },
        },
    }
}

/// Numerators of the weighted primaries-to-XYZ matrix: each unweighted
/// column is scaled by the solved van Kries weight for the whitepoint.
pub open spec fn srgb_to_xyz_num(p: Primaries, w: Whitepoint) -> SMat3 {
    scol_scale(smul_vec(sinv_num(sprimary_cols(p)), swhite(w)), sprimary_cols(p))
}

/// Shared positive denominator of the weighted primaries-to-XYZ matrix.
pub open spec fn srgb_to_xyz_den(p: Primaries) -> int {
    sinv_den(sprimary_cols(p)) * (WHITE_SCALE as int)
}

/// Every standard primaries set yields an invertible unweighted matrix;
/// the determinants are computed outright per case.
pub proof fn lemma_primaries_invertible(p: Primaries)
    requires
        p != Primaries::Xyz,
    ensures
        sdet(sprimary_cols(p)) > 0,
{
    match p {
        Primaries::Xyz => {},
        Primaries::Bt601_525 | Primaries::Smpte240 => {
            assert(sdet(sprimary_cols(p)) == 207525000);
        },
        Primaries::Bt601_625 => {
            assert(sdet(sprimary_cols(p)) == 226800000);
        },
        Primaries::Bt709 => {
            assert(sdet(sprimary_cols(p)) == 224100000);
        },
        Primaries::Bt2020 | Primaries::Bt2100 => {
            assert(sdet(sprimary_cols(p)) == 423733000);
        },
    }
}

impl Primaries {
    /// The unweighted chromaticity columns of this primaries set, as an
    /// exact integer column matrix (see [`sprimary_cols`]).
    pub fn primary_columns(self) -> (r: ColMatrix)
        ensures
            scols_to_row(r) == sprimary_cols(self),
            smat_bounded(sprimary_cols(self), 1000),
            svec_bounded(scol(sprimary_cols(self), 0), 1000),
    {
        match self {
            Primaries::Xyz => ColMatrix {
                c0: Vec3 { x: 1, y: 0, z: 0 },
                c1: Vec3 { x: 0, y: 1, z: 0 },
                c2: Vec3 { x: 0, y: 0, z: 1 },
            },
            Primaries::Bt601_525 | Primaries::Smpte240 => ColMatrix {
                c0: Vec3 { x: 630, y: 340, z: 30 },
                c1: Vec3 { x: 310, y: 595, z: 95 },
                c2: Vec3 { x: 155, y: 70, z: 775 },
            },
            Primaries::Bt601_625 => ColMatrix {
                c0: Vec3 { x: 640, y: 330, z: 30 },
                c1: Vec3 { x: 290, y: 600, z: 110 },
                c2: Vec3 { x: 150, y: 60, z: 790 },
            },
            Primaries::Bt709 => ColMatrix {
                c0: Vec3 { x: 640, y: 330, z: 30 },
                c1: Vec3 { x: 300, y: 600, z: 100 },
                c2: Vec3 { x: 150, y: 60, z: 790 },
            },
            Primaries::Bt2020 | Primaries::Bt2100 => ColMatrix {
                c0: Vec3 { x: 708, y: 292, z: 0 },
                c1: Vec3 { x: 170, y: 797, z: 33 },
                c2: Vec3 { x: 131, y: 46, z: 823 },
            },
        }
    }

    /// The weighted linear map from this primaries' linear RGB to CIE XYZ,
    /// under the given illuminant, as an exact integer fraction matrix.
    ///
    /// This is the van Kries style construction: the unweighted chromaticity
    /// columns are scaled per channel so that equal RGB maps exactly onto the
    /// whitepoint's tristimulus (see [`lemma_whitepoint_preserved`]).  The
    /// placeholder `Xyz` primaries case has no derived matrix and reports
    /// `NotImplemented`; a singular table would report `SingularMatrix`, but
    /// that case is proved unreachable for the standard tables.
    pub fn to_xyz(self, white: Whitepoint) -> (r: Result<RowMatrix, ColorError>)
        ensures
            r is Ok <==> self != Primaries::Xyz,
            self == Primaries::Xyz ==> r == Err::<RowMatrix, ColorError>(
                ColorError::NotImplemented,
            ),
            r is Ok ==> ({
                let m = r->Ok_0;
                &&& m.m@ == srgb_to_xyz_num(self, white)
                &&& m.den as int == srgb_to_xyz_den(self)
                &&& 0 < m.den <= XYZ_DEN_LIMIT
                &&& smat_bounded(m.m@, XYZ_NUM_LIMIT as int)
            }),
    {
        if let Primaries::Xyz = self {
            return Err(ColorError::NotImplemented);
        }
        let cols = self.primary_columns();
        let ghost n = sprimary_cols(self);
        proof {
            lemma_primaries_invertible(self);
        }
        let inverse = match cols.inv() {
            Some(q) => q,
            None => {
                // unreachable: every standard primaries matrix is invertible
                return Err(ColorError::SingularMatrix);
            },
        };
        proof {
            lemma_sadj_bound(n, 1000);
            lemma_sdet_bound(n, 1000);
            assert(smat_bounded(inverse.m@, 2000000));
        }
        let w = white.to_xyz();
        let t = inverse.m.mul_vec(&w);
        proof {
            lemma_smul_vec_bound(inverse.m@, w@, 2000000, 200000);
            assert(svec_bounded(t@, 1200000000000));
            lemma_mul_bound(cols.c0.x as int, t.x as int, 1000, 1200000000000);
            lemma_mul_bound(cols.c0.y as int, t.x as int, 1000, 1200000000000);
            lemma_mul_bound(cols.c0.z as int, t.x as int, 1000, 1200000000000);
            lemma_mul_bound(cols.c1.x as int, t.y as int, 1000, 1200000000000);
            lemma_mul_bound(cols.c1.y as int, t.y as int, 1000, 1200000000000);
            lemma_mul_bound(cols.c1.z as int, t.y as int, 1000, 1200000000000);
            lemma_mul_bound(cols.c2.x as int, t.z as int, 1000, 1200000000000);
            lemma_mul_bound(cols.c2.y as int, t.z as int, 1000, 1200000000000);
            lemma_mul_bound(cols.c2.z as int, t.z as int, 1000, 1200000000000);
        }
        let num = Mat3 {
            r0: Vec3 { x: cols.c0.x * t.x, y: cols.c1.x * t.y, z: cols.c2.x * t.z },
            r1: Vec3 { x: cols.c0.y * t.x, y: cols.c1.y * t.y, z: cols.c2.y * t.z },
            r2: Vec3 { x: cols.c0.z * t.x, y: cols.c1.z * t.y, z: cols.c2.z * t.z },
        };
        let den = inverse.den * WHITE_SCALE;
        Ok(RowMatrix { m: num, den })
    }
}

/// Whitepoint preservation: multiplying the derived primaries-to-XYZ matrix
/// by equal RGB `[1, 1, 1]` yields the whitepoint's tristimulus exactly:
/// each row sum of the numerators, rescaled by [`WHITE_SCALE`], equals the
/// corresponding tristimulus coordinate times the matrix denominator.
pub proof fn lemma_whitepoint_preserved(p: Primaries, w: Whitepoint)
    requires
        p != Primaries::Xyz,
    ensures
        ({
            let a = srgb_to_xyz_num(p, w);
            let d = srgb_to_xyz_den(p);
            &&& (a.r0.x + a.r0.y + a.r0.z) * (WHITE_SCALE as int) == swhite(w).x * d
            &&& (a.r1.x + a.r1.y + a.r1.z) * (WHITE_SCALE as int) == swhite(w).y * d
            &&& (a.r2.x + a.r2.y + a.r2.z) * (WHITE_SCALE as int) == swhite(w).z * d
        }),
{
    let n = sprimary_cols(p);
    let q = sinv_num(n);
    let dv = sinv_den(n);
    let wv = swhite(w);
    let t = smul_vec(q, wv);
    lemma_adj_identity(n);
    if sdet(n) < 0 {
        lemma_sdot_neg_right(n.r0, scol(sadj(n), 0));
        lemma_sdot_neg_right(n.r0, scol(sadj(n), 1));
        lemma_sdot_neg_right(n.r0, scol(sadj(n), 2));
        lemma_sdot_neg_right(n.r1, scol(sadj(n), 0));
        lemma_sdot_neg_right(n.r1, scol(sadj(n), 1));
        lemma_sdot_neg_right(n.r1, scol(sadj(n), 2));
        lemma_sdot_neg_right(n.r2, scol(sadj(n), 0));
        lemma_sdot_neg_right(n.r2, scol(sadj(n), 1));
        lemma_sdot_neg_right(n.r2, scol(sadj(n), 2));
    }
    assert(smul_mat(n, q) == sscale_mat(dv, sidentity()));
    lemma_row_solve(n.r0, q, wv, dv, 0, 0);
    lemma_row_solve(n.r1, q, wv, 0, dv, 0);
    lemma_row_solve(n.r2, q, wv, 0, 0, dv);
    assert((dv * wv.x) * (WHITE_SCALE as int) == wv.x * (dv * (WHITE_SCALE as int)))
        by (nonlinear_arith);
    assert((dv * wv.y) * (WHITE_SCALE as int) == wv.y * (dv * (WHITE_SCALE as int)))
        by (nonlinear_arith);
    assert((dv * wv.z) * (WHITE_SCALE as int) == wv.z * (dv * (WHITE_SCALE as int)))
        by (nonlinear_arith);
}

} // verus!
