//! The conversion orchestrator: exact pixels, conversion plans, and the
//! colorimetric pixel and buffer transforms between RGB descriptors.
//!
//! A pixel holds four exact fractions (R, G, B, alpha).  Conversion decodes
//! to linear RGB (curve application is classified by [`CurveStep`] and
//! carried out by the caller's numeric layer where a curve is irrational),
//! maps through the source primaries-to-XYZ matrix, through the exact
//! inverse of the destination matrix, and re-encodes.  Both whitepoint
//! relative XYZ values are treated as the same CIE XYZ; no chromatic
//! adaptation is applied when the whitepoints differ.

use vstd::prelude::*;

use crate::color::ColorError;
use crate::color::ColorSpace;
use crate::color::Primaries;
use crate::color::Whitepoint;
use crate::color::lemma_primaries_invertible;
use crate::color::srgb_to_xyz_den;
use crate::color::srgb_to_xyz_num;
use crate::color::swhite;
use crate::color::transfer::CurveStep;
use crate::color::transfer::Transfer;
use crate::color::transfer::spec_implemented;
use crate::matrix::Mat3;
use crate::matrix::RowMatrix;
use crate::matrix::SMat3;
use crate::matrix::SVec3;
use crate::matrix::Vec3;
use crate::matrix::lemma_adj_identity;
use crate::matrix::lemma_mul_bound;
use crate::matrix::lemma_row_solve;
use crate::matrix::lemma_sadj_bound;
use crate::matrix::sadj;
use crate::matrix::lemma_smul_vec_bound;
use crate::matrix::scol_scale;
use crate::matrix::scols_to_row;
use crate::matrix::sdet;
use crate::matrix::sdot;
use crate::matrix::sidentity;
use crate::matrix::sinv_den;
use crate::matrix::sinv_num;
use crate::matrix::smat_bounded;
use crate::matrix::smul_mat;
use crate::matrix::smul_vec;
use crate::matrix::sscale_mat;
use crate::matrix::svec_bounded;
use crate::traits::HasColorSpace;

verus! {

/// Magnitude accepted for incoming pixel numerators and denominators.
pub const PIXEL_LIMIT: i128 = 4_294_967_296;

/// Magnitude bound on XYZ-stage pixel numerators.
pub const XYZ_PIXEL_NUM_LIMIT: i128 = 20_000_000_000_000_000_000_000_000;

/// Upper bound on XYZ-stage pixel denominators.
pub const XYZ_PIXEL_DEN_LIMIT: i128 = 3_000_000_000_000_000_000_000_000;

/// Magnitude bound on the rows of an XYZ-to-RGB transform.
pub const INV_ROW_LIMIT: i128 = 200_000_000_000;

/// Upper bound on the per-row denominators of an XYZ-to-RGB transform.
pub const INV_DEN_LIMIT: i128 = 1_200_000_000_000;

/// An exact fraction; the denominator is kept positive.
#[derive(Clone, Copy, Debug, PartialEq, Eq, Structural)]
pub struct Frac {
    pub num: i128,
    pub den: i128,
}

/// A four-channel pixel value of exact fractions: R, G, B and alpha.
#[derive(Clone, Copy, Debug, PartialEq, Eq, Structural)]
pub struct Pixel {
    pub r: Frac,
    pub g: Frac,
    pub b: Frac,
    pub a: Frac,
}

impl HasColorSpace for Pixel {
    type ColorSpace = ColorSpace;
}

/// The three color numerators of a pixel as a vector.
pub open spec fn pvec(v: Pixel) -> SVec3 {
    SVec3 { x: v.r.num as int, y: v.g.num as int, z: v.b.num as int }
}

/// Positive denominators everywhere.
pub open spec fn pixel_wf(v: Pixel) -> bool {
    v.r.den > 0 && v.g.den > 0 && v.b.den > 0 && v.a.den > 0
}

/// The three color channels share one denominator.
pub open spec fn pixel_common_den(v: Pixel) -> bool {
    v.r.den == v.g.den && v.g.den == v.b.den
}

/// Channel magnitudes accepted at the entry of a conversion.
pub open spec fn pixel_small(v: Pixel) -> bool {
    svec_bounded(pvec(v), PIXEL_LIMIT as int) && v.r.den <= PIXEL_LIMIT
}

/// Channel magnitudes of an XYZ-stage pixel.
pub open spec fn pixel_xyz_bounded(v: Pixel) -> bool {
    svec_bounded(pvec(v), XYZ_PIXEL_NUM_LIMIT as int) && v.r.den <= XYZ_PIXEL_DEN_LIMIT
        && v.g.den <= XYZ_PIXEL_DEN_LIMIT && v.b.den <= XYZ_PIXEL_DEN_LIMIT
}

/// Well-formedness of a derived primaries-to-XYZ matrix.
pub open spec fn wf_fwd(m: RowMatrix) -> bool {
    smat_bounded(m.m@, crate::color::XYZ_NUM_LIMIT as int) && 0 < m.den
        <= crate::color::XYZ_DEN_LIMIT
}

/// The exact XYZ-to-RGB transform for a (primaries, whitepoint) pair:
/// row `i` of the result is applied as `out[i] = dot(rows[i], xyz) /
/// (dens[i] * xyz_den)`.
#[derive(Clone, Copy, Debug, PartialEq, Eq, Structural)]
pub struct XyzToRgb {
    pub rows: Mat3,
    pub dens: Vec3,
}

/// Well-formedness of an XYZ-to-RGB transform.
pub open spec fn wf_inv(s: XyzToRgb) -> bool {
    smat_bounded(s.rows@, INV_ROW_LIMIT as int) && 0 < s.dens@.x <= INV_DEN_LIMIT as int && 0
        < s.dens@.y <= INV_DEN_LIMIT as int && 0 < s.dens@.z <= INV_DEN_LIMIT as int
}

/// The solved van Kries weights for a (primaries, whitepoint) pair.
pub open spec fn st_weights(p: Primaries, w: Whitepoint) -> SVec3 {
    smul_vec(sinv_num(crate::color::sprimary_cols(p)), swhite(w))
}

/// Numerator rows of the exact XYZ-to-RGB transform.
pub open spec fn sxyz_to_rgb_rows(p: Primaries) -> SMat3 {
    sscale_mat(crate::color::WHITE_SCALE as int, sinv_num(crate::color::sprimary_cols(p)))
}

/// The solved weights are strictly positive for every standard primaries
/// and whitepoint pair; checked outright over the finite tables.
#[verifier::rlimit(100)]
pub proof fn lemma_weights_positive(p: Primaries, w: Whitepoint)
    requires
        p != Primaries::Xyz,
    ensures
        st_weights(p, w).x > 0,
        st_weights(p, w).y > 0,
        st_weights(p, w).z > 0,
{
    lemma_primaries_invertible(p);
    match p {
        Primaries::Xyz => {},
        Primaries::Bt601_525 | Primaries::Smpte240 => {
            assert(crate::color::sprimary_cols(p) == (SMat3 {
                r0: SVec3 { x: 630, y: 310, z: 155 },
                r1: SVec3 { x: 340, y: 595, z: 70 },
                r2: SVec3 { x: 30, y: 95, z: 775 },
            }));
            match w {
            Whitepoint::A => {
                assert(swhite(w) == (SVec3 { x: 109850, y: 100000, z: 35585 }));
                assert(st_weights(p, w) == (SVec3 { x: 24861946625, y: 19951241000, z: 6120710750 }))
                    by (nonlinear_arith)
                    requires
                        crate::color::sprimary_cols(p) == (SMat3 {
                            r0: SVec3 { x: 630, y: 310, z: 155 },
                            r1: SVec3 { x: 340, y: 595, z: 70 },
                            r2: SVec3 { x: 30, y: 95, z: 775 },
                        }),
                        swhite(w) == (SVec3 { x: 109850, y: 100000, z: 35585 }),
                ;
            },
            Whitepoint::B => {
                assert(swhite(w) == (SVec3 { x: 99072, y: 100000, z: 85223 }));
                assert(st_weights(p, w) == (SVec3 { x: 16462895125, y: 23195497000, z: 19339927750 }))
                    by (nonlinear_arith)
                    requires
                        crate::color::sprimary_cols(p) == (SMat3 {
                            r0: SVec3 { x: 630, y: 310, z: 155 },
                            r1: SVec3 { x: 340, y: 595, z: 70 },
                            r2: SVec3 { x: 30, y: 95, z: 775 },
                        }),
                        swhite(w) == (SVec3 { x: 99072, y: 100000, z: 85223 }),
                ;
            },
            Whitepoint::C => {
                assert(swhite(w) == (SVec3 { x: 98074, y: 100000, z: 118232 }));
                assert(st_weights(p, w) == (SVec3 { x: 13681369350, y: 23740251600, z: 28219781700 }))
                    by (nonlinear_arith)
                    requires
                        crate::color::sprimary_cols(p) == (SMat3 {
                            r0: SVec3 { x: 630, y: 310, z: 155 },
                            r1: SVec3 { x: 340, y: 595, z: 70 },
                            r2: SVec3 { x: 30, y: 95, z: 775 },
                        }),
                        swhite(w) == (SVec3 { x: 98074, y: 100000, z: 118232 }),
                ;
            },
            Whitepoint::D50 => {
                assert(swhite(w) == (SVec3 { x: 96422, y: 100000, z: 82521 }));
                assert(st_weights(p, w) == (SVec3 { x: 15449094925, y: 23864969800, z: 18573581350 }))
                    by (nonlinear_arith)
                    requires
                        crate::color::sprimary_cols(p) == (SMat3 {
                            r0: SVec3 { x: 630, y: 310, z: 155 },
                            r1: SVec3 { x: 340, y: 595, z: 70 },
                            r2: SVec3 { x: 30, y: 95, z: 775 },
                        }),
                        swhite(w) == (SVec3 { x: 96422, y: 100000, z: 82521 }),
                ;
            },
            Whitepoint::D55 => {
                assert(swhite(w) == (SVec3 { x: 95682, y: 100000, z: 92149 }));
                assert(st_weights(p, w) == (SVec3 { x: 14433768725, y: 24141206600, z: 21157152950 }))
                    by (nonlinear_arith)
                    requires
                        crate::color::sprimary_cols(p) == (SMat3 {
                            r0: SVec3 { x: 630, y: 310, z: 155 },
                            r1: SVec3 { x: 340, y: 595, z: 70 },
                            r2: SVec3 { x: 30, y: 95, z: 775 },
                        }),
                        swhite(w) == (SVec3 { x: 95682, y: 100000, z: 92149 }),
                ;
            },
            Whitepoint::D65 => {
                assert(swhite(w) == (SVec3 { x: 95047, y: 100000, z: 108883 }));
                assert(st_weights(p, w) == (SVec3 { x: 12965011750, y: 24451108000, z: 25656953500 }))
                    by (nonlinear_arith)
                    requires
                        crate::color::sprimary_cols(p) == (SMat3 {
                            r0: SVec3 { x: 630, y: 310, z: 155 },
                            r1: SVec3 { x: 340, y: 595, z: 70 },
                            r2: SVec3 { x: 30, y: 95, z: 775 },
                        }),
                        swhite(w) == (SVec3 { x: 95047, y: 100000, z: 108883 }),
                ;
            },
            Whitepoint::D75 => {
                assert(swhite(w) == (SVec3 { x: 94972, y: 100000, z: 122638 }));
                assert(st_weights(p, w) == (SVec3 { x: 11960854750, y: 24589006000, z: 29362154500 }))
                    by (nonlinear_arith)
                    requires
                        crate::color::sprimary_cols(p) == (SMat3 {
                            r0: SVec3 { x: 630, y: 310, z: 155 },
                            r1: SVec3 { x: 340, y: 595, z: 70 },
                            r2: SVec3 { x: 30, y: 95, z: 775 },
                        }),
                        swhite(w) == (SVec3 { x: 94972, y: 100000, z: 122638 }),
                ;
            },
            Whitepoint::E => {
                assert(swhite(w) == (SVec3 { x: 100000, y: 100000, z: 100000 }));
                assert(st_weights(p, w) == (SVec3 { x: 15842500000, y: 23080000000, z: 23335000000 }))
                    by (nonlinear_arith)
                    requires
                        crate::color::sprimary_cols(p) == (SMat3 {
                            r0: SVec3 { x: 630, y: 310, z: 155 },
                            r1: SVec3 { x: 340, y: 595, z: 70 },
                            r2: SVec3 { x: 30, y: 95, z: 775 },
                        }),
                        swhite(w) == (SVec3 { x: 100000, y: 100000, z: 100000 }),
                ;
            },
            Whitepoint::F2 => {
                assert(swhite(w) == (SVec3 { x: 99186, y: 100000, z: 67393 }));
                assert(st_weights(p, w) == (SVec3 { x: 17772166025, y: 23012359400, z: 14537281550 }))
                    by (nonlinear_arith)
                    requires
                        crate::color::sprimary_cols(p) == (SMat3 {
                            r0: SVec3 { x: 630, y: 310, z: 155 },
                            r1: SVec3 { x: 340, y: 595, z: 70 },
                            r2: SVec3 { x: 30, y: 95, z: 775 },
                        }),
                        swhite(w) == (SVec3 { x: 99186, y: 100000, z: 67393 }),
                ;
            },
            Whitepoint::F7 => {
                assert(swhite(w) == (SVec3 { x: 95041, y: 100000, z: 108747 }));
                assert(st_weights(p, w) == (SVec3 { x: 12971876300, y: 24451506800, z: 25620221600 }))
                    by (nonlinear_arith)
                    requires
                        crate::color::sprimary_cols(p) == (SMat3 {
                            r0: SVec3 { x: 630, y: 310, z: 155 },
                            r1: SVec3 { x: 340, y: 595, z: 70 },
                            r2: SVec3 { x: 30, y: 95, z: 775 },
                        }),
                        swhite(w) == (SVec3 { x: 95041, y: 100000, z: 108747 }),
                ;
            },
            Whitepoint::F11 => {
                assert(swhite(w) == (SVec3 { x: 100962, y: 100000, z: 64350 }));
                assert(st_weights(p, w) == (SVec3 { x: 18793921200, y: 22521943200, z: 13743008400 }))
                    by (nonlinear_arith)
                    requires
                        crate::color::sprimary_cols(p) == (SMat3 {
                            r0: SVec3 { x: 630, y: 310, z: 155 },
                            r1: SVec3 { x: 340, y: 595, z: 70 },
                            r2: SVec3 { x: 30, y: 95, z: 775 },
                        }),
                        swhite(w) == (SVec3 { x: 100962, y: 100000, z: 64350 }),
                ;
            },
        }
        },
        Primaries::Bt601_625 => {
            assert(crate::color::sprimary_cols(p) == (SMat3 {
                r0: SVec3 { x: 640, y: 290, z: 150 },
                r1: SVec3 { x: 330, y: 600, z: 60 },
                r2: SVec3 { x: 30, y: 110, z: 790 },
            }));
            match w {
            Whitepoint::A => {
                assert(swhite(w) == (SVec3 { x: 109850, y: 100000, z: 35585 }));
                assert(st_weights(p, w) == (SVec3 { x: 27500419000, y: 22064828500, z: 6099410500 }))
                    by (nonlinear_arith)
                    requires
                        crate::color::sprimary_cols(p) == (SMat3 {
                            r0: SVec3 { x: 640, y: 290, z: 150 },
                            r1: SVec3 { x: 330, y: 600, z: 60 },
                            r2: SVec3 { x: 30, y: 110, z: 790 },
                        }),
                        swhite(w) == (SVec3 { x: 109850, y: 100000, z: 35585 }),
                ;
            },
            Whitepoint::B => {
                assert(swhite(w) == (SVec3 { x: 99072, y: 100000, z: 85223 }));
                assert(st_weights(p, w) == (SVec3 { x: 18859063000, y: 25406234500, z: 20212808500 }))
                    by (nonlinear_arith)
                    requires
                        crate::color::sprimary_cols(p) == (SMat3 {
                            r0: SVec3 { x: 640, y: 290, z: 150 },
                            r1: SVec3 { x: 330, y: 600, z: 60 },
                            r2: SVec3 { x: 30, y: 110, z: 790 },
                        }),
                        swhite(w) == (SVec3 { x: 99072, y: 100000, z: 85223 }),
                ;
            },
            Whitepoint::C => {
                assert(swhite(w) == (SVec3 { x: 98074, y: 100000, z: 118232 }));
                assert(st_weights(p, w) == (SVec3 { x: 15996144400, y: 26031016600, z: 29711039800 }))
                    by (nonlinear_arith)
                    requires
                        crate::color::sprimary_cols(p) == (SMat3 {
                            r0: SVec3 { x: 640, y: 290, z: 150 },
                            r1: SVec3 { x: 330, y: 600, z: 60 },
                            r2: SVec3 { x: 30, y: 110, z: 790 },
                        }),
                        swhite(w) == (SVec3 { x: 98074, y: 100000, z: 118232 }),
                ;
            },
            Whitepoint::D50 => {
                assert(swhite(w) == (SVec3 { x: 96422, y: 100000, z: 82521 }));
                assert(st_weights(p, w) == (SVec3 { x: 17816618200, y: 26062327300, z: 19385326900 }))
                    by (nonlinear_arith)
                    requires
                        crate::color::sprimary_cols(p) == (SMat3 {
                            r0: SVec3 { x: 640, y: 290, z: 150 },
                            r1: SVec3 { x: 330, y: 600, z: 60 },
                            r2: SVec3 { x: 30, y: 110, z: 790 },
                        }),
                        swhite(w) == (SVec3 { x: 96422, y: 100000, z: 82521 }),
                ;
            },
            Whitepoint::D55 => {
                assert(swhite(w) == (SVec3 { x: 95682, y: 100000, z: 92149 }));
                assert(st_weights(p, w) == (SVec3 { x: 16771749400, y: 26360784100, z: 22147537300 }))
                    by (nonlinear_arith)
                    requires
                        crate::color::sprimary_cols(p) == (SMat3 {
                            r0: SVec3 { x: 640, y: 290, z: 150 },
                            r1: SVec3 { x: 330, y: 600, z: 60 },
                            r2: SVec3 { x: 30, y: 110, z: 790 },
                        }),
                        swhite(w) == (SVec3 { x: 95682, y: 100000, z: 92149 }),
                ;
            },
            Whitepoint::D65 => {
                assert(swhite(w) == (SVec3 { x: 95047, y: 100000, z: 108883 }));
                assert(st_weights(p, w) == (SVec3 { x: 15260062000, y: 26710933000, z: 26960329000 }))
                    by (nonlinear_arith)
                    requires
                        crate::color::sprimary_cols(p) == (SMat3 {
                            r0: SVec3 { x: 640, y: 290, z: 150 },
                            r1: SVec3 { x: 330, y: 600, z: 60 },
                            r2: SVec3 { x: 30, y: 110, z: 790 },
                        }),
                        swhite(w) == (SVec3 { x: 95047, y: 100000, z: 108883 }),
                ;
            },
            Whitepoint::D75 => {
                assert(swhite(w) == (SVec3 { x: 94972, y: 100000, z: 122638 }));
                assert(st_weights(p, w) == (SVec3 { x: 14226394000, y: 26883031000, z: 30924523000 }))
                    by (nonlinear_arith)
                    requires
                        crate::color::sprimary_cols(p) == (SMat3 {
                            r0: SVec3 { x: 640, y: 290, z: 150 },
                            r1: SVec3 { x: 330, y: 600, z: 60 },
                            r2: SVec3 { x: 30, y: 110, z: 790 },
                        }),
                        swhite(w) == (SVec3 { x: 94972, y: 100000, z: 122638 }),
                ;
            },
            Whitepoint::E => {
                assert(swhite(w) == (SVec3 { x: 100000, y: 100000, z: 100000 }));
                assert(st_weights(p, w) == (SVec3 { x: 18220000000, y: 25330000000, z: 24490000000 }))
                    by (nonlinear_arith)
                    requires
                        crate::color::sprimary_cols(p) == (SMat3 {
                            r0: SVec3 { x: 640, y: 290, z: 150 },
                            r1: SVec3 { x: 330, y: 600, z: 60 },
                            r2: SVec3 { x: 30, y: 110, z: 790 },
                        }),
                        swhite(w) == (SVec3 { x: 100000, y: 100000, z: 100000 }),
                ;
            },
            Whitepoint::F2 => {
                assert(swhite(w) == (SVec3 { x: 99186, y: 100000, z: 67393 }));
                assert(st_weights(p, w) == (SVec3 { x: 20206804600, y: 25178806900, z: 15074505700 }))
                    by (nonlinear_arith)
                    requires
                        crate::color::sprimary_cols(p) == (SMat3 {
                            r0: SVec3 { x: 640, y: 290, z: 150 },
                            r1: SVec3 { x: 330, y: 600, z: 60 },
                            r2: SVec3 { x: 30, y: 110, z: 790 },
                        }),
                        swhite(w) == (SVec3 { x: 99186, y: 100000, z: 67393 }),
                ;
            },
            Whitepoint::F7 => {
                assert(swhite(w) == (SVec3 { x: 95041, y: 100000, z: 108747 }));
                assert(st_weights(p, w) == (SVec3 { x: 15267131200, y: 26710976800, z: 26921010400 }))
                    by (nonlinear_arith)
                    requires
                        crate::color::sprimary_cols(p) == (SMat3 {
                            r0: SVec3 { x: 640, y: 290, z: 150 },
                            r1: SVec3 { x: 330, y: 600, z: 60 },
                            r2: SVec3 { x: 30, y: 110, z: 790 },
                        }),
                        swhite(w) == (SVec3 { x: 95041, y: 100000, z: 108747 }),
                ;
            },
            Whitepoint::F11 => {
                assert(swhite(w) == (SVec3 { x: 100962, y: 100000, z: 64350 }));
                assert(st_weights(p, w) == (SVec3 { x: 21257828800, y: 24685223200, z: 14229709600 }))
                    by (nonlinear_arith)
                    requires
                        crate::color::sprimary_cols(p) == (SMat3 {
                            r0: SVec3 { x: 640, y: 290, z: 150 },
                            r1: SVec3 { x: 330, y: 600, z: 60 },
                            r2: SVec3 { x: 30, y: 110, z: 790 },
                        }),
                        swhite(w) == (SVec3 { x: 100962, y: 100000, z: 64350 }),
                ;
            },
        }
        },
        Primaries::Bt709 => {
            assert(crate::color::sprimary_cols(p) == (SMat3 {
                r0: SVec3 { x: 640, y: 300, z: 150 },
                r1: SVec3 { x: 330, y: 600, z: 60 },
                r2: SVec3 { x: 30, y: 100, z: 790 },
            }));
            match w {
            Whitepoint::A => {
                assert(swhite(w) == (SVec3 { x: 109850, y: 100000, z: 35585 }));
                assert(st_weights(p, w) == (SVec3 { x: 26647680000, y: 22064828500, z: 6289475000 }))
                    by (nonlinear_arith)
                    requires
                        crate::color::sprimary_cols(p) == (SMat3 {
                            r0: SVec3 { x: 640, y: 300, z: 150 },
                            r1: SVec3 { x: 330, y: 600, z: 60 },
                            r2: SVec3 { x: 30, y: 100, z: 790 },
                        }),
                        swhite(w) == (SVec3 { x: 109850, y: 100000, z: 35585 }),
                ;
            },
            Whitepoint::B => {
                assert(swhite(w) == (SVec3 { x: 99072, y: 100000, z: 85223 }));
                assert(st_weights(p, w) == (SVec3 { x: 18029640000, y: 25406234500, z: 20274635000 }))
                    by (nonlinear_arith)
                    requires
                        crate::color::sprimary_cols(p) == (SMat3 {
                            r0: SVec3 { x: 640, y: 300, z: 150 },
                            r1: SVec3 { x: 330, y: 600, z: 60 },
                            r2: SVec3 { x: 30, y: 100, z: 790 },
                        }),
                        swhite(w) == (SVec3 { x: 99072, y: 100000, z: 85223 }),
                ;
            },
            Whitepoint::C => {
                assert(swhite(w) == (SVec3 { x: 98074, y: 100000, z: 118232 }));
                assert(st_weights(p, w) == (SVec3 { x: 15185928000, y: 26031016600, z: 29667230000 }))
                    by (nonlinear_arith)
                    requires
                        crate::color::sprimary_cols(p) == (SMat3 {
                            r0: SVec3 { x: 640, y: 300, z: 150 },
                            r1: SVec3 { x: 330, y: 600, z: 60 },
                            r2: SVec3 { x: 30, y: 100, z: 790 },
                        }),
                        swhite(w) == (SVec3 { x: 98074, y: 100000, z: 118232 }),
                ;
            },
            Whitepoint::D50 => {
                assert(swhite(w) == (SVec3 { x: 96422, y: 100000, z: 82521 }));
                assert(st_weights(p, w) == (SVec3 { x: 16983984000, y: 26062327300, z: 19464815000 }))
                    by (nonlinear_arith)
                    requires
                        crate::color::sprimary_cols(p) == (SMat3 {
                            r0: SVec3 { x: 640, y: 300, z: 150 },
                            r1: SVec3 { x: 330, y: 600, z: 60 },
                            r2: SVec3 { x: 30, y: 100, z: 790 },
                        }),
                        swhite(w) == (SVec3 { x: 96422, y: 100000, z: 82521 }),
                ;
            },
            Whitepoint::D55 => {
                assert(swhite(w) == (SVec3 { x: 95682, y: 100000, z: 92149 }));
                assert(st_weights(p, w) == (SVec3 { x: 15944448000, y: 26360784100, z: 22197695000 }))
                    by (nonlinear_arith)
                    requires
                        crate::color::sprimary_cols(p) == (SMat3 {
                            r0: SVec3 { x: 640, y: 300, z: 150 },
                            r1: SVec3 { x: 330, y: 600, z: 60 },
                            r2: SVec3 { x: 30, y: 100, z: 790 },
                        }),
                        swhite(w) == (SVec3 { x: 95682, y: 100000, z: 92149 }),
                ;
            },
            Whitepoint::D65 => {
                assert(swhite(w) == (SVec3 { x: 95047, y: 100000, z: 108883 }));
                assert(st_weights(p, w) == (SVec3 { x: 14442420000, y: 26710933000, z: 26957360000 }))
                    by (nonlinear_arith)
                    requires
                        crate::color::sprimary_cols(p) == (SMat3 {
                            r0: SVec3 { x: 640, y: 300, z: 150 },
                            r1: SVec3 { x: 330, y: 600, z: 60 },
                            r2: SVec3 { x: 30, y: 100, z: 790 },
                        }),
                        swhite(w) == (SVec3 { x: 95047, y: 100000, z: 108883 }),
                ;
            },
            Whitepoint::D75 => {
                assert(swhite(w) == (SVec3 { x: 94972, y: 100000, z: 122638 }));
                assert(st_weights(p, w) == (SVec3 { x: 13416960000, y: 26883031000, z: 30876410000 }))
                    by (nonlinear_arith)
                    requires
                        crate::color::sprimary_cols(p) == (SMat3 {
                            r0: SVec3 { x: 640, y: 300, z: 150 },
                            r1: SVec3 { x: 330, y: 600, z: 60 },
                            r2: SVec3 { x: 30, y: 100, z: 790 },
                        }),
                        swhite(w) == (SVec3 { x: 94972, y: 100000, z: 122638 }),
                ;
            },
            Whitepoint::E => {
                assert(swhite(w) == (SVec3 { x: 100000, y: 100000, z: 100000 }));
                assert(st_weights(p, w) == (SVec3 { x: 17400000000, y: 25330000000, z: 24500000000 }))
                    by (nonlinear_arith)
                    requires
                        crate::color::sprimary_cols(p) == (SMat3 {
                            r0: SVec3 { x: 640, y: 300, z: 150 },
                            r1: SVec3 { x: 330, y: 600, z: 60 },
                            r2: SVec3 { x: 30, y: 100, z: 790 },
                        }),
                        swhite(w) == (SVec3 { x: 100000, y: 100000, z: 100000 }),
                ;
            },
            Whitepoint::F2 => {
                assert(swhite(w) == (SVec3 { x: 99186, y: 100000, z: 67393 }));
                assert(st_weights(p, w) == (SVec3 { x: 19366752000, y: 25178806900, z: 15194795000 }))
                    by (nonlinear_arith)
                    requires
                        crate::color::sprimary_cols(p) == (SMat3 {
                            r0: SVec3 { x: 640, y: 300, z: 150 },
                            r1: SVec3 { x: 330, y: 600, z: 60 },
                            r2: SVec3 { x: 30, y: 100, z: 790 },
                        }),
                        swhite(w) == (SVec3 { x: 99186, y: 100000, z: 67393 }),
                ;
            },
            Whitepoint::F7 => {
                assert(swhite(w) == (SVec3 { x: 95041, y: 100000, z: 108747 }));
                assert(st_weights(p, w) == (SVec3 { x: 14449404000, y: 26710976800, z: 26918510000 }))
                    by (nonlinear_arith)
                    requires
                        crate::color::sprimary_cols(p) == (SMat3 {
                            r0: SVec3 { x: 640, y: 300, z: 150 },
                            r1: SVec3 { x: 330, y: 600, z: 60 },
                            r2: SVec3 { x: 30, y: 100, z: 790 },
                        }),
                        swhite(w) == (SVec3 { x: 95041, y: 100000, z: 108747 }),
                ;
            },
            Whitepoint::F11 => {
                assert(swhite(w) == (SVec3 { x: 100962, y: 100000, z: 64350 }));
                assert(st_weights(p, w) == (SVec3 { x: 20417016000, y: 24685223200, z: 14354180000 }))
                    by (nonlinear_arith)
                    requires
                        crate::color::sprimary_cols(p) == (SMat3 {
                            r0: SVec3 { x: 640, y: 300, z: 150 },
                            r1: SVec3 { x: 330, y: 600, z: 60 },
                            r2: SVec3 { x: 30, y: 100, z: 790 },
                        }),
                        swhite(w) == (SVec3 { x: 100962, y: 100000, z: 64350 }),
                ;
            },
        }
        },
        Primaries::Bt2020 | Primaries::Bt2100 => {
            assert(crate::color::sprimary_cols(p) == (SMat3 {
                r0: SVec3 { x: 708, y: 170, z: 131 },
                r1: SVec3 { x: 292, y: 797, z: 46 },
                r2: SVec3 { x: 0, y: 33, z: 823 },
            }));
            match w {
            Whitepoint::A => {
                assert(swhite(w) == (SVec3 { x: 109850, y: 100000, z: 35585 }));
                assert(st_weights(p, w) == (SVec3 { x: 54891519655, y: 32071952540, z: 17035436660 }))
                    by (nonlinear_arith)
                    requires
                        crate::color::sprimary_cols(p) == (SMat3 {
                            r0: SVec3 { x: 708, y: 170, z: 131 },
                            r1: SVec3 { x: 292, y: 797, z: 46 },
                            r2: SVec3 { x: 0, y: 33, z: 823 },
                        }),
                        swhite(w) == (SVec3 { x: 109850, y: 100000, z: 35585 }),
                ;
            },
            Whitepoint::B => {
                assert(swhite(w) == (SVec3 { x: 99072, y: 100000, z: 85223 }));
                assert(st_weights(p, w) == (SVec3 { x: 43043870835, y: 34944220780, z: 42477081620 }))
                    by (nonlinear_arith)
                    requires
                        crate::color::sprimary_cols(p) == (SMat3 {
                            r0: SVec3 { x: 708, y: 170, z: 131 },
                            r1: SVec3 { x: 292, y: 797, z: 46 },
                            r2: SVec3 { x: 0, y: 33, z: 823 },
                        }),
                        swhite(w) == (SVec3 { x: 99072, y: 100000, z: 85223 }),
                ;
            },
            Whitepoint::C => {
                assert(swhite(w) == (SVec3 { x: 98074, y: 100000, z: 118232 }));
                assert(st_weights(p, w) == (SVec3 { x: 39202526378, y: 35371679304, z: 59455084616 }))
                    by (nonlinear_arith)
                    requires
                        crate::color::sprimary_cols(p) == (SMat3 {
                            r0: SVec3 { x: 708, y: 170, z: 131 },
                            r1: SVec3 { x: 292, y: 797, z: 46 },
                            r2: SVec3 { x: 0, y: 33, z: 823 },
                        }),
                        swhite(w) == (SVec3 { x: 98074, y: 100000, z: 118232 }),
                ;
            },
            Whitepoint::D50 => {
                assert(swhite(w) == (SVec3 { x: 96422, y: 100000, z: 82521 }));
                assert(st_weights(p, w) == (SVec3 { x: 41570654459, y: 35565700012, z: 41060999748 }))
                    by (nonlinear_arith)
                    requires
                        crate::color::sprimary_cols(p) == (SMat3 {
                            r0: SVec3 { x: 708, y: 170, z: 131 },
                            r1: SVec3 { x: 292, y: 797, z: 46 },
                            r2: SVec3 { x: 0, y: 33, z: 823 },
                        }),
                        swhite(w) == (SVec3 { x: 96422, y: 100000, z: 82521 }),
                ;
            },
            Whitepoint::D55 => {
                assert(swhite(w) == (SVec3 { x: 95682, y: 100000, z: 92149 }));
                assert(st_weights(p, w) == (SVec3 { x: 40156449203, y: 35798259404, z: 46008784516 }))
                    by (nonlinear_arith)
                    requires
                        crate::color::sprimary_cols(p) == (SMat3 {
                            r0: SVec3 { x: 708, y: 170, z: 131 },
                            r1: SVec3 { x: 292, y: 797, z: 46 },
                            r2: SVec3 { x: 0, y: 33, z: 823 },
                        }),
                        swhite(w) == (SVec3 { x: 95682, y: 100000, z: 92149 }),
                ;
            },
            Whitepoint::D65 => {
                assert(swhite(w) == (SVec3 { x: 95047, y: 100000, z: 108883 }));
                assert(st_weights(p, w) == (SVec3 { x: 38124610090, y: 36045976120, z: 54614584480 }))
                    by (nonlinear_arith)
                    requires
                        crate::color::sprimary_cols(p) == (SMat3 {
                            r0: SVec3 { x: 708, y: 170, z: 131 },
                            r1: SVec3 { x: 292, y: 797, z: 46 },
                            r2: SVec3 { x: 0, y: 33, z: 823 },
                        }),
                        swhite(w) == (SVec3 { x: 95047, y: 100000, z: 108883 }),
                ;
            },
            Whitepoint::D75 => {
                assert(swhite(w) == (SVec3 { x: 94972, y: 100000, z: 122638 }));
                assert(st_weights(p, w) == (SVec3 { x: 36746974930, y: 36142183240, z: 61692679960 }))
                    by (nonlinear_arith)
                    requires
                        crate::color::sprimary_cols(p) == (SMat3 {
                            r0: SVec3 { x: 708, y: 170, z: 131 },
                            r1: SVec3 { x: 292, y: 797, z: 46 },
                            r2: SVec3 { x: 0, y: 33, z: 823 },
                        }),
                        swhite(w) == (SVec3 { x: 94972, y: 100000, z: 122638 }),
                ;
            },
            Whitepoint::E => {
                assert(swhite(w) == (SVec3 { x: 100000, y: 100000, z: 100000 }));
                assert(st_weights(p, w) == (SVec3 { x: 42223900000, y: 34805200000, z: 50090800000 }))
                    by (nonlinear_arith)
                    requires
                        crate::color::sprimary_cols(p) == (SMat3 {
                            r0: SVec3 { x: 708, y: 170, z: 131 },
                            r1: SVec3 { x: 292, y: 797, z: 46 },
                            r2: SVec3 { x: 0, y: 33, z: 823 },
                        }),
                        swhite(w) == (SVec3 { x: 100000, y: 100000, z: 100000 }),
                ;
            },
            Whitepoint::F2 => {
                assert(swhite(w) == (SVec3 { x: 99186, y: 100000, z: 67393 }));
                assert(st_weights(p, w) == (SVec3 { x: 44840620127, y: 34815479036, z: 33302220244 }))
                    by (nonlinear_arith)
                    requires
                        crate::color::sprimary_cols(p) == (SMat3 {
                            r0: SVec3 { x: 708, y: 170, z: 131 },
                            r1: SVec3 { x: 292, y: 797, z: 46 },
                            r2: SVec3 { x: 0, y: 33, z: 823 },
                        }),
                        swhite(w) == (SVec3 { x: 99186, y: 100000, z: 67393 }),
                ;
            },
            Whitepoint::F7 => {
                assert(swhite(w) == (SVec3 { x: 95041, y: 100000, z: 108747 }));
                assert(st_weights(p, w) == (SVec3 { x: 38133819444, y: 36046644992, z: 54544536168 }))
                    by (nonlinear_arith)
                    requires
                        crate::color::sprimary_cols(p) == (SMat3 {
                            r0: SVec3 { x: 708, y: 170, z: 131 },
                            r1: SVec3 { x: 292, y: 797, z: 46 },
                            r2: SVec3 { x: 0, y: 33, z: 823 },
                        }),
                        swhite(w) == (SVec3 { x: 95041, y: 100000, z: 108747 }),
                ;
            },
            Whitepoint::F11 => {
                assert(swhite(w) == (SVec3 { x: 100962, y: 100000, z: 64350 }));
                assert(st_weights(p, w) == (SVec3 { x: 46296771856, y: 34371381408, z: 31753296432 }))
                    by (nonlinear_arith)
                    requires
                        crate::color::sprimary_cols(p) == (SMat3 {
                            r0: SVec3 { x: 708, y: 170, z: 131 },
                            r1: SVec3 { x: 292, y: 797, z: 46 },
                            r2: SVec3 { x: 0, y: 33, z: 823 },
                        }),
                        swhite(w) == (SVec3 { x: 100962, y: 100000, z: 64350 }),
                ;
            },
        }
        },
    }
}

/// A product of positive integers is positive.
pub proof fn lemma_mul_pos(a: int, b: int)
    by (nonlinear_arith)
    requires
        a > 0,
        b > 0,
    ensures
        a * b > 0,
{
}

impl Primaries {
    /// The exact inverse of the weighted primaries-to-XYZ map, in the
    /// per-row fraction form of [`XyzToRgb`].  `NotImplemented` exactly for
    /// the placeholder `Xyz` case; the singular case is proved unreachable
    /// for the standard tables.
    pub fn xyz_to_rgb(self, white: Whitepoint) -> (r: Result<XyzToRgb, ColorError>)
        ensures
            r is Ok <==> self != Primaries::Xyz,
            self == Primaries::Xyz ==> r == Err::<XyzToRgb, ColorError>(
                ColorError::NotImplemented,
            ),
            r is Ok ==> ({
                let s = r->Ok_0;
                &&& s.rows@ == sxyz_to_rgb_rows(self)
                &&& s.dens@ == st_weights(self, white)
                &&& wf_inv(s)
            }),
    {
        if let Primaries::Xyz = self {
            return Err(ColorError::NotImplemented);
        }
        let cols = self.primary_columns();
        let ghost n = crate::color::sprimary_cols(self);
        proof {
            lemma_primaries_invertible(self);
        }
        let inverse = match cols.inv() {
            Some(q) => q,
            None => {
                // unreachable: every standard primaries matrix is invertible
                return Err(ColorError::SingularMatrix);
            },
        };
        proof {
            lemma_sadj_bound(n, 1000);
            assert(smat_bounded(inverse.m@, 2000000));
        }
        let w = white.to_xyz();
        let t = inverse.m.mul_vec(&w);
        proof {
            lemma_smul_vec_bound(inverse.m@, w@, 2000000, 200000);
            lemma_weights_positive(self, white);
        }
        if t.x <= 0 || t.y <= 0 || t.z <= 0 {
            // unreachable: the solved weights are positive for all tables
            return Err(ColorError::SingularMatrix);
        }
        let q = inverse.m;
        let rows = Mat3 {
            r0: Vec3 {
                x: crate::color::WHITE_SCALE * q.r0.x,
                y: crate::color::WHITE_SCALE * q.r0.y,
                z: crate::color::WHITE_SCALE * q.r0.z,
            },
            r1: Vec3 {
                x: crate::color::WHITE_SCALE * q.r1.x,
                y: crate::color::WHITE_SCALE * q.r1.y,
                z: crate::color::WHITE_SCALE * q.r1.z,
            },
            r2: Vec3 {
                x: crate::color::WHITE_SCALE * q.r2.x,
                y: crate::color::WHITE_SCALE * q.r2.y,
                z: crate::color::WHITE_SCALE * q.r2.z,
            },
        };
        Ok(XyzToRgb { rows, dens: t })
    }
}

impl RowMatrix {
    /// Apply the forward primaries-to-XYZ map to a pixel whose color
    /// channels share one denominator; alpha passes through unchanged.
    pub fn mul_pixel(&self, v: &Pixel) -> (r: Pixel)
        requires
            wf_fwd(*self),
            pixel_wf(*v),
            pixel_common_den(*v),
            pixel_small(*v),
        ensures
            pvec(r) == smul_vec(self.m@, pvec(*v)),
            r.r.den == self.den * v.r.den,
            pixel_common_den(r),
            r.a == v.a,
            pixel_wf(r),
            pixel_xyz_bounded(r),
    {
        proof {
            let bm = crate::color::XYZ_NUM_LIMIT as int;
            let bv = PIXEL_LIMIT as int;
            lemma_mul_bound(self.m.r0.x as int, v.r.num as int, bm, bv);
            lemma_mul_bound(self.m.r0.y as int, v.g.num as int, bm, bv);
            lemma_mul_bound(self.m.r0.z as int, v.b.num as int, bm, bv);
            lemma_mul_bound(self.m.r1.x as int, v.r.num as int, bm, bv);
            lemma_mul_bound(self.m.r1.y as int, v.g.num as int, bm, bv);
            lemma_mul_bound(self.m.r1.z as int, v.b.num as int, bm, bv);
            lemma_mul_bound(self.m.r2.x as int, v.r.num as int, bm, bv);
            lemma_mul_bound(self.m.r2.y as int, v.g.num as int, bm, bv);
            lemma_mul_bound(self.m.r2.z as int, v.b.num as int, bm, bv);
            lemma_mul_bound(
                self.den as int,
                v.r.den as int,
                crate::color::XYZ_DEN_LIMIT as int,
                PIXEL_LIMIT as int,
            );
            lemma_mul_pos(self.den as int, v.r.den as int);
        }
        let den = self.den * v.r.den;
        Pixel {
            r: Frac {
                num: self.m.r0.x * v.r.num + self.m.r0.y * v.g.num + self.m.r0.z * v.b.num,
                den,
            },
            g: Frac {
                num: self.m.r1.x * v.r.num + self.m.r1.y * v.g.num + self.m.r1.z * v.b.num,
                den,
            },
            b: Frac {
                num: self.m.r2.x * v.r.num + self.m.r2.y * v.g.num + self.m.r2.z * v.b.num,
                den,
            },
            a: v.a,
        }
    }
}

impl XyzToRgb {
    /// Apply the exact XYZ-to-RGB map to an XYZ-stage pixel; the result has
    /// one denominator per color channel; alpha passes through unchanged.
    pub fn mul_pixel(&self, x: &Pixel) -> (r: Pixel)
        requires
            wf_inv(*self),
            pixel_wf(*x),
            pixel_common_den(*x),
            pixel_xyz_bounded(*x),
        ensures
            pvec(r) == smul_vec(self.rows@, pvec(*x)),
            r.r.den == self.dens.x * x.r.den,
            r.g.den == self.dens.y * x.g.den,
            r.b.den == self.dens.z * x.b.den,
            r.a == x.a,
            pixel_wf(r),
    {
        proof {
            let bm = INV_ROW_LIMIT as int;
            let bv = XYZ_PIXEL_NUM_LIMIT as int;
            lemma_mul_bound(self.rows.r0.x as int, x.r.num as int, bm, bv);
            lemma_mul_bound(self.rows.r0.y as int, x.g.num as int, bm, bv);
            lemma_mul_bound(self.rows.r0.z as int, x.b.num as int, bm, bv);
            lemma_mul_bound(self.rows.r1.x as int, x.r.num as int, bm, bv);
            lemma_mul_bound(self.rows.r1.y as int, x.g.num as int, bm, bv);
            lemma_mul_bound(self.rows.r1.z as int, x.b.num as int, bm, bv);
            lemma_mul_bound(self.rows.r2.x as int, x.r.num as int, bm, bv);
            lemma_mul_bound(self.rows.r2.y as int, x.g.num as int, bm, bv);
            lemma_mul_bound(self.rows.r2.z as int, x.b.num as int, bm, bv);
            lemma_mul_bound(self.dens.x as int, x.r.den as int, INV_DEN_LIMIT as int, XYZ_PIXEL_DEN_LIMIT as int);
            lemma_mul_bound(self.dens.y as int, x.g.den as int, INV_DEN_LIMIT as int, XYZ_PIXEL_DEN_LIMIT as int);
            lemma_mul_bound(self.dens.z as int, x.b.den as int, INV_DEN_LIMIT as int, XYZ_PIXEL_DEN_LIMIT as int);
            lemma_mul_pos(self.dens.x as int, x.r.den as int);
            lemma_mul_pos(self.dens.y as int, x.g.den as int);
            lemma_mul_pos(self.dens.z as int, x.b.den as int);
        }
        Pixel {
            r: Frac {
                num: self.rows.r0.x * x.r.num + self.rows.r0.y * x.g.num + self.rows.r0.z
                    * x.b.num,
                den: self.dens.x * x.r.den,
            },
            g: Frac {
                num: self.rows.r1.x * x.r.num + self.rows.r1.y * x.g.num + self.rows.r1.z
                    * x.b.num,
                den: self.dens.y * x.g.den,
            },
            b: Frac {
                num: self.rows.r2.x * x.r.num + self.rows.r2.y * x.g.num + self.rows.r2.z
                    * x.b.num,
                den: self.dens.z * x.b.den,
            },
            a: x.a,
        }
    }
}

} // verus!
