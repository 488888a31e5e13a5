use pixcolor::color::rgb::RgbColorSpace;
use pixcolor::color::transfer::CurveStep;
use pixcolor::color::transfer::Transfer;
use pixcolor::color::ColorError;
use pixcolor::color::Luminance;
use pixcolor::color::Primaries;
use pixcolor::color::Whitepoint;
use pixcolor::convert::Frac;
use pixcolor::convert::Pixel;
use pixcolor::matrix::Vec3;

fn pixel(r: (i128, i128), g: (i128, i128), b: (i128, i128)) -> Pixel {
    Pixel {
        r: Frac { num: r.0, den: r.1 },
        g: Frac { num: g.0, den: g.1 },
        b: Frac { num: b.0, den: b.1 },
        a: Frac { num: 1, den: 1 },
    }
}

#[test]
fn whitepoint_table_d65() {
    let w = Whitepoint::D65.to_xyz();
    assert_eq!(w, Vec3 { x: 95047, y: 100000, z: 108883 });
    let e = Whitepoint::E.to_xyz();
    assert_eq!(e, Vec3 { x: 100000, y: 100000, z: 100000 });
}

#[test]
fn matrix_literal_bt709_d65() {
    // the standard published sRGB RGB -> XYZ matrix, to 3 decimal places
    let m = Primaries::Bt709.to_xyz(Whitepoint::D65).unwrap();
    let d = m.den as f64;
    let expect = [
        [0.4124, 0.3576, 0.1805],
        [0.2126, 0.7152, 0.0722],
        [0.0193, 0.1192, 0.9505],
    ];
    let rows = [m.m.r0, m.m.r1, m.m.r2];
    for i in 0..3 {
        let got = [rows[i].x as f64 / d, rows[i].y as f64 / d, rows[i].z as f64 / d];
        for j in 0..3 {
            assert!((got[j] - expect[i][j]).abs() < 5e-4, "entry {} {}: {}", i, j, got[j]);
        }
    }
}

#[test]
fn whitepoint_preservation_exact() {
    // equal RGB [1,1,1] maps exactly onto the whitepoint tristimulus
    let primaries = [
        Primaries::Bt601_525,
        Primaries::Bt601_625,
        Primaries::Bt709,
        Primaries::Smpte240,
        Primaries::Bt2020,
        Primaries::Bt2100,
    ];
    let whites = [
        Whitepoint::A,
        Whitepoint::B,
        Whitepoint::C,
        Whitepoint::D50,
        Whitepoint::D55,
        Whitepoint::D65,
        Whitepoint::D75,
        Whitepoint::E,
        Whitepoint::F2,
        Whitepoint::F7,
        Whitepoint::F11,
    ];
    for p in primaries {
        for w in whites {
            let m = p.to_xyz(w).unwrap();
            let wx = w.to_xyz();
            let rows = [m.m.r0, m.m.r1, m.m.r2];
            let want = [wx.x, wx.y, wx.z];
            for i in 0..3 {
                let sum = rows[i].x + rows[i].y + rows[i].z;
                assert_eq!(sum * 100000, want[i] * m.den);
            }
        }
    }
}

#[test]
fn not_implemented_surfaces() {
    assert_eq!(Transfer::Bt2100Pq.curve_step(), Err(ColorError::NotImplemented));
    assert_eq!(Transfer::Bt2100Hlg.curve_step(), Err(ColorError::NotImplemented));
    assert_eq!(Transfer::Bt2020_12bit.curve_step(), Err(ColorError::NotImplemented));
    assert_eq!(Transfer::Bt2100Scene.curve_step(), Err(ColorError::NotImplemented));
    assert_eq!(
        Primaries::Xyz.to_xyz(Whitepoint::D65),
        Err(ColorError::NotImplemented)
    );
    assert_eq!(
        Primaries::Xyz.xyz_to_rgb(Whitepoint::D65),
        Err(ColorError::NotImplemented)
    );
}

#[test]
fn curve_dispatch() {
    assert_eq!(Transfer::Linear.curve_step(), Ok(CurveStep::Identity));
    assert_eq!(Transfer::Srgb.curve_step(), Ok(CurveStep::Curve(Transfer::Srgb)));
    assert!(Transfer::Smpte2084.is_implemented());
    assert!(!Transfer::Smpte2084.has_vectorized_form());
    assert!(Transfer::Bt2020_10bit.has_vectorized_form());
    assert!(!Transfer::Bt2100Pq.is_implemented());
}

#[test]
fn inverse_round_trip_bt709() {
    // linear RGB -> XYZ -> linear RGB recovers the triple exactly
    let fwd = Primaries::Bt709.to_xyz(Whitepoint::D65).unwrap();
    let inv = Primaries::Bt709.xyz_to_rgb(Whitepoint::D65).unwrap();
    let cases = [
        ((0, 1), (0, 1), (0, 1)),
        ((1, 1), (1, 1), (1, 1)),
        ((1, 1), (0, 1), (0, 1)),
        ((0, 1), (1, 1), (0, 1)),
        ((0, 1), (0, 1), (1, 1)),
        ((2, 4), (1, 4), (3, 4)),
    ];
    for (r, g, b) in cases {
        let v = pixel((r.0, r.1), (g.0, g.1), (b.0, b.1));
        let x = fwd.mul_pixel(&v);
        let o = inv.mul_pixel(&x);
        assert_eq!(o.r.num * v.r.den, v.r.num * o.r.den);
        assert_eq!(o.g.num * v.g.den, v.g.num * o.g.den);
        assert_eq!(o.b.num * v.b.den, v.b.num * o.b.den);
        assert_eq!(o.a, v.a);
    }
}

#[test]
fn identity_conversion_exact() {
    // converting between identical descriptors leaves the value unchanged
    let fwd = Primaries::Bt2020.to_xyz(Whitepoint::D50).unwrap();
    let inv = Primaries::Bt2020.xyz_to_rgb(Whitepoint::D50).unwrap();
    let v = pixel((7, 16), (3, 16), (11, 16));
    let o = inv.mul_pixel(&fwd.mul_pixel(&v));
    assert_eq!(o.r.num * v.r.den, v.r.num * o.r.den);
    assert_eq!(o.g.num * v.g.den, v.g.num * o.g.den);
    assert_eq!(o.b.num * v.b.den, v.b.num * o.b.den);
    assert_eq!(o.a, v.a);
}

#[test]
fn descriptor_constants() {
    let srgb = RgbColorSpace::srgb();
    assert_eq!(srgb.primary, Primaries::Bt709);
    assert_eq!(srgb.transfer, Transfer::Srgb);
    assert_eq!(srgb.whitepoint, Whitepoint::D65);
    assert_eq!(srgb.luminance, Luminance::Sdr);
    let bt = RgbColorSpace::bt709_rgb();
    assert_eq!(bt.transfer, Transfer::Bt709);
    assert_eq!(bt.primary, Primaries::Bt709);
}
