use hagane_simd::{
    double2, double2x4, double3, double3x4, double4, double4x2, double4x3, double4x4, float2,
    float2x2, float3, float3x2,
};

fn d(x: f64) -> u64 {
    x.to_bits()
}

fn lanes4(v: double4) -> (u64, u64, u64, u64) {
    (v.0, v.1, v.2, v.3)
}

#[test]
fn transpose_gathers_rows() {
    let m = double4x2(double2(1, 2), double2(3, 4), double2(5, 6), double2(7, 8));
    let t = m.transpose();
    assert_eq!(lanes4(t.0), (1, 3, 5, 7));
    assert_eq!(lanes4(t.1), (2, 4, 6, 8));
    let m = double4x3(double3(1, 2, 3), double3(4, 5, 6), double3(7, 8, 9), double3(10, 11, 12));
    let t: double3x4 = m.transpose();
    assert_eq!(lanes4(t.0), (1, 4, 7, 10));
    assert_eq!(lanes4(t.1), (2, 5, 8, 11));
    assert_eq!(lanes4(t.2), (3, 6, 9, 12));
}

#[test]
fn transpose_twice_is_the_matrix() {
    let m = double4x2(double2(1, 2), double2(3, 4), double2(5, 6), double2(7, 8));
    let b = m.transpose().transpose();
    assert_eq!(((b.0).0, (b.0).1, (b.1).0, (b.1).1), (1, 2, 3, 4));
    assert_eq!(((b.2).0, (b.2).1, (b.3).0, (b.3).1), (5, 6, 7, 8));
    let m = double4x4(double4(1, 2, 3, 4), double4(5, 6, 7, 8), double4(9, 10, 11, 12), double4(13, 14, 15, 16));
    let b = m.transpose().transpose();
    assert_eq!(lanes4(b.0), (1, 2, 3, 4));
    assert_eq!(lanes4(b.1), (5, 6, 7, 8));
    assert_eq!(lanes4(b.2), (9, 10, 11, 12));
    assert_eq!(lanes4(b.3), (13, 14, 15, 16));
    let m = float3x2(float2(1, 2), float2(3, 4), float2(5, 6));
    let t = m.transpose();
    assert_eq!(((t.0).0, (t.0).1, (t.0).2), (1, 3, 5));
    assert_eq!(((t.1).0, (t.1).1, (t.1).2), (2, 4, 6));
    let b = t.transpose();
    assert_eq!(((b.0).0, (b.0).1, (b.1).0, (b.1).1, (b.2).0, (b.2).1), (1, 2, 3, 4, 5, 6));
}

#[test]
fn from_rows_and_columns() {
    let m = double4x2::from_rows(double4(1, 2, 3, 4), double4(5, 6, 7, 8));
    assert_eq!(((m.0).0, (m.0).1), (1, 5));
    assert_eq!(((m.1).0, (m.1).1), (2, 6));
    assert_eq!(((m.2).0, (m.2).1), (3, 7));
    assert_eq!(((m.3).0, (m.3).1), (4, 8));
    let c = double4x2::from_columns(double2(1, 5), double2(2, 6), double2(3, 7), double2(4, 8));
    assert_eq!(lanes4(c.transpose().0), lanes4(m.transpose().0));
    assert_eq!(lanes4(c.transpose().1), lanes4(m.transpose().1));
    let r = double2x4::from_rows(double2(1, 2), double2(3, 4), double2(5, 6), double2(7, 8));
    assert_eq!(lanes4(r.0), (1, 3, 5, 7));
    assert_eq!(lanes4(r.1), (2, 4, 6, 8));
    let s = float2x2::from_rows(float2(1, 2), float2(3, 4));
    assert_eq!(((s.0).0, (s.0).1, (s.1).0, (s.1).1), (1, 3, 2, 4));
    let q = float3(0, 0, 0);
    assert_eq!((q.0, q.1, q.2), (0, 0, 0));
}

#[test]
fn identity_scale_translation() {
    let i = double4x4::identity();
    assert_eq!(lanes4(i.0), (d(1.0), d(0.0), d(0.0), d(0.0)));
    assert_eq!(lanes4(i.1), (d(0.0), d(1.0), d(0.0), d(0.0)));
    assert_eq!(lanes4(i.2), (d(0.0), d(0.0), d(1.0), d(0.0)));
    assert_eq!(lanes4(i.3), (d(0.0), d(0.0), d(0.0), d(1.0)));
    let s = double4x4::from_scale(d(2.5));
    assert_eq!(lanes4(s.0), (d(2.5), d(0.0), d(0.0), d(0.0)));
    assert_eq!(lanes4(s.1), (d(0.0), d(2.5), d(0.0), d(0.0)));
    assert_eq!(lanes4(s.2), (d(0.0), d(0.0), d(2.5), d(0.0)));
    assert_eq!(lanes4(s.3), (d(0.0), d(0.0), d(0.0), d(1.0)));
    let t = double4x4::from_translation(d(1.0), d(-2.0), d(3.0));
    assert_eq!(lanes4(t.0), (d(1.0), d(0.0), d(0.0), d(0.0)));
    assert_eq!(lanes4(t.3), (d(1.0), d(-2.0), d(3.0), d(1.0)));
    let it = i.transpose();
    assert_eq!(lanes4(it.0), lanes4(i.0));
    assert_eq!(lanes4(it.3), lanes4(i.3));
}
