use hagane_simd::scalar::lane_i8::{abs_i8, div_i8, i8_to_u8_sat, rem_i8};
use hagane_simd::scalar::lane_i64::{i64_to_i8, i64_to_u8_sat};
use hagane_simd::{
    abs, all, any, char16, char2, char3, char4, char8, clamp, dot, double2, double3, float2,
    float3, float4, int2, int3, int4, long2, long4, long8, max, min, reduce_add, reduce_max,
    reduce_min, short2, short3, short4, uchar16, uchar2, uchar3, uchar4, uchar8, uint2, uint3,
    uint4, ulong2, ulong3, ulong4, ushort2, ushort3, ushort4, Dot, Integer, Scalar, Vector,
};

#[test]
fn add_commutes_and_wraps() {
    let x = char3(100, -100, 127);
    let y = char3(100, -100, 1);
    assert_eq!(x + y, char3(-56, 56, -128));
    assert_eq!(x + y, y + x);
    assert_eq!(uchar2(200, 1) + uchar2(100, 2), uchar2(44, 3));
}

#[test]
fn add_associates_under_overflow() {
    let x = short4(30000, -30000, 1, 32767);
    let y = short4(30000, -30000, 2, 1);
    let z = short4(-20000, 10000, 3, -2);
    assert_eq!((x + y) + z, x + (y + z));
}

#[test]
fn sub_swapped_is_negated() {
    let x = int3(5, i32::MIN, 7);
    let y = int3(9, 1, i32::MAX);
    assert_eq!(x - y, -(y - x));
    assert_eq!(x - y, int3(-4, i32::MAX, -2147483640));
    let u = uchar3(1, 200, 0);
    let v = uchar3(2, 100, 0);
    assert_eq!(u - v, -(v - u));
    assert_eq!(u - v, uchar3(255, 100, 0));
}

#[test]
fn scalar_operands_broadcast() {
    let x = short2(10, -3);
    assert_eq!(x + 5, short2(15, 2));
    assert_eq!(5 + x, short2(15, 2));
    assert_eq!(x - 5, short2(5, -8));
    assert_eq!(5 - x, short2(-5, 8));
    assert_eq!(x * 3, short2(30, -9));
    assert_eq!(3 * x, short2(30, -9));
    assert_eq!(x / 3, short2(3, -1));
    assert_eq!(30 / x, short2(3, -10));
    assert_eq!(x & 6, short2(2, 4));
    assert_eq!(6 | x, short2(14, -1));
    assert_eq!(x ^ 1, short2(11, -4));
    assert_eq!(x << 2, short2(40, -12));
    assert_eq!(x >> 1, short2(5, -2));
    assert_eq!(1 << short2(3, 4), short2(8, 16));
}

#[test]
fn mul_wraps() {
    assert_eq!(char2(16, -16) * char2(16, 8), char2(0, -128));
    assert_eq!(ulong2(1 << 63, 3) * ulong2(2, 5), ulong2(0, 15));
    assert_eq!(long2(i64::MAX, -3) * long2(2, 5), long2(-2, -15));
}

#[test]
fn div_rounds_toward_zero() {
    assert_eq!(char4(7, -7, 7, -7) / char4(2, 2, -2, -2), char4(3, -3, -3, 3));
    assert_eq!(uchar2(7, 255) / uchar2(2, 16), uchar2(3, 15));
    assert_eq!(div_i8(-128, -1), -128);
    assert_eq!(div_i8(-128, 1), -128);
    assert_eq!(div_i8(127, -128), 0);
    assert_eq!(div_i8(-128, -128), 1);
}

#[test]
fn rem_has_the_sign_of_the_dividend() {
    assert_eq!(char4(7, -7, 7, -7) % char4(2, 2, -2, -2), char4(1, -1, 1, -1));
    assert_eq!(uchar2(7, 255) % uchar2(2, 16), uchar2(1, 15));
    assert_eq!(rem_i8(-128, -1), 0);
    let x = int2(17, -17);
    let y = int2(5, 5);
    assert_eq!(x % y, x - (x / y) * y);
}

#[test]
fn neg_and_not() {
    assert_eq!(-char3(1, -128, 0), char3(-1, -128, 0));
    assert_eq!(-uchar2(1, 0), uchar2(255, 0));
    assert_eq!(!char2(0, -1), char2(-1, 0));
    assert_eq!(!char2(5, -6), char2(5 ^ -1, -6 ^ -1));
    assert_eq!(!ushort2(0, 0xFF00), ushort2(0xFFFF, 0x00FF));
    assert_eq!(!ushort2(0x1234, 1), ushort2(0x1234 ^ u16::MAX, 1 ^ u16::MAX));
}

#[test]
fn shifts() {
    assert_eq!(char2(1, -1) << char2(7, 1), char2(-128, -2));
    assert_eq!(char2(-128, 64) >> char2(7, 3), char2(-1, 8));
    assert_eq!(uchar2(128, 64) >> uchar2(7, 3), uchar2(1, 8));
    assert_eq!(ulong2(1, 3) << ulong2(63, 1), ulong2(1 << 63, 6));
}

#[test]
fn comparisons_give_masks() {
    let x = short3(1, 2, 3);
    let y = short3(3, 2, 1);
    assert_eq!(short3::eq(x, y), short3(0, -1, 0));
    assert_eq!(short3::ne(x, y), short3(-1, 0, -1));
    assert_eq!(short3::lt(x, y), short3(-1, 0, 0));
    assert_eq!(short3::le(x, y), short3(-1, -1, 0));
    assert_eq!(short3::gt(x, y), short3(0, 0, -1));
    assert_eq!(short3::ge(x, y), short3(0, -1, -1));
    assert_eq!(ushort2::lt(ushort2(1, 0xFFFF), ushort2(0xFFFF, 1)), short2(-1, 0));
    assert_eq!(ulong2::gt(ulong2(u64::MAX, 0), ulong2(1, 0)), long2(-1, 0));
}

#[test]
fn madd_is_product_plus_summand() {
    assert_eq!(char3::madd(char3(2, 16, -3), char3(3, 16, 5), char3(4, 1, 100)), char3(10, 1, 85));
    assert_eq!(uint2::madd(uint2(1 << 31, 7), uint2(2, 6), uint2(5, 0)), uint2(5, 42));
}

#[test]
fn abs_of_min_is_min() {
    assert_eq!(char3::abs(char3(-128, -127, 127)), char3(-128, 127, 127));
    assert_eq!(abs_i8(i8::MIN), i8::MIN);
    assert_eq!(long2::abs(long2(i64::MIN, -1)), long2(i64::MIN, 1));
    assert_eq!(short4::abs(short4(-5, 5, 0, i16::MIN)), short4(5, 5, 0, i16::MIN));
    assert_eq!(uchar2::abs(uchar2(200, 0)), uchar2(200, 0));
}

#[test]
fn abs_is_idempotent() {
    let x = char4(-128, -1, 0, 77);
    assert_eq!(char4::abs(char4::abs(x)), char4::abs(x));
    let y = int4(i32::MIN, i32::MAX, -3, 3);
    assert_eq!(abs(abs(y)), abs(y));
}

#[test]
fn max_min_clamp() {
    let x = char3(-5, 7, 100);
    let y = char3(3, -7, 100);
    assert_eq!(char3::max(x, y), char3(3, 7, 100));
    assert_eq!(char3::min(x, y), char3(-5, -7, 100));
    assert_eq!(char3::clamp(x, char3(0, 0, 0), char3(10, 5, 50)), char3(0, 5, 50));
    assert_eq!(max(uchar2(200, 1), uchar2(100, 2)), uchar2(200, 2));
    assert_eq!(min(uchar2(200, 1), uchar2(100, 2)), uchar2(100, 1));
    assert_eq!(clamp(long2(-9, 9), long2(-1, -1), long2(1, 1)), long2(-1, 1));
    assert_eq!(<i8 as Scalar>::max(-3, 2), 2);
    assert_eq!(<u64 as Scalar>::min(3, u64::MAX), 3);
}

#[test]
fn reductions() {
    assert_eq!(char3::reduce_add(char3(100, 100, 100)), 44);
    assert_eq!(long2::reduce_add(long2(i64::MAX, 1)), i64::MIN);
    assert_eq!(long2::reduce_min(long2(4, -4)), -4);
    assert_eq!(long2::reduce_max(long2(4, -4)), 4);
    assert_eq!(short4::reduce_min(short4(3, -9, 12, 0)), -9);
    assert_eq!(short4::reduce_max(short4(3, -9, 12, 0)), 12);
    assert_eq!(reduce_add(uchar4(100, 100, 100, 100)), 144);
    assert_eq!(reduce_min(uchar3(9, 3, 200)), 3);
    assert_eq!(reduce_max(uchar3(9, 3, 200)), 200);
    let x = uchar16(1, 2, 3, 4, 5, 6, 7, 8, 9, 10, 11, 12, 13, 14, 15, 200);
    assert_eq!(uchar16::reduce_add(x), 64);
    assert_eq!(uchar16::reduce_max(x), 200);
    assert_eq!(uchar16::reduce_min(x), 1);
}

#[test]
fn reduce_add_of_broadcast() {
    assert_eq!(char3::reduce_add(char3::broadcast(50)), (3 * 50i32) as i8);
    assert_eq!(char16::reduce_add(char16::broadcast(-9)), (16 * -9i32) as i8);
    assert_eq!(long8::reduce_add(long8::broadcast(i64::MAX)), i64::MAX.wrapping_mul(8));
    assert_eq!(ushort4::reduce_add(ushort4::broadcast(40000)), (4 * 40000u32) as u16);
    assert_eq!(int2::reduce_add(int2::broadcast(7)), 14);
}

#[test]
fn bitwise_reductions_and_truth() {
    let x = ushort2(0x8001, 0xF003);
    assert_eq!(x.reduce_and(), 0x8001);
    assert_eq!(x.reduce_or(), 0xF003);
    assert_eq!(x.reduce_xor(), 0x7002);
    assert!(x.all());
    assert!(x.any());
    let y = char3(-1, 0, -128);
    assert!(!y.all());
    assert!(y.any());
    assert!(all(char3(-1, -2, -128)));
    assert!(!any(char3(0, 1, 127)));
    assert!(!all(uchar4(0x80, 0xFF, 0x7F, 0x80)));
    assert!(any(uchar4(0, 0, 0x80, 0)));
    assert_eq!(char8(1, 3, 7, 15, 31, 63, 127, -1).reduce_and(), 1);
    assert_eq!(char8(1, 2, 4, 8, 16, 32, 64, -128).reduce_or(), -1);
    assert_eq!(char8(1, 1, 2, 2, 4, 4, 8, 9).reduce_xor(), 1);
}

#[test]
fn dot_products() {
    assert_eq!(short2(3, 4).dot(short2(5, 6)), 39);
    assert_eq!(dot(char3(100, 2, 3), char3(2, 3, 4)), (200 + 6 + 12i32) as i8);
    assert_eq!(uchar8(1, 2, 3, 4, 5, 6, 7, 8).dot(uchar8(8, 7, 6, 5, 4, 3, 2, 1)), 120);
    assert_eq!(long2(i64::MAX, 1).dot(long2(2, 2)), 0);
}

#[test]
fn saturating_conversions_clamp() {
    assert_eq!(char3::to_uchar_sat(char3(-128, -1, 127)), uchar3(0, 0, 127));
    assert_eq!(long2::to_uchar_sat(long2(-1, 256)), uchar2(0, 255));
    assert_eq!(long2::to_uchar_sat(long2(0, 255)), uchar2(0, 255));
    assert_eq!(long2::to_char_sat(long2(-129, 128)), char2(-128, 127));
    assert_eq!(long2::to_short_sat(long2(i64::MIN, i64::MAX)), short2(i16::MIN, i16::MAX));
    assert_eq!(long2::to_ushort_sat(long2(-5, 70000)), ushort2(0, 65535));
    assert_eq!(long2::to_int_sat(long2(1 << 40, -(1 << 40))), int2(i32::MAX, i32::MIN));
    assert_eq!(long2::to_uint_sat(long2(1 << 40, -1)), uint2(u32::MAX, 0));
    assert_eq!(long2::to_ulong_sat(long2(-1, 5)), ulong2(0, 5));
    assert_eq!(long2::to_long_sat(long2(-1, 5)), long2(-1, 5));
    assert_eq!(short4::to_char_sat(short4(-200, 200, -5, 5)), char4(-128, 127, -5, 5));
    assert_eq!(short4::to_uchar_sat(short4(-200, 300, 255, 0)), uchar4(0, 255, 255, 0));
    assert_eq!(short4::to_uint_sat(short4(-1, 1, i16::MIN, i16::MAX)), uint4(0, 1, 0, 32767));
    assert_eq!(short4::to_ulong_sat(short4(-1, 1, i16::MIN, i16::MAX)), ulong4(0, 1, 0, 32767));
    assert_eq!(short4::to_int_sat(short4(-1, 1, i16::MIN, i16::MAX)), int4(-1, 1, -32768, 32767));
    assert_eq!(short4::to_long_sat(short4(-1, 1, i16::MIN, i16::MAX)), long4(-1, 1, -32768, 32767));
    assert_eq!(ushort2::to_char_sat(ushort2(127, 128)), char2(127, 127));
    assert_eq!(ulong2::to_long_sat(ulong2(u64::MAX, 1)), long2(i64::MAX, 1));
    assert_eq!(ushort2(9, 50000).to_short_sat(), short2(9, i16::MAX));
    assert_eq!(i64_to_u8_sat(-7), 0);
    assert_eq!(i64_to_u8_sat(1000), 255);
    assert_eq!(i8_to_u8_sat(-1), 0);
}

#[test]
fn saturating_conversion_keeps_what_fits() {
    let x = long2(-128, 127);
    assert_eq!(long2::to_char_sat(x), long2::to_char(x));
    let fitted = long2::to_uchar_sat(long2(-3, 300));
    assert_eq!(uchar2::to_uchar_sat(fitted), fitted);
    assert_eq!(uchar2::to_long(fitted), long2(0, 255));
    assert_eq!(long2::to_uchar_sat(uchar2::to_long(fitted)), fitted);
}

#[test]
fn plain_conversions_wrap() {
    assert_eq!(long2::to_char(long2(0x1234, -1)), char2(0x34, -1));
    assert_eq!(long2::to_uchar(long2(0x1234, -1)), uchar2(0x34, 255));
    assert_eq!(long2::to_int(long2(0x1_8000_0000, -2)), int2(i32::MIN, -2));
    assert_eq!(long2::to_ulong(long2(-1, 1)), ulong2(u64::MAX, 1));
    assert_eq!(char3::to_short(char3(-1, 0, 127)), short3(-1, 0, 127));
    assert_eq!(char3::to_ushort(char3(-1, 0, 127)), ushort3(65535, 0, 127));
    assert_eq!(char3::to_uint(char3(-1, 0, 127)), uint3(u32::MAX, 0, 127));
    assert_eq!(char3::to_ulong(char3(-128, 0, 127)), ulong3(u64::MAX - 127, 0, 127));
    assert_eq!(char3::to_int(char3(-128, 0, 127)), int3(-128, 0, 127));
    assert_eq!(char3::to_char(char3(-128, 0, 127)), char3(-128, 0, 127));
    assert_eq!(uchar2::to_char(uchar2(255, 128)), char2(-1, -128));
    assert_eq!(i64_to_i8(0x180), -128);
}

#[test]
fn halves_and_interleaves() {
    let x = char4(1, 2, 3, 4);
    assert_eq!(x.lo(), char2(1, 2));
    assert_eq!(x.hi(), char2(3, 4));
    assert_eq!(x.odd(), char2(2, 4));
    assert_eq!(x.even(), char2(1, 3));
    let y = uchar3(7, 8, 9);
    assert_eq!(y.lo(), uchar2(7, 8));
    assert_eq!(y.hi(), uchar2(9, 0));
    assert_eq!(y.odd(), uchar2(8, 0));
    assert_eq!(y.even(), uchar2(7, 9));
    let z = long2(-1, 1);
    assert_eq!((z.lo(), z.hi(), z.odd(), z.even()), (-1, 1, 1, -1));
    let w = uchar16(0, 1, 2, 3, 4, 5, 6, 7, 8, 9, 10, 11, 12, 13, 14, 15);
    assert_eq!(w.lo(), uchar8(0, 1, 2, 3, 4, 5, 6, 7));
    assert_eq!(w.hi(), uchar8(8, 9, 10, 11, 12, 13, 14, 15));
    assert_eq!(w.odd(), uchar8(1, 3, 5, 7, 9, 11, 13, 15));
    assert_eq!(w.even(), uchar8(0, 2, 4, 6, 8, 10, 12, 14));
    let v = long8(0, 1, 2, 3, 4, 5, 6, 7);
    assert_eq!(v.lo(), long4(0, 1, 2, 3));
    assert_eq!(v.hi(), long4(4, 5, 6, 7));
    assert_eq!(v.odd(), long4(1, 3, 5, 7));
    assert_eq!(v.even(), long4(0, 2, 4, 6));
}

#[test]
fn extract_and_replace() {
    let x = short4(10, 20, 30, 40);
    assert_eq!(x.extract(0), 10);
    assert_eq!(x.extract(3), 40);
    assert_eq!(x.replace(2, -1), short4(10, 20, -1, 40));
    assert_eq!(x.replace(3, -1), short4(10, 20, 30, -1));
    assert_eq!(x.replace(0, -1).extract(0), -1);
    let f = float3(1, 2, 3);
    assert_eq!(f.extract(1), 2);
    let g = f.replace(1, 9);
    assert_eq!((g.0, g.1, g.2), (1, 9, 3));
}

#[test]
fn bitcast_round_trip() {
    let x = uint2(0xFFFF_FFFF, 0x3F80_0000);
    let f = float2::bitcast(x);
    assert_eq!((f.0, f.1), (0xFFFF_FFFF, 1.0f32.to_bits()));
    assert_eq!(uint2::bitcast(f), x);
    let i = int2::bitcast(x);
    assert_eq!(i, int2(-1, 0x3F80_0000));
    assert_eq!(uint2::bitcast(i), x);
    assert_eq!(int2::bitcast(float2::bitcast(i)), i);
    let c = char3(-1, -128, 5);
    assert_eq!(uchar3::bitcast(c), uchar3(255, 128, 5));
    assert_eq!(char3::bitcast(uchar3::bitcast(c)), c);
    let d = double2::bitcast(long2(i64::MIN, 0));
    assert_eq!((d.0, d.1), ((-0.0f64).to_bits(), 0.0f64.to_bits()));
    assert_eq!(long2::bitcast(d), long2(i64::MIN, 0));
}

#[test]
fn float_sign_bits() {
    let x = float4((-2.5f32).to_bits(), 2.5f32.to_bits(), (-0.0f32).to_bits(), f32::NEG_INFINITY.to_bits());
    let a = float4::abs(x);
    assert_eq!(
        (a.0, a.1, a.2, a.3),
        (2.5f32.to_bits(), 2.5f32.to_bits(), 0.0f32.to_bits(), f32::INFINITY.to_bits())
    );
    let y = double3(3.0f64.to_bits(), (-3.0f64).to_bits(), 0.0f64.to_bits());
    let s = double3((-1.0f64).to_bits(), 1.0f64.to_bits(), (-7.0f64).to_bits());
    let c = double3::copysign(y, s);
    assert_eq!((c.0, c.1, c.2), ((-3.0f64).to_bits(), 3.0f64.to_bits(), (-0.0f64).to_bits()));
    assert_eq!(f64::from_bits(c.0), 3.0f64.copysign(-1.0));
    let b = double3::broadcast(1.5f64.to_bits());
    assert_eq!((b.0, b.1, b.2), (1.5f64.to_bits(), 1.5f64.to_bits(), 1.5f64.to_bits()));
    let h = float3(1, 2, 3);
    assert_eq!((h.hi().0, h.hi().1), (3, 0));
    assert_eq!((h.odd().0, h.odd().1), (2, 0));
    assert_eq!((h.lo().0, h.lo().1), (1, 2));
    assert_eq!((h.even().0, h.even().1), (1, 3));
    assert_eq!(float2(5, 6).lo(), 5);
    assert_eq!(float2(5, 6).odd(), 6);
}

#[test]
fn trait_methods_agree_with_the_functions() {
    let x = char3(-128, 3, -3);
    assert_eq!(x.abs(), char3::abs(x));
    assert_eq!(Vector::max(x, char3(0, 0, 0)), char3(0, 3, 0));
    assert_eq!(Vector::min(x, char3(0, 0, 0)), char3(-128, 0, -3));
    assert_eq!(Vector::clamp(x, char3(-1, -1, -1), char3(1, 1, 1)), char3(-1, 1, -1));
    assert_eq!(x.reduce_add(), char3::reduce_add(x));
    assert_eq!(x.reduce_min(), -128);
    assert_eq!(x.reduce_max(), 3);
    assert_eq!(x.to_uchar_sat(), uchar3(0, 3, 0));
    assert_eq!(x.to_ulong_sat(), ulong3(0, 3, 0));
    assert_eq!(x.to_char_sat(), x);
    assert_eq!(Dot::dot(x, x), (128 * 128 + 9 + 9i32) as i8);
}

#[test]
fn from_isize_broadcasts_and_wraps() {
    assert_eq!(char3::from(300), char3(44, 44, 44));
    assert_eq!(char3::from(-1), char3(-1, -1, -1));
    assert_eq!(ulong2::from(-1), ulong2(u64::MAX, u64::MAX));
    assert_eq!(short4::from(0), short4(0, 0, 0, 0));
    assert_eq!(long2::from(isize::MIN), long2(isize::MIN as i64, isize::MIN as i64));
    assert_eq!(uchar2::from(0x1FF), uchar2(255, 255));
    assert_eq!(-short2(4, -4), short2::from(0) - short2(4, -4));
}

#[test]
fn index_reads_a_lane() {
    let x = short4(10, 20, 30, 40);
    assert_eq!(x[0], 10);
    assert_eq!(x[1], 20);
    assert_eq!(x[2], 30);
    assert_eq!(x[3], 40);
    let f = float3(7, 8, 9);
    assert_eq!((f[0], f[1], f[2]), (7, 8, 9));
    let c = char16(0, 1, 2, 3, 4, 5, 6, 7, 8, 9, 10, 11, 12, 13, 14, 15);
    assert_eq!(c[15], 15);
    assert_eq!(c[8], c.extract(8));
}

#[test]
fn map_and_reduce_apply_the_function() {
    let x = char3(1, -2, 3);
    assert_eq!(x.map_unary(|a| a.wrapping_mul(2)), char3(2, -4, 6));
    assert_eq!(x.map_binary(char3(10, 20, 30), |a, b| b - a), char3(9, 22, 27));
    assert_eq!(x.reduce(|a, b| a.max(b)), 3);
    assert_eq!(x.reduce(|a, b| a - b), 3 - (-2 - 1));
    assert_eq!(long2(5, 7).reduce(|a, b| a - b), 2);
    let y = uchar8(1, 2, 3, 4, 5, 6, 7, 8);
    assert_eq!(y.reduce(|a, b| a + b), 36);
    assert_eq!(y.reduce(|a, b| if a > 4 { a } else { b }), 8);
    assert_eq!(y.map_unary(|a| a & 1), uchar8(1, 0, 1, 0, 1, 0, 1, 0));
    let z = uchar16(0, 1, 2, 3, 4, 5, 6, 7, 8, 9, 10, 11, 12, 13, 14, 15);
    assert_eq!(z.reduce(|a, b| a ^ b), 0);
    assert_eq!(z.map_binary(z, |a, b| a * b).extract(15), 225);
}

#[test]
fn not_is_the_complement() {
    assert_eq!(!char2(0, 5), char2(-1, -6));
    assert_eq!(!char2(i8::MIN, i8::MAX), char2(i8::MAX, i8::MIN));
    assert_eq!(!uchar2(0, 200), uchar2(255, 55));
    assert_eq!(!ulong2(0, 1), ulong2(u64::MAX, u64::MAX - 1));
    let x = int2(123456, -7);
    assert_eq!(!x, x ^ -1);
    assert_eq!(!!x, x);
}

#[test]
fn bitcast_across_lane_widths() {
    assert_eq!(short4::bitcast(int2(0x0002_0001, 0x0004_0003)), short4(1, 2, 3, 4));
    assert_eq!(int2::bitcast(short4(1, 2, 3, 4)), int2(0x0002_0001, 0x0004_0003));
    assert_eq!(int2::bitcast(short4(-1, 0, 0, -32768)), int2(0xFFFF, i32::MIN));
    let bytes = uchar16(1, 2, 3, 4, 5, 6, 7, 8, 255, 255, 255, 255, 255, 255, 255, 255);
    assert_eq!(uchar16::bitcast(long2(0x0807_0605_0403_0201, -1)), bytes);
    assert_eq!(long2::bitcast(bytes), long2(0x0807_0605_0403_0201, -1));
    assert_eq!(int4::bitcast(bytes), int4(0x0403_0201, 0x0807_0605, -1, -1));
    let d = double2::bitcast(int4(0, 0x3FF0_0000, 0, i32::MIN));
    assert_eq!((d.0, d.1), (1.0f64.to_bits(), (-0.0f64).to_bits()));
    assert_eq!(
        long8::bitcast(hagane_simd::uint16(1, 0, 2, 0, 3, 0, 4, 0, 5, 0, 6, 0, 7, 0, 8, u32::MAX)),
        long8(1, 2, 3, 4, 5, 6, 7, (u32::MAX as i64) << 32 | 8)
    );
    assert_eq!(
        long4::bitcast(hagane_simd::ushort16(1, 0, 0, 0, 2, 0, 0, 0, 3, 0, 0, 0, 0, 0, 0, 0x8000)),
        long4(1, 2, 3, i64::MIN)
    );
}

#[test]
fn bitcast_of_three_lanes_fills_with_zero() {
    assert_eq!(char4::bitcast(char3(1, 2, 3)), char4(1, 2, 3, 0));
    assert_eq!(char3::bitcast(char4(1, 2, 3, 4)), char3(1, 2, 3));
    assert_eq!(short4::bitcast(short3(-1, 2, 3)), short4(-1, 2, 3, 0));
    assert_eq!(uchar8::bitcast(short3(0x0201, 0x0403, 0x0605)), uchar8(1, 2, 3, 4, 5, 6, 0, 0));
    assert_eq!(int3::bitcast(long2(0x0000_0002_0000_0001, 0x0000_0004_0000_0003)), int3(1, 2, 3));
}

#[test]
fn bitcast_of_scalars() {
    assert_eq!(char4::bitcast(0x0403_0201u32), char4(1, 2, 3, 4));
    assert_eq!(short2::bitcast(-1i32), short2(-1, -1));
    let y: i32 = hagane_simd::bitcast(0xFFFF_FFFFu32);
    assert_eq!(y, -1);
    let z: u32 = hagane_simd::bitcast(y);
    assert_eq!(z, 0xFFFF_FFFF);
    let f: u32 = hagane_simd::bitcast(1.5f32.to_bits());
    assert_eq!(f32::from_bits(f), 1.5);
    let w: u64 = hagane_simd::bitcast(int2(7, 1));
    assert_eq!(w, (1 << 32) | 7);
    let h: i16 = hagane_simd::bitcast(uchar2(0xFF, 0x7F));
    assert_eq!(h, i16::MAX);
    assert_eq!(uchar4::bitcast(0x0403_0201u32), uchar4::bitcast(u32::from_le_bytes([1, 2, 3, 4])));
}

#[test]
fn scalars_have_a_zero_and_an_order() {
    assert_eq!(<i8 as hagane_simd::IntegerScalar>::zero(), 0);
    assert_eq!(<u64 as hagane_simd::IntegerScalar>::zero(), 0);
    assert_eq!(<i16 as Scalar>::max(i16::MIN, -1), -1);
    assert_eq!(<i16 as Scalar>::min(i16::MIN, -1), i16::MIN);
    assert_eq!(<u8 as Scalar>::max(200, 100), 200);
}
