use hagane_simd::scalar::lane_i8::{bitselect_i8, select_i8};
use hagane_simd::{
    bitselect, char16, char3, double2, float2, int2, long2, long4, select, short4, uchar16,
    uchar3, ulong4, ushort4, Select,
};

#[test]
fn bitselect_all_ones_takes_the_second_operand() {
    let a = char3(1, 2, 3);
    let b = char3(-4, -5, -6);
    assert_eq!(bitselect(char3(-1, -1, -1), a, b), b);
    assert_eq!(bitselect(char3(0, 0, 0), a, b), a);
    assert_eq!(bitselect(char3(-1, 0, -1), a, b), char3(-4, 2, -6));
    assert_eq!(bitselect_i8(-1, 9, -9), -9);
    assert_eq!(bitselect_i8(0, 9, -9), 9);
    assert_eq!(bitselect_i8(0x0F, 0x55, 0x33), 0x53);
}

#[test]
fn bitselect_blends_bit_by_bit() {
    let r = bitselect(int2(0x80000000u32 as i32, 0), float2(10.0f32.to_bits(), (-2.0f32).to_bits()),
        float2(11.0f32.to_bits(), (-3.0f32).to_bits()));
    assert_eq!((r.0, r.1), (10.0f32.to_bits(), (-2.0f32).to_bits()));
    let r = bitselect(int2(0x80000000u32 as i32, 0), float2(10.0f32.to_bits(), (-2.0f32).to_bits()),
        float2((-11.0f32).to_bits(), (-3.0f32).to_bits()));
    assert_eq!((r.0, r.1), ((-10.0f32).to_bits(), (-2.0f32).to_bits()));
    assert_eq!(
        bitselect(short4(0x00FF, -1, 0, 0x0F0F), ushort4(0x1234, 1, 2, 0xAAAA), ushort4(0xABCD, 3, 4, 0x5555)),
        ushort4(0x12CD, 3, 2, 0xA5A5)
    );
}

#[test]
fn select_goes_by_the_sign_bit() {
    let a = ulong4(1, 2, 3, 4);
    let b = ulong4(10, 20, 30, 40);
    let m = long4(i64::MIN, 0, i64::MAX, 0x800000000000FFFFu64 as i64);
    assert_eq!(select(m, a, b), ulong4(10, 2, 3, 40));
    assert_eq!(select(m, a, b), select(long4(-1, 0, 0, -1), a, b));
    assert_eq!(select(m, a, b), bitselect(m >> 63, a, b));
    assert_eq!(select_i8(-128, 1, 2), 2);
    assert_eq!(select_i8(127, 1, 2), 1);
    assert_eq!(select_i8(1, 1, 2), 1);
    assert_eq!(char3(-1, 1, -128).select(uchar3(1, 2, 3), uchar3(7, 8, 9)), uchar3(7, 2, 9));
    let r = long2(-1, 1).select(double2(1.0f64.to_bits(), 2.0f64.to_bits()), double2(3.0f64.to_bits(), 4.0f64.to_bits()));
    assert_eq!((r.0, r.1), (3.0f64.to_bits(), 2.0f64.to_bits()));
}

#[test]
fn select_on_sixteen_lanes() {
    let m = char16(-1, 0, -1, 0, -1, 0, -1, 0, 1, -2, 3, -4, 5, -6, 7, -8);
    let a = uchar16(0, 1, 2, 3, 4, 5, 6, 7, 8, 9, 10, 11, 12, 13, 14, 15);
    let b = uchar16(100, 101, 102, 103, 104, 105, 106, 107, 108, 109, 110, 111, 112, 113, 114, 115);
    assert_eq!(
        select(m, a, b),
        uchar16(100, 1, 102, 3, 104, 5, 106, 7, 8, 109, 10, 111, 12, 113, 14, 115)
    );
}
