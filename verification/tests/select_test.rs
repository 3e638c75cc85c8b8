use hagane_simd::{
    bitselect, char2, char3, char4, double2, double3, double4, float2, float3, float4, int2, int3,
    int4, long2, long3, long4, select, short2, short3, short4, uchar2, uchar3, uchar4, uint2,
    uint3, uint4, ulong2, ulong3, ulong4, ushort2, ushort3, ushort4,
};

fn c(x: u8) -> i8 {
    x as i8
}

fn s(x: u16) -> i16 {
    x as i16
}

fn i(x: u32) -> i32 {
    x as i32
}

fn l(x: u64) -> i64 {
    x as i64
}

fn f(x: f32) -> u32 {
    x.to_bits()
}

fn d(x: f64) -> u64 {
    x.to_bits()
}

#[test]
fn test_select() {
    let r = select(int2(i(0x80000000), 0x00000000), float2(f(10.0), f(-2.0)), float2(f(11.0), f(-3.0)));
    assert_eq!((r.0, r.1), (f(11.0), f(-2.0)));
    let r = select(
        int3(i(0x80000000), 0x00000000, 0x00000000),
        float3(f(10.0), f(-2.0), f(-9.5)),
        float3(f(11.0), f(-3.0), f(10.0)),
    );
    assert_eq!((r.0, r.1, r.2), (f(11.0), f(-2.0), f(-9.5)));
    let r = select(
        int4(i(0x80000000), 0x00000000, 0x00000000, i(0x80000000)),
        float4(f(10.0), f(-2.0), f(-9.5), f(1.0)),
        float4(f(11.0), f(-3.0), f(10.0), f(0.0)),
    );
    assert_eq!((r.0, r.1, r.2, r.3), (f(11.0), f(-2.0), f(-9.5), f(0.0)));

    let r = select(
        long2(l(0x8000000000000000), 0x0000000000000000),
        double2(d(10.0), d(-2.0)),
        double2(d(11.0), d(-3.0)),
    );
    assert_eq!((r.0, r.1), (d(11.0), d(-2.0)));
    let r = select(
        long3(l(0x8000000000000000), 0x0000000000000000, 0x0000000000000000),
        double3(d(10.0), d(-2.0), d(-9.5)),
        double3(d(11.0), d(-3.0), d(10.0)),
    );
    assert_eq!((r.0, r.1, r.2), (d(11.0), d(-2.0), d(-9.5)));
    let r = select(
        long4(l(0x8000000000000000), 0x0000000000000000, 0x0000000000000000, l(0x800000000000FFFF)),
        double4(d(10.0), d(-2.0), d(-9.5), d(1.0)),
        double4(d(11.0), d(-3.0), d(10.0), d(0.0)),
    );
    assert_eq!((r.0, r.1, r.2, r.3), (d(11.0), d(-2.0), d(-9.5), d(0.0)));
}

#[test]
fn test_bitselect() {
    assert_eq!(bitselect(char2(0x11, 0x33), char2(c(0xFF), 0x00), char2(0x00, c(0xFF))), char2(c(0xEE), 0x33));
    assert_eq!(
        bitselect(char3(0x11, 0x33, 0x55), char3(c(0xFF), 0x00, 0x00), char3(0x00, c(0xFF), c(0xFF))),
        char3(c(0xEE), 0x33, 0x55)
    );
    assert_eq!(
        bitselect(
            char4(0x11, 0x33, 0x55, 0x77),
            char4(c(0xFF), 0x00, 0x00, c(0xFF)),
            char4(0x00, c(0xFF), c(0xFF), 0x00)
        ),
        char4(c(0xEE), 0x33, 0x55, c(0x88))
    );

    assert_eq!(bitselect(char2(0x11, 0x33), uchar2(0xFF, 0x00), uchar2(0x00, 0xFF)), uchar2(0xEE, 0x33));
    assert_eq!(
        bitselect(char3(0x11, 0x33, 0x55), uchar3(0xFF, 0x00, 0x00), uchar3(0x00, 0xFF, 0xFF)),
        uchar3(0xEE, 0x33, 0x55)
    );
    assert_eq!(
        bitselect(char4(0x11, 0x33, 0x55, 0x77), uchar4(0xFF, 0x00, 0x00, 0xFF), uchar4(0x00, 0xFF, 0xFF, 0x00)),
        uchar4(0xEE, 0x33, 0x55, 0x88)
    );

    assert_eq!(
        bitselect(short2(0x1111, 0x3333), short2(s(0xFFFF), 0x0000), short2(0x0000, s(0xFFFF))),
        short2(s(0xEEEE), 0x3333)
    );
    assert_eq!(
        bitselect(
            short3(0x1111, 0x3333, 0x5555),
            short3(s(0xFFFF), 0x0000, 0x0000),
            short3(0x0000, s(0xFFFF), s(0xFFFF))
        ),
        short3(s(0xEEEE), 0x3333, 0x5555)
    );
    assert_eq!(
        bitselect(
            short4(0x1111, 0x3333, 0x5555, 0x7777),
            short4(s(0xFFFF), 0x0000, 0x0000, s(0xFFFF)),
            short4(0x0000, s(0xFFFF), s(0xFFFF), 0x0000)
        ),
        short4(s(0xEEEE), 0x3333, 0x5555, s(0x8888))
    );

    assert_eq!(
        bitselect(short2(0x1111, 0x3333), ushort2(0xFFFF, 0x0000), ushort2(0x0000, 0xFFFF)),
        ushort2(0xEEEE, 0x3333)
    );
    assert_eq!(
        bitselect(short3(0x1111, 0x3333, 0x5555), ushort3(0xFFFF, 0x0000, 0x0000), ushort3(0x0000, 0xFFFF, 0xFFFF)),
        ushort3(0xEEEE, 0x3333, 0x5555)
    );
    assert_eq!(
        bitselect(
            short4(0x1111, 0x3333, 0x5555, 0x7777),
            ushort4(0xFFFF, 0x0000, 0x0000, 0xFFFF),
            ushort4(0x0000, 0xFFFF, 0xFFFF, 0x0000)
        ),
        ushort4(0xEEEE, 0x3333, 0x5555, 0x8888)
    );

    assert_eq!(
        bitselect(int2(0x11111111, 0x33333333), int2(i(0xFFFFFFFF), 0x00000000), int2(0x00000000, i(0xFFFFFFFF))),
        int2(i(0xEEEEEEEE), 0x33333333)
    );
    assert_eq!(
        bitselect(
            int3(0x11111111, 0x33333333, 0x55555555),
            int3(i(0xFFFFFFFF), 0x00000000, 0x00000000),
            int3(0x00000000, i(0xFFFFFFFF), i(0xFFFFFFFF))
        ),
        int3(i(0xEEEEEEEE), 0x33333333, 0x55555555)
    );
    assert_eq!(
        bitselect(
            int4(0x11111111, 0x33333333, 0x55555555, 0x77777777),
            int4(i(0xFFFFFFFF), 0x00000000, 0x00000000, i(0xFFFFFFFF)),
            int4(0x00000000, i(0xFFFFFFFF), i(0xFFFFFFFF), 0x00000000)
        ),
        int4(i(0xEEEEEEEE), 0x33333333, 0x55555555, i(0x88888888))
    );

    assert_eq!(
        bitselect(int2(0x11111111, 0x33333333), uint2(0xFFFFFFFF, 0x00000000), uint2(0x00000000, 0xFFFFFFFF)),
        uint2(0xEEEEEEEE, 0x33333333)
    );
    assert_eq!(
        bitselect(
            int3(0x11111111, 0x33333333, 0x55555555),
            uint3(0xFFFFFFFF, 0x00000000, 0x00000000),
            uint3(0x00000000, 0xFFFFFFFF, 0xFFFFFFFF)
        ),
        uint3(0xEEEEEEEE, 0x33333333, 0x55555555)
    );
    assert_eq!(
        bitselect(
            int4(0x11111111, 0x33333333, 0x55555555, 0x77777777),
            uint4(0xFFFFFFFF, 0x00000000, 0x00000000, 0xFFFFFFFF),
            uint4(0x00000000, 0xFFFFFFFF, 0xFFFFFFFF, 0x00000000)
        ),
        uint4(0xEEEEEEEE, 0x33333333, 0x55555555, 0x88888888)
    );

    assert_eq!(
        bitselect(
            long2(0x1111111100000000, 0x3333333300000000),
            long2(l(0xFFFFFFFF00000000), 0x0000000000000000),
            long2(0x0000000000000000, l(0xFFFFFFFF00000000))
        ),
        long2(l(0xEEEEEEEE00000000), 0x3333333300000000)
    );
    assert_eq!(
        bitselect(
            long3(0x1111111100000000, 0x3333333300000000, 0x5555555500000000),
            long3(l(0xFFFFFFFF00000000), 0x0000000000000000, 0x0000000000000000),
            long3(0x0000000000000000, l(0xFFFFFFFF00000000), l(0xFFFFFFFF00000000))
        ),
        long3(l(0xEEEEEEEE00000000), 0x3333333300000000, 0x5555555500000000)
    );
    assert_eq!(
        bitselect(
            long4(0x1111111100000000, 0x3333333300000000, 0x5555555500000000, 0x7777777700000000),
            long4(l(0xFFFFFFFF00000000), 0x0000000000000000, 0x0000000000000000, l(0xFFFFFFFF00000000)),
            long4(0x0000000000000000, l(0xFFFFFFFF00000000), l(0xFFFFFFFF00000000), 0x0000000000000000)
        ),
        long4(l(0xEEEEEEEE00000000), 0x3333333300000000, 0x5555555500000000, l(0x8888888800000000))
    );

    assert_eq!(
        bitselect(
            long2(0x1111111100000000, 0x3333333300000000),
            ulong2(0xFFFFFFFF00000000, 0x0000000000000000),
            ulong2(0x0000000000000000, 0xFFFFFFFF00000000)
        ),
        ulong2(0xEEEEEEEE00000000, 0x3333333300000000)
    );
    assert_eq!(
        bitselect(
            long3(0x1111111100000000, 0x3333333300000000, 0x5555555500000000),
            ulong3(0xFFFFFFFF00000000, 0x0000000000000000, 0x0000000000000000),
            ulong3(0x0000000000000000, 0xFFFFFFFF00000000, 0xFFFFFFFF00000000)
        ),
        ulong3(0xEEEEEEEE00000000, 0x3333333300000000, 0x5555555500000000)
    );
    assert_eq!(
        bitselect(
            long4(0x1111111100000000, 0x3333333300000000, 0x5555555500000000, 0x7777777700000000),
            ulong4(0xFFFFFFFF00000000, 0x0000000000000000, 0x0000000000000000, 0xFFFFFFFF00000000),
            ulong4(0x0000000000000000, 0xFFFFFFFF00000000, 0xFFFFFFFF00000000, 0x0000000000000000)
        ),
        ulong4(0xEEEEEEEE00000000, 0x3333333300000000, 0x5555555500000000, 0x8888888800000000)
    );
}
