use draw2d_types::Color;

#[test]
fn test_color_conversions() {
    let white = Color::white();
    let w1 = Color::from_rgba(255, 255, 255, 255);
    assert_eq!(white, w1);
    let w2: u32 = white.to_rgba_u32();
    assert_eq!(w2, 0xFFFF_FFFFu32);

    let grey = Color::from_rgba(128, 128, 128, 255);
    let g2: u32 = grey.to_rgba_u32();
    assert_eq!(g2, 0x8080_80FFu32);

    let black = Color::black();
    let b1 = Color::from_rgba(0, 0, 0, 255);
    assert_eq!(black, b1);
    let b2: u32 = black.to_rgba_u32();
    assert_eq!(b2, 0x0000_00FFu32);
    assert_eq!(black, Color::from_rgb_u32(0x00_0000u32));
    assert_eq!(black, Color::from_rgba_u32(0x00_0000FFu32));

    let puce1 = Color::from_rgb_u32(0xCC_8899u32);
    let puce2 = Color::from_rgba_u32(0xCC88_99FFu32);
    let puce3 = Color::from_rgba(0xCC, 0x88, 0x99, 255);
    assert_eq!(puce1, puce2);
    assert_eq!(puce1, puce3);
}

#[test]
fn test_byte_round_trip() {
    for r in 0..=255u8 {
        let g = r.wrapping_mul(31).wrapping_add(7);
        let b = 255 - r;
        let a = r.wrapping_mul(201);
        let c = Color::from_rgba(r, g, b, a);
        assert_eq!(c.to_rgba(), (r, g, b, a));
    }
}

#[test]
fn test_packed_round_trip() {
    for r in 0..=255u8 {
        let g = 255 - r;
        let b = r.wrapping_mul(77);
        let a = r.wrapping_mul(13).wrapping_add(5);
        let c = Color::from_rgba(r, g, b, a);
        assert_eq!(Color::from_rgba_u32(c.to_rgba_u32()), c);
    }
}

#[test]
fn test_packed_round_trip_u32() {
    let samples: [u32; 8] = [
        0x0000_0000,
        0xFFFF_FFFF,
        0x8080_80FF,
        0xCC88_99FF,
        0x0102_0304,
        0xDEAD_BEEF,
        0x0000_00FF,
        0xFF00_0000,
    ];
    for &x in samples.iter() {
        assert_eq!(Color::from_rgba_u32(x).to_rgba_u32(), x);
    }
}

#[test]
fn test_rgb_drops_alpha() {
    let c = Color::from_rgba(0x12, 0x34, 0x56, 0x78);
    assert_eq!(c.to_rgb(), (0x12, 0x34, 0x56));
    assert_eq!(c.to_rgb_u32(), 0x0012_3456u32);
}

#[test]
fn test_from_rgb_is_opaque() {
    let c = Color::from_rgb(10, 20, 30);
    assert_eq!(c.to_rgba(), (10, 20, 30, 255));
    let d = Color::from_rgb_u32(0x0A14_1Eu32);
    assert_eq!(c, d);
}
