use imgui_opengl::pixel::to_pixel;

fn pixel(value: f32) -> i32 {
    to_pixel(value.to_bits())
}

#[test]
fn whole_numbers_are_kept() {
    for value in [0, 1, 2, 10, 480, 600, 65_535, 16_777_215, 16_777_216, 2_147_483_520] {
        assert_eq!(pixel(value as f32), value);
        assert_eq!(pixel(-(value as f32)), -value);
    }
}

#[test]
fn fractions_are_dropped_towards_zero() {
    assert_eq!(pixel(0.5), 0);
    assert_eq!(pixel(-0.5), 0);
    assert_eq!(pixel(0.999_999_94), 0);
    assert_eq!(pixel(1.5), 1);
    assert_eq!(pixel(-1.5), -1);
    assert_eq!(pixel(479.5), 479);
    assert_eq!(pixel(-479.5), -479);
    assert_eq!(pixel(8_388_607.5), 8_388_607);
    assert_eq!(pixel(1.0e-40), 0);
    assert_eq!(pixel(f32::MIN_POSITIVE), 0);
}

#[test]
fn both_zeros_are_zero() {
    assert_eq!(to_pixel(0x0000_0000), 0);
    assert_eq!(to_pixel(0x8000_0000), 0);
}

#[test]
fn range_of_pixels_is_not_left() {
    assert_eq!(pixel(2_147_483_648.0), i32::MAX);
    assert_eq!(pixel(-2_147_483_648.0), i32::MIN);
    assert_eq!(pixel(-2_147_483_904.0), i32::MIN);
    assert_eq!(pixel(3.0e9), i32::MAX);
    assert_eq!(pixel(f32::MAX), i32::MAX);
    assert_eq!(pixel(f32::MIN), i32::MIN);
    assert_eq!(pixel(f32::INFINITY), i32::MAX);
    assert_eq!(pixel(f32::NEG_INFINITY), i32::MIN);
}

#[test]
fn no_number_is_pixel_zero() {
    assert_eq!(pixel(f32::NAN), 0);
    for bits in [0x7f80_0001u32, 0x7fc0_0000, 0x7fff_ffff, 0xff80_0001, 0xffc0_0000, 0xffff_ffff] {
        assert_eq!(to_pixel(bits), 0);
    }
}

#[test]
fn pixel_is_the_integer_conversion_of_the_number() {
    let fractions = [
        0x00_0000u32, 0x00_0001, 0x00_0002, 0x12_3456, 0x3f_ffff, 0x40_0000, 0x40_0001, 0x55_5555,
        0x7f_fffe, 0x7f_ffff,
    ];
    for sign in [0u32, 0x8000_0000] {
        for exponent in 0..=255u32 {
            for fraction in fractions {
                let bits = sign | exponent << 23 | fraction;
                assert_eq!(to_pixel(bits), f32::from_bits(bits) as i32, "{:#010x}", bits);
            }
        }
    }
}

#[test]
fn pixel_is_the_integer_conversion_of_many_numbers() {
    let mut bits = 0x1234_5678u32;
    for _ in 0..2_000_000 {
        bits = bits.wrapping_mul(1_664_525).wrapping_add(1_013_904_223);
        assert_eq!(to_pixel(bits), f32::from_bits(bits) as i32, "{:#010x}", bits);
    }
}
