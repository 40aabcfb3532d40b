use alazar::xorshift::{XorShift128, XorShift128p, XorShift16, XorShift32, XorShift64, Xyza8a};
use devela::convert::{
    u128_into_u32_le, u128_into_u64_le, u16_from_u8_le, u16_into_u8_le, u32_from_u16_le,
    u32_from_u8_le, u32_into_u8_le, u64_from_u16_le, u64_from_u32_le, u64_from_u8_le,
    u64_into_u32_le,
};

#[test]
fn join_puts_the_first_word_lowest() {
    assert_eq!(u16_from_u8_le([0x01, 0x02]), 0x0201);
    assert_eq!(u32_from_u16_le([0x0201, 0x0403]), 0x0403_0201);
    assert_eq!(u32_from_u8_le([1, 2, 3, 4]), 0x0403_0201);
    assert_eq!(u64_from_u32_le([0x0403_0201, 0x0807_0605]), 0x0807_0605_0403_0201);
    assert_eq!(u64_from_u16_le([0x0201, 0x0403, 0x0605, 0x0807]), 0x0807_0605_0403_0201);
    assert_eq!(u64_from_u8_le([1, 2, 3, 4, 5, 6, 7, 8]), 0x0807_0605_0403_0201);
}

#[test]
fn split_gives_the_lowest_word_first() {
    assert_eq!(u16_into_u8_le(0x0201), [0x01, 0x02]);
    assert_eq!(u32_into_u8_le(0x0403_0201), [1, 2, 3, 4]);
    assert_eq!(u64_into_u32_le(0x0807_0605_0403_0201), [0x0403_0201, 0x0807_0605]);
    assert_eq!(
        u128_into_u64_le(0x100F_0E0D_0C0B_0A09_0807_0605_0403_0201),
        [0x0807_0605_0403_0201, 0x100F_0E0D_0C0B_0A09]
    );
    assert_eq!(
        u128_into_u32_le(0x100F_0E0D_0C0B_0A09_0807_0605_0403_0201),
        [0x0403_0201, 0x0807_0605, 0x0C0B_0A09, 0x100F_0E0D]
    );
}

#[test]
fn split_undoes_join_on_every_pair_of_bytes() {
    for a in 0..=255u8 {
        for b in 0..=255u8 {
            assert_eq!(u16_into_u8_le(u16_from_u8_le([a, b])), [a, b]);
        }
    }
}

#[test]
fn join_undoes_split_on_every_u16() {
    for x in 0..=u16::MAX {
        assert_eq!(u16_from_u8_le(u16_into_u8_le(x)), x);
    }
}

#[test]
fn split_undoes_join_on_wider_words() {
    let bytes = [0xDE, 0xFA, 0x00, 0x17];
    assert_eq!(u32_into_u8_le(u32_from_u8_le(bytes)), bytes);
    let halves = [0xFFFF_FFFF, 0x0000_0001];
    assert_eq!(u64_into_u32_le(u64_from_u32_le(halves)), halves);
    assert_eq!(u32_from_u8_le(u32_into_u8_le(0x8000_0001)), 0x8000_0001);
    assert_eq!(u64_from_u32_le(u64_into_u32_le(u64::MAX - 1)), u64::MAX - 1);
}

#[test]
fn a_seed_given_in_parts_is_the_seed_given_whole() {
    let x: u32 = 0x1700_FADE;
    let parts = u32_into_u8_le(x);
    assert_eq!(XorShift32::new4_8(parts), XorShift32::new(x));
    assert_eq!(Xyza8a::new1_u32(u32_from_u8_le(parts)), Xyza8a::new(parts));
    let y: u64 = 0xDEFA_0017_0000_0001;
    assert_eq!(XorShift64::new2_u32(u64_into_u32_le(y)), XorShift64::new(y));
    assert_eq!(XorShift16::new2_u8(u16_into_u8_le(0xBEEF)), XorShift16::new(0xBEEF));
    let z: u128 = 0x0123_4567_89AB_CDEF_0011_2233_4455_6677;
    assert_eq!(XorShift128::new1_128(z), XorShift128::new(u128_into_u32_le(z)));
    assert_eq!(XorShift128p::new1_128(z), XorShift128p::new(u128_into_u64_le(z)));
}

#[test]
fn parts_that_join_to_zero_are_all_zero() {
    for a in 0..=255u8 {
        for b in 0..=255u8 {
            assert_eq!(u16_from_u8_le([a, b]) == 0, a == 0 && b == 0);
            assert_eq!(XorShift16::new2_u8([a, b]).is_none(), a == 0 && b == 0);
        }
    }
}
