use alazar::xorshift::{XorShift128, XorShift128p, XorShift32, XorShift64};

#[test]
fn xorshift32_first_step_from_one() {
    let mut g = XorShift32::new(1).unwrap();
    assert_eq!(g.next_u32(), 270369);
}

#[test]
fn xorshift32_sequence_from_one() {
    let mut g = XorShift32::new(1).unwrap();
    let got: Vec<u32> = (0..3).map(|_| g.next_u32()).collect();
    assert_eq!(got, vec![270369, 67634689, 2647435461]);
    assert_eq!(g.current_u32(), 2647435461);
}

#[test]
fn xorshift32_rejects_zero_seed() {
    assert!(XorShift32::new(0).is_none());
    assert!(XorShift32::new1_32(0).is_none());
    assert!(XorShift32::new2_16([0, 0]).is_none());
    assert!(XorShift32::new4_8([0, 0, 0, 0]).is_none());
    assert!(XorShift32::new2_16([0, 1]).is_some());
    assert!(XorShift32::new4_8([0, 0, 0, 1]).is_some());
}

#[test]
fn xorshift32_default_seed() {
    let mut g = XorShift32::default();
    assert_eq!(g.current_u32(), 0xDEFA0017);
    assert_eq!(g.next_u32(), 1106067979);
    assert_eq!(g.next_u32(), 3693514109);
}

#[test]
fn xorshift32_composed_seeds_are_little_endian() {
    let want = XorShift32::new(0x0403_0201).unwrap();
    assert_eq!(XorShift32::new4_8([1, 2, 3, 4]).unwrap(), want);
    assert_eq!(XorShift32::new2_16([0x0201, 0x0403]).unwrap(), want);
    assert_eq!(XorShift32::new1_32(0x0403_0201).unwrap(), want);
    assert_eq!(XorShift32::new_unchecked(0x0403_0201), want);
    assert_eq!(want.next_new().current_u32(), 3961590816);
}

#[test]
fn xorshift32_peek_matches_advance_and_never_reaches_zero() {
    let mut g = XorShift32::new(0xDEAD_BEEF).unwrap();
    for _ in 0..5000 {
        let before = g;
        let peeked = g.next_new();
        assert_eq!(g, before);
        let out = g.next_u32();
        assert_ne!(out, 0);
        assert_eq!(peeked, g);
        assert_eq!(peeked.current_u32(), out);
    }
}

#[test]
fn xorshift32_same_seed_same_outputs() {
    let mut a = XorShift32::new(12345).unwrap();
    let mut b = XorShift32::new(12345).unwrap();
    for _ in 0..1000 {
        assert_eq!(a.next_u32(), b.next_u32());
    }
}

#[test]
fn xorshift64_sequence_from_one() {
    let mut g = XorShift64::new(1).unwrap();
    let got: Vec<u64> = (0..3).map(|_| g.next_u64()).collect();
    assert_eq!(got, vec![1082269761, 1152992998833853505, 11177516664432764457]);
    assert_eq!(g.current_u16(), 11177516664432764457);
}

#[test]
fn xorshift64_rejects_zero_seed() {
    assert!(XorShift64::new(0).is_none());
    assert!(XorShift64::new1_u64(0).is_none());
    assert!(XorShift64::new2_u32([0, 0]).is_none());
    assert!(XorShift64::new4_u16([0, 0, 0, 0]).is_none());
    assert!(XorShift64::new8_u8([0; 8]).is_none());
    assert!(XorShift64::new2_u32([0, 1]).is_some());
    assert!(XorShift64::new4_u16([0, 0, 1, 0]).is_some());
    assert!(XorShift64::new8_u8([0, 0, 0, 0, 0, 0, 0, 1]).is_some());
}

#[test]
fn xorshift64_default_seed() {
    let mut g = XorShift64::default();
    assert_eq!(g.current_u16(), 0xDEFA0017_DEFA0017);
    assert_eq!(g.next_u64(), 10068665259795354071);
    assert_eq!(g.next_u64(), 13722422720927715892);
}

#[test]
fn xorshift64_composed_seeds_are_little_endian() {
    let want = XorShift64::new(0x0807_0605_0403_0201).unwrap();
    assert_eq!(XorShift64::new8_u8([1, 2, 3, 4, 5, 6, 7, 8]).unwrap(), want);
    assert_eq!(XorShift64::new4_u16([0x0201, 0x0403, 0x0605, 0x0807]).unwrap(), want);
    assert_eq!(XorShift64::new2_u32([0x0403_0201, 0x0807_0605]).unwrap(), want);
    assert_eq!(XorShift64::new1_u64(0x0807_0605_0403_0201).unwrap(), want);
    assert_eq!(XorShift64::new_unchecked(0x0807_0605_0403_0201), want);
    assert_eq!(want.next_new().current_u16(), 13440699377186350149);
}

#[test]
fn xorshift64_peek_matches_advance_and_never_reaches_zero() {
    let mut g = XorShift64::new(u64::MAX).unwrap();
    for _ in 0..5000 {
        let before = g;
        let peeked = g.next_new();
        assert_eq!(g, before);
        let out = g.next_u64();
        assert_ne!(out, 0);
        assert_eq!(peeked, g);
        assert_eq!(peeked.current_u16(), out);
    }
}

#[test]
fn xorshift128_rejects_all_zero_seeds() {
    assert!(XorShift128::new([0; 4]).is_none());
    assert!(XorShift128::new1_128(0).is_none());
    assert!(XorShift128::new2_64([0, 0]).is_none());
    assert!(XorShift128::new4_32([0; 4]).is_none());
    assert!(XorShift128::new8_16([0; 8]).is_none());
    assert!(XorShift128::new16_8([0; 16]).is_none());
    assert!(XorShift128::new2(0, 0).is_none());
    assert!(XorShift128::new4(0, 0, 0, 0).is_none());
    assert!(XorShift128::new([0, 0, 0, 1]).is_some());
    assert!(XorShift128::new1_128(1 << 127).is_some());
    assert!(XorShift128::new2_64([0, 1 << 63]).is_some());
    assert!(XorShift128::new8_16([0, 0, 0, 0, 0, 0, 0, 1]).is_some());
    assert!(XorShift128::new16_8([0, 0, 0, 0, 0, 0, 0, 0, 0, 0, 0, 0, 0, 0, 0, 1]).is_some());
    assert!(XorShift128::new2(0, 1).is_some());
    assert!(XorShift128::new4(0, 0, 1, 0).is_some());
}

#[test]
fn xorshift128_sequence() {
    let mut g = XorShift128::new([1, 2, 3, 4]).unwrap();
    assert_eq!(g.current_u64(), (1 << 32) | 2);
    assert_eq!(g.next_u64(), 8851927597057);
    assert_eq!(g, XorShift128::new([0x80d, 1, 2, 3]).unwrap());
    assert_eq!(g.next_u64(), 18050055327975437);
    assert_eq!(g.next_u64(), 90656090923999342);
    assert_eq!(g, XorShift128::new([0x142133c, 0x40206e, 0x80d, 1]).unwrap());
}

#[test]
fn xorshift128_last_word_feeds_the_first() {
    let mut g = XorShift128::new([0, 0, 0, 1]).unwrap();
    assert_eq!(g.next_u64(), 4294967296);
    assert_eq!(g, XorShift128::new([1, 0, 0, 0]).unwrap());
    assert_eq!(g.next_u64(), 8834747727873);
    assert_eq!(g.next_u64(), 18014712042096649);
}

#[test]
fn xorshift128_composed_seeds_are_little_endian() {
    let want = XorShift128::new([0x0403_0201, 0x0807_0605, 0x0C0B_0A09, 0x100F_0E0D]).unwrap();
    assert_eq!(XorShift128::new1_128(0x100F_0E0D_0C0B_0A09_0807_0605_0403_0201).unwrap(), want);
    assert_eq!(
        XorShift128::new2_64([0x0807_0605_0403_0201, 0x100F_0E0D_0C0B_0A09]).unwrap(),
        want
    );
    assert_eq!(
        XorShift128::new2(0x0807_0605_0403_0201, 0x100F_0E0D_0C0B_0A09).unwrap(),
        want
    );
    assert_eq!(
        XorShift128::new4_32([0x0403_0201, 0x0807_0605, 0x0C0B_0A09, 0x100F_0E0D]).unwrap(),
        want
    );
    assert_eq!(
        XorShift128::new4(0x0403_0201, 0x0807_0605, 0x0C0B_0A09, 0x100F_0E0D).unwrap(),
        want
    );
    assert_eq!(
        XorShift128::new8_16([0x0201, 0x0403, 0x0605, 0x0807, 0x0A09, 0x0C0B, 0x0E0D, 0x100F])
            .unwrap(),
        want
    );
    assert_eq!(
        XorShift128::new16_8([1, 2, 3, 4, 5, 6, 7, 8, 9, 10, 11, 12, 13, 14, 15, 16]).unwrap(),
        want
    );
}

#[test]
fn xorshift128_peek_matches_advance_and_never_reaches_zero() {
    let mut g = XorShift128::new([0, 0, 0, 1]).unwrap();
    for _ in 0..5000 {
        let before = g;
        let peeked = g.next_new();
        assert_eq!(g, before);
        let out = g.next_u64();
        assert_eq!(peeked, g);
        assert_eq!(peeked.current_u64(), out);
        assert!(XorShift128::new([0; 4]) != Some(g));
        assert!(g.next_new() != g.next_new().next_new());
    }
}

#[test]
fn xorshift128_same_seed_same_outputs() {
    let mut a = XorShift128::new([7, 0, 0, 9]).unwrap();
    let mut b = XorShift128::new4(7, 0, 0, 9).unwrap();
    for _ in 0..1000 {
        assert_eq!(a.next_u64(), b.next_u64());
    }
}

#[test]
fn xorshift128p_first_step_from_one_zero() {
    let mut g = XorShift128p::new([1, 0]).unwrap();
    // the sum of the two words before the step
    assert_eq!(g.next_64(), 1);
    // x = 1 ^ 0 = 1; first word = rotl(0, 24) ^ 1 ^ (1 << 16); second = rotl(1, 37)
    assert_eq!(g, XorShift128p::new([65537, 137438953472]).unwrap());
}

#[test]
fn xorshift128p_sequence_from_one_zero() {
    let mut g = XorShift128p::new([1, 0]).unwrap();
    let got: Vec<u64> = (0..4).map(|_| g.next_64()).collect();
    assert_eq!(got, vec![1, 137439019009, 2323857686896051201, 422388625908769]);
    assert_eq!(g, XorShift128p::new([11826597894450848929, 9233650408993326112]).unwrap());
    assert_eq!(g.current_u64(), 2613504229734623425);
}

#[test]
fn xorshift128p_output_is_the_sum_before_the_step() {
    let mut g = XorShift128p::new([0, 1]).unwrap();
    let shown = g.current_u64();
    assert_eq!(g.next_64(), shown);
    assert_eq!(g, XorShift128p::new([16842753, 137438953472]).unwrap());
    assert_eq!(g.next_64(), 137455796225);
    assert_eq!(g, XorShift128p::new([2314851449730760705, 2314850345907389440]).unwrap());
}

#[test]
fn xorshift128p_sum_wraps_around() {
    let mut g = XorShift128p::new([u64::MAX, 1]).unwrap();
    assert_eq!(g.current_u64(), 0);
    assert_eq!(g.next_64(), 0);
    assert_eq!(g, XorShift128p::new([16908286, 18446743936270598143]).unwrap());
}

#[test]
fn xorshift128p_rejects_all_zero_seeds() {
    assert!(XorShift128p::new([0, 0]).is_none());
    assert!(XorShift128p::new1_128(0).is_none());
    assert!(XorShift128p::new2_64([0, 0]).is_none());
    assert!(XorShift128p::new4_32([0; 4]).is_none());
    assert!(XorShift128p::new8_16([0; 8]).is_none());
    assert!(XorShift128p::new16_8([0; 16]).is_none());
    assert!(XorShift128p::new2(0, 0).is_none());
    assert!(XorShift128p::new4(0, 0, 0, 0).is_none());
    assert!(XorShift128p::new([0, 1]).is_some());
    assert!(XorShift128p::new1_128(1 << 64).is_some());
    assert!(XorShift128p::new4_32([0, 0, 0, 1]).is_some());
    assert!(XorShift128p::new8_16([0, 0, 0, 0, 1, 0, 0, 0]).is_some());
    assert!(XorShift128p::new16_8([0, 0, 0, 0, 0, 0, 0, 0, 0, 0, 0, 0, 0, 0, 0, 1]).is_some());
    assert!(XorShift128p::new2(1, 0).is_some());
    assert!(XorShift128p::new4(0, 1, 0, 0).is_some());
}

#[test]
fn xorshift128p_composed_seeds_are_little_endian() {
    let want = XorShift128p::new([0x0807_0605_0403_0201, 0x100F_0E0D_0C0B_0A09]).unwrap();
    assert_eq!(XorShift128p::new1_128(0x100F_0E0D_0C0B_0A09_0807_0605_0403_0201).unwrap(), want);
    assert_eq!(
        XorShift128p::new2_64([0x0807_0605_0403_0201, 0x100F_0E0D_0C0B_0A09]).unwrap(),
        want
    );
    assert_eq!(
        XorShift128p::new2(0x0807_0605_0403_0201, 0x100F_0E0D_0C0B_0A09).unwrap(),
        want
    );
    assert_eq!(
        XorShift128p::new4_32([0x0403_0201, 0x0807_0605, 0x0C0B_0A09, 0x100F_0E0D]).unwrap(),
        want
    );
    assert_eq!(
        XorShift128p::new4(0x0403_0201, 0x0807_0605, 0x0C0B_0A09, 0x100F_0E0D).unwrap(),
        want
    );
    assert_eq!(
        XorShift128p::new8_16([0x0201, 0x0403, 0x0605, 0x0807, 0x0A09, 0x0C0B, 0x0E0D, 0x100F])
            .unwrap(),
        want
    );
    assert_eq!(
        XorShift128p::new16_8([1, 2, 3, 4, 5, 6, 7, 8, 9, 10, 11, 12, 13, 14, 15, 16]).unwrap(),
        want
    );
}

#[test]
fn xorshift128p_peek_matches_advance_and_never_reaches_zero() {
    let mut g = XorShift128p::new([1, 0]).unwrap();
    for _ in 0..5000 {
        let before = g;
        let peeked = g.next_new();
        assert_eq!(g, before);
        let shown = g.current_u64();
        assert_eq!(g.next_64(), shown);
        assert_eq!(peeked, g);
        assert!(XorShift128p::new([0, 0]) != Some(g));
    }
}

#[test]
fn xorshift128p_same_seed_same_outputs() {
    let mut a = XorShift128p::new([3, 5]).unwrap();
    let mut b = XorShift128p::new2(3, 5).unwrap();
    for _ in 0..1000 {
        assert_eq!(a.next_64(), b.next_64());
    }
}
