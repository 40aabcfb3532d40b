use alazar::xorshift::{XorShift16, XorShift8, XorShift8Custom, XorShift8Gen};

#[test]
fn xorshift8_rejects_zero_seed() {
    assert!(XorShift8::new(0).is_none());
    assert!(XorShift8::new(1).is_some());
    assert!(XorShift8::new(255).is_some());
}

#[test]
fn xorshift8_sequence_from_one() {
    let mut g = XorShift8::new(1).unwrap();
    assert_eq!(g.current_u8(), 1);
    let got: Vec<u8> = (0..5).map(|_| g.next_u8()).collect();
    assert_eq!(got, vec![45, 69, 199, 48, 87]);
    assert_eq!(g.current_u8(), 87);
}

#[test]
fn xorshift8_default_seed() {
    let mut g = XorShift8::default();
    assert_eq!(g.current_u8(), 0xDE);
    assert_eq!(g.next_u8(), 156);
    assert_eq!(g.next_u8(), 151);
}

#[test]
fn xorshift8_new_unchecked_keeps_the_seed() {
    assert_eq!(XorShift8::new_unchecked(7), XorShift8::new(7).unwrap());
}

#[test]
fn xorshift8_never_reaches_zero() {
    for seed in 1..=255u8 {
        let mut g = XorShift8::new(seed).unwrap();
        assert_ne!(g.next_u8(), 0);
    }
}

#[test]
fn xorshift8_step_maps_distinct_states_to_distinct_states() {
    let mut seen = [false; 256];
    for seed in 1..=255u8 {
        let x = XorShift8::new(seed).unwrap().next_new().current_u8();
        assert!(!seen[x as usize]);
        seen[x as usize] = true;
    }
    assert!(!seen[0]);
}

#[test]
fn xorshift8_peek_matches_advance() {
    for seed in 1..=255u8 {
        let before = XorShift8::new(seed).unwrap();
        let peeked = before.next_new();
        assert_eq!(before.current_u8(), seed);
        let mut advanced = before;
        let out = advanced.next_u8();
        assert_eq!(peeked, advanced);
        assert_eq!(peeked.current_u8(), out);
    }
}

#[test]
fn xorshift8_same_seed_same_outputs() {
    let mut a = XorShift8::new(99).unwrap();
    let mut b = XorShift8::new(99).unwrap();
    for _ in 0..600 {
        assert_eq!(a.next_u8(), b.next_u8());
    }
}

#[test]
fn xorshift8_custom_with_the_fixed_triple_is_xorshift8() {
    for seed in 1..=255u8 {
        let mut fixed = XorShift8::new(seed).unwrap();
        let mut custom = XorShift8Custom::<3, 4, 2>::new(seed).unwrap();
        let mut generic = XorShift8Gen::<3, 4, 2>::new(seed).unwrap();
        let want = fixed.next_u8();
        assert_eq!(custom.next_u8(), want);
        assert_eq!(generic.next_u8(), want);
    }
}

#[test]
fn xorshift8_custom_other_triples() {
    let mut g = XorShift8Custom::<1, 1, 2>::new(1).unwrap();
    let got: Vec<u8> = (0..3).map(|_| g.next_u8()).collect();
    assert_eq!(got, vec![10, 85, 128]);
    let mut g = XorShift8Custom::<5, 3, 1>::new(0x80).unwrap();
    let got: Vec<u8> = (0..3).map(|_| g.next_u8()).collect();
    assert_eq!(got, vec![176, 234, 193]);
    let mut g = XorShift8Gen::<5, 3, 1>::new(0x80).unwrap();
    let got: Vec<u8> = (0..3).map(|_| g.next_u8()).collect();
    assert_eq!(got, vec![176, 234, 193]);
}

#[test]
fn xorshift8_custom_rejects_zero_seed() {
    assert!(XorShift8Custom::<3, 4, 2>::new(0).is_none());
    assert!(XorShift8Custom::<7, 7, 7>::new(0).is_none());
    assert!(XorShift8Gen::<3, 4, 2>::new(0).is_none());
    assert!(XorShift8Gen::<1, 1, 1>::new(0).is_none());
}

#[test]
fn xorshift8_custom_never_reaches_zero_on_the_edge_shifts() {
    for seed in 1..=255u8 {
        assert_ne!(XorShift8Custom::<1, 1, 1>::new(seed).unwrap().next_u8(), 0);
        assert_ne!(XorShift8Custom::<7, 7, 7>::new(seed).unwrap().next_u8(), 0);
        assert_ne!(XorShift8Custom::<1, 7, 1>::new(seed).unwrap().next_u8(), 0);
        assert_ne!(XorShift8Custom::<7, 1, 7>::new(seed).unwrap().next_u8(), 0);
        assert_ne!(XorShift8Gen::<7, 1, 7>::new(seed).unwrap().next_u8(), 0);
    }
}

#[test]
fn xorshift8_custom_default_and_unchecked() {
    let g = XorShift8Custom::<3, 4, 2>::default();
    assert_eq!(g.current_u8(), 0xDE);
    assert_eq!(g, XorShift8Custom::<3, 4, 2>::new_unchecked(0xDE));
    assert_eq!(g.next_new().current_u8(), 156);
}

#[test]
fn xorshift8_custom_peek_matches_advance() {
    for seed in 1..=255u8 {
        let before = XorShift8Custom::<2, 5, 3>::new(seed).unwrap();
        let peeked = before.next_new();
        assert_eq!(before.current_u8(), seed);
        let mut advanced = before;
        let out = advanced.next_u8();
        assert_eq!(peeked, advanced);
        assert_eq!(peeked.current_u8(), out);
    }
}

#[test]
fn xorshift16_rejects_zero_seed() {
    assert!(XorShift16::new(0).is_none());
    assert!(XorShift16::new1_u16(0).is_none());
    assert!(XorShift16::new2_u8([0, 0]).is_none());
    assert!(XorShift16::new(1).is_some());
    assert!(XorShift16::new2_u8([0, 1]).is_some());
    assert!(XorShift16::new2_u8([1, 0]).is_some());
}

#[test]
fn xorshift16_sequence_from_one() {
    let mut g = XorShift16::new(1).unwrap();
    let got: Vec<u16> = (0..5).map(|_| g.next_u16()).collect();
    assert_eq!(got, vec![33153, 24609, 59801, 11787, 46494]);
    assert_eq!(g.current_u16(), 46494);
}

#[test]
fn xorshift16_default_seed() {
    let mut g = XorShift16::default();
    assert_eq!(g.current_u16(), 0xDEFA);
    assert_eq!(g.next_u16(), 2219);
    assert_eq!(g.next_u16(), 22533);
}

#[test]
fn xorshift16_new2_u8_joins_low_byte_first() {
    let g = XorShift16::new2_u8([0x01, 0x02]).unwrap();
    assert_eq!(g.current_u16(), 0x0201);
    assert_eq!(g, XorShift16::new(0x0201).unwrap());
    assert_eq!(XorShift16::new1_u16(0x0201), XorShift16::new(0x0201));
    assert_eq!(XorShift16::new_unchecked(0x0201), g);
}

#[test]
fn xorshift16_never_reaches_zero() {
    for seed in 1..=u16::MAX {
        let mut g = XorShift16::new(seed).unwrap();
        assert_ne!(g.next_u16(), 0);
    }
}

#[test]
fn xorshift16_peek_matches_advance() {
    let mut g = XorShift16::new(1).unwrap();
    for _ in 0..2000 {
        let before = g;
        let peeked = g.next_new();
        assert_eq!(g, before);
        let out = g.next_u16();
        assert_eq!(peeked, g);
        assert_eq!(peeked.current_u16(), out);
    }
}

#[test]
fn xorshift16_same_seed_same_outputs() {
    let mut a = XorShift16::new(0xBEEF).unwrap();
    let mut b = XorShift16::new2_u8([0xEF, 0xBE]).unwrap();
    for _ in 0..2000 {
        assert_eq!(a.next_u16(), b.next_u16());
    }
}

#[test]
fn xorshift16_next_u32_takes_two_outputs_low_half_first() {
    let mut g = XorShift16::new(1).unwrap();
    assert_eq!(g.next_u32(), 1612808577);
    assert_eq!(g.current_u16(), 24609);
    assert_eq!(g.next_u16(), 59801);
}

#[test]
fn xorshift16_next_u64_takes_four_outputs_lowest_first() {
    let mut g = XorShift16::new(1).unwrap();
    assert_eq!(g.next_u64(), 3318002395440578945);
    assert_eq!(g.current_u16(), 11787);
}

#[test]
fn xorshift16_fill_three_bytes_takes_two_outputs() {
    let mut g = XorShift16::new(1).unwrap();
    let mut buf = [0u8; 3];
    g.fill_bytes(&mut buf);
    // 33153 = 0x8181, 24609 = 0x6021: the high byte 0x60 is dropped.
    assert_eq!(buf, [0x81, 0x81, 0x21]);
    assert_eq!(g.current_u16(), 24609);
    assert_eq!(g.next_u16(), 59801);
}

#[test]
fn xorshift16_fill_even_and_empty_buffers() {
    let mut g = XorShift16::new(1).unwrap();
    let mut buf = [0u8; 4];
    g.fill_bytes(&mut buf);
    assert_eq!(buf, [129, 129, 33, 96]);
    assert_eq!(g.current_u16(), 24609);
    let mut none: [u8; 0] = [];
    g.fill_bytes(&mut none);
    assert_eq!(g.current_u16(), 24609);
    let mut one = [0u8; 1];
    g.fill_bytes(&mut one);
    assert_eq!(one, [(59801u16 & 0xff) as u8]);
    assert_eq!(g.current_u16(), 59801);
}

#[test]
fn xorshift16_from_seed_falls_back_to_the_default_on_zero() {
    assert_eq!(XorShift16::from_seed([0, 0]), XorShift16::default());
    assert_eq!(XorShift16::from_seed([0x01, 0x02]), XorShift16::new(0x0201).unwrap());
    assert_eq!(XorShift16::from_seed([0, 1]).current_u16(), 0x0100);
}
