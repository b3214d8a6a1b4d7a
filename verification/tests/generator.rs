use quickrand::Rng;

fn le_bytes(w: u64) -> [u8; 8] {
    let mut out = [0u8; 8];
    let mut i: usize = 0;
    while i < 8 {
        out[i] = (w >> (8 * i as u32)) as u8;
        i += 1;
    }
    out
}

#[test]
fn trivial_tests() {
    let mut g = Rng::new(42);
    assert_eq!(g.u64(), 0x5a2f8595cd4bbbe9);
    assert_eq!(g.i64(), 0x3e812fb7a060460b);
    assert_eq!(g.u32(), 0x1ece33b3);
    assert_eq!(g.i32(), 0x63ec5784);
    assert_eq!(g.bounded_u32(10), 3);
    assert_eq!(g.bool(), true);
}

#[test]
fn determinism_same_seed_same_sequence() {
    for seed in [0u128, 1, 42, u128::MAX, 0xcafebabe_deadbeef_12345678_90123456] {
        let mut a = Rng::new(seed);
        let mut b = Rng::new(seed);
        for _ in 0..100 {
            assert_eq!(a.u64(), b.u64());
            assert_eq!(a.u32(), b.u32());
            assert_eq!(a.i64(), b.i64());
            assert_eq!(a.i32(), b.i32());
            assert_eq!(a.bool(), b.bool());
            assert_eq!(a.bounded_u32(17), b.bounded_u32(17));
        }
    }
}

#[test]
fn clone_preserves_stream() {
    let mut a = Rng::new(7);
    a.u64();
    let mut b = a.clone();
    for _ in 0..50 {
        assert_eq!(a.u64(), b.u64());
    }
}

#[test]
fn next_matches_u64() {
    let mut g = Rng::new(99);
    let mut s = g.clone();
    for _ in 0..50 {
        let (s2, w) = Rng::next(s);
        s = s2;
        assert_eq!(g.u64(), w);
    }
}

#[test]
fn split_children_diverge_from_parent() {
    // The child's first word already differs from the parent's next word for
    // every tested seed, so every prefix of up to 1000 words differs too.
    for seed in 0..100u128 {
        let mut parent = Rng::new(seed);
        let mut child = parent.split();
        assert_ne!(child.u64(), parent.u64());
    }
    let mut parent = Rng::new(42);
    let mut child = parent.split();
    let mut child_words = Vec::new();
    let mut parent_words = Vec::new();
    for _ in 0..1000 {
        child_words.push(child.u64());
        parent_words.push(parent.u64());
    }
    for n in 1..=1000usize {
        assert_ne!(child_words[..n], parent_words[..n]);
    }
}

#[test]
fn split_child_first_word_forced_odd() {
    for seed in 0..100u128 {
        let mut parent = Rng::new(seed);
        let child = parent.split();
        let mut twin = Rng::new(seed);
        assert_eq!(child.x, twin.u64() | 1);
        assert_eq!(child.y, twin.u64());
        assert_eq!(child.x & 1, 1);
    }
}

#[test]
fn fill_matches_single_word_draws() {
    let mut filler = Rng::new(42);
    let mut drawer = Rng::new(42);
    let mut buf = vec![0u8; 64];
    filler.fill(&mut buf);
    let mut expected = Vec::new();
    for _ in 0..8 {
        expected.extend_from_slice(&le_bytes(drawer.u64()));
    }
    assert_eq!(buf, expected);
    // Both generators advanced by the same eight words.
    assert_eq!(filler.u64(), drawer.u64());
}

#[test]
fn fill_remainder_matches_leading_bytes() {
    let mut filler = Rng::new(42);
    let mut buf = vec![0u8; 13];
    filler.fill(&mut buf);
    assert_eq!(
        buf,
        vec![0xe9, 0xbb, 0x4b, 0xcd, 0x95, 0x85, 0x2f, 0x5a, 0x0b, 0x46, 0x60, 0xa0, 0xb7]
    );
    let mut drawer = Rng::new(42);
    let w0 = drawer.u64();
    let w1 = drawer.u64();
    assert_eq!(&buf[..8], &le_bytes(w0));
    assert_eq!(&buf[8..], &le_bytes(w1)[..5]);
    // The partial last word still cost one full draw.
    assert_eq!(filler.u64(), drawer.u64());
}

#[test]
fn fill_empty_is_noop() {
    let mut filler = Rng::new(5);
    let mut buf: Vec<u8> = Vec::new();
    filler.fill(&mut buf);
    assert!(buf.is_empty());
    let mut twin = Rng::new(5);
    assert_eq!(filler.u64(), twin.u64());
}

#[test]
fn fill_all_lengths_consistent() {
    for len in 0..=24usize {
        let mut filler = Rng::new(1234);
        let mut drawer = Rng::new(1234);
        let mut buf = vec![0u8; len];
        filler.fill(&mut buf);
        let mut expected = Vec::new();
        while expected.len() < len {
            expected.extend_from_slice(&le_bytes(drawer.u64()));
        }
        expected.truncate(len);
        assert_eq!(buf, expected);
    }
}

#[test]
fn bool_is_sign_bit() {
    let mut g = Rng::new(31);
    let mut twin = Rng::new(31);
    for _ in 0..200 {
        let b = g.bool();
        let w = twin.u64();
        assert_eq!(b, (w as i64) >= 0);
        assert_eq!(b, w >> 63 == 0);
    }
}

#[test]
fn half_width_draws_take_high_bits() {
    let mut g = Rng::new(77);
    let mut twin = Rng::new(77);
    for _ in 0..200 {
        assert_eq!(g.u32(), (twin.u64() >> 32) as u32);
    }
    let mut h = Rng::new(78);
    let mut twin2 = Rng::new(78);
    for _ in 0..200 {
        assert_eq!(h.i32(), ((twin2.u64() >> 32) as u32) as i32);
        assert_eq!(h.i64(), twin2.u64() as i64);
    }
}
