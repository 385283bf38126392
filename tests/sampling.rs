use ray_tracer::sampling::stream_seed;

#[test]
fn stream_seed_layout() {
    let seed = stream_seed(0x0102030405060708, 0x1112131415161718, 0x21222324);
    let expected: [u8; 32] = [
        0x08, 0x07, 0x06, 0x05, 0x04, 0x03, 0x02, 0x01, 0x18, 0x17, 0x16, 0x15, 0x14, 0x13,
        0x12, 0x11, 0x24, 0x23, 0x22, 0x21, 0, 0, 0, 0, 0, 0, 0, 0, 0, 0, 0, 0,
    ];
    assert_eq!(seed, expected);
}

#[test]
fn stream_seed_is_repeatable() {
    assert_eq!(stream_seed(42, 7, 3), stream_seed(42, 7, 3));
}

#[test]
fn stream_seeds_of_distinct_units_differ() {
    let mut seen = Vec::new();
    for pixel in 0..4u64 {
        for sample in 0..4u32 {
            let s = stream_seed(9, pixel, sample);
            assert!(!seen.contains(&s));
            seen.push(s);
        }
    }
    assert_ne!(stream_seed(9, 1, 0), stream_seed(9, 0, 1));
}
