//! Seeds of the random streams of the render's work units.
//!
//! Every (pixel, sample) unit draws from a stream of its own, seeded from a
//! base seed and the unit's coordinates alone, so that a render repeated with
//! the same base seed draws the same numbers in every unit, whichever worker
//! runs it and in whatever order.
use vstd::prelude::*;

verus! {

/// The eight bytes of `x`, least significant first.
pub open spec fn le_bytes(x: u64) -> Seq<u8> {
    seq![
        (x & 0xff) as u8,
        ((x >> 8) & 0xff) as u8,
        ((x >> 16) & 0xff) as u8,
        ((x >> 24) & 0xff) as u8,
        ((x >> 32) & 0xff) as u8,
        ((x >> 40) & 0xff) as u8,
        ((x >> 48) & 0xff) as u8,
        ((x >> 56) & 0xff) as u8,
    ]
}

/// The seed of the stream of sample `sample` of the pixel at row-major index
/// `pixel`: the bytes of `base`, of `pixel` and of `sample`, then zeros.
pub open spec fn seed_of(base: u64, pixel: u64, sample: u32) -> Seq<u8> {
    le_bytes(base) + le_bytes(pixel) + le_bytes(sample as u64) + Seq::new(8, |i: int| 0u8)
}

/// The 32-byte seed of the random stream of one (pixel, sample) unit.
pub fn stream_seed(base: u64, pixel: u64, sample: u32) -> (r: [u8; 32])
    ensures
        r@ == seed_of(base, pixel, sample),
{
    let s: u64 = sample as u64;
    proof {
        lemma_byte_bounds(base);
        lemma_byte_bounds(pixel);
        lemma_byte_bounds(s);
    }
    let r: [u8; 32] = [
        (base & 0xff) as u8, ((base >> 8) & 0xff) as u8, ((base >> 16) & 0xff) as u8, ((base >> 24) & 0xff) as u8,
        ((base >> 32) & 0xff) as u8, ((base >> 40) & 0xff) as u8, ((base >> 48) & 0xff) as u8, ((base >> 56) & 0xff) as u8,
        (pixel & 0xff) as u8, ((pixel >> 8) & 0xff) as u8, ((pixel >> 16) & 0xff) as u8, ((pixel >> 24) & 0xff) as u8,
        ((pixel >> 32) & 0xff) as u8, ((pixel >> 40) & 0xff) as u8, ((pixel >> 48) & 0xff) as u8, ((pixel >> 56) & 0xff) as u8,
        (s & 0xff) as u8, ((s >> 8) & 0xff) as u8, ((s >> 16) & 0xff) as u8, ((s >> 24) & 0xff) as u8,
        ((s >> 32) & 0xff) as u8, ((s >> 40) & 0xff) as u8, ((s >> 48) & 0xff) as u8, ((s >> 56) & 0xff) as u8,
        0, 0, 0, 0,
        0, 0, 0, 0,
    ];
    assert(r@.subrange(0, 8) =~= le_bytes(base));
    assert(r@.subrange(8, 16) =~= le_bytes(pixel));
    assert(r@.subrange(16, 24) =~= le_bytes(s));
    assert(r@.subrange(24, 32) =~= Seq::new(8, |i: int| 0u8));
    assert(r@ =~= r@.subrange(0, 8) + r@.subrange(8, 16) + r@.subrange(16, 24) + r@.subrange(
        24,
        32,
    ));
    r
}

proof fn lemma_byte_bounds(x: u64)
    ensures
        (x & 0xff) <= 0xff,
        ((x >> 8) & 0xff) <= 0xff,
        ((x >> 16) & 0xff) <= 0xff,
        ((x >> 24) & 0xff) <= 0xff,
        ((x >> 32) & 0xff) <= 0xff,
        ((x >> 40) & 0xff) <= 0xff,
        ((x >> 48) & 0xff) <= 0xff,
        ((x >> 56) & 0xff) <= 0xff,
{
    assert((x & 0xff) <= 0xff
        && ((x >> 8) & 0xff) <= 0xff
        && ((x >> 16) & 0xff) <= 0xff
        && ((x >> 24) & 0xff) <= 0xff
        && ((x >> 32) & 0xff) <= 0xff
        && ((x >> 40) & 0xff) <= 0xff
        && ((x >> 48) & 0xff) <= 0xff
        && ((x >> 56) & 0xff) <= 0xff) by (bit_vector);
}

proof fn lemma_le_bytes_injective(x: u64, y: u64)
    requires
        le_bytes(x) == le_bytes(y),
    ensures
        x == y,
{
    lemma_byte_bounds(x);
    lemma_byte_bounds(y);
    assert(le_bytes(x)[0] == le_bytes(y)[0]);
    assert(le_bytes(x)[1] == le_bytes(y)[1]);
    assert(le_bytes(x)[2] == le_bytes(y)[2]);
    assert(le_bytes(x)[3] == le_bytes(y)[3]);
    assert(le_bytes(x)[4] == le_bytes(y)[4]);
    assert(le_bytes(x)[5] == le_bytes(y)[5]);
    assert(le_bytes(x)[6] == le_bytes(y)[6]);
    assert(le_bytes(x)[7] == le_bytes(y)[7]);
    assert(x == y) by (bit_vector)
        requires
            (x & 0xff) == (y & 0xff),
            ((x >> 8) & 0xff) == ((y >> 8) & 0xff),
            ((x >> 16) & 0xff) == ((y >> 16) & 0xff),
            ((x >> 24) & 0xff) == ((y >> 24) & 0xff),
            ((x >> 32) & 0xff) == ((y >> 32) & 0xff),
            ((x >> 40) & 0xff) == ((y >> 40) & 0xff),
            ((x >> 48) & 0xff) == ((y >> 48) & 0xff),
            ((x >> 56) & 0xff) == ((y >> 56) & 0xff),
    ;
}

/// Distinct work units of a render draw from distinct streams: two (pixel,
/// sample) pairs that differ have different seeds under the same base seed.
pub proof fn lemma_stream_seed_distinct(base: u64, p1: u64, s1: u32, p2: u64, s2: u32)
    requires
        p1 != p2 || s1 != s2,
    ensures
        seed_of(base, p1, s1) != seed_of(base, p2, s2),
{
    if seed_of(base, p1, s1) == seed_of(base, p2, s2) {
        let a = seed_of(base, p1, s1);
        let b = seed_of(base, p2, s2);
        assert(a.subrange(8, 16) =~= le_bytes(p1));
        assert(b.subrange(8, 16) =~= le_bytes(p2));
        assert(a.subrange(16, 24) =~= le_bytes(s1 as u64));
        assert(b.subrange(16, 24) =~= le_bytes(s2 as u64));
        lemma_le_bytes_injective(p1, p2);
        lemma_le_bytes_injective(s1 as u64, s2 as u64);
    }
}

} // verus!
