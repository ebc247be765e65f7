//! Bucket layouts of the histograms.  The PPS histogram counts clock offsets
//! in whole nanoseconds, so its bounds are integers; the geo histograms use
//! integral multiples of a fractional bucket size, so what is laid out here
//! are the multipliers.

use vstd::prelude::*;

verus! {

/// `count / 2` rounded toward zero, as Rust's integer division does.
pub open spec fn half_of(count: int) -> int {
    if count >= 0 {
        count / 2
    } else {
        -((-count) / 2)
    }
}

/// The bucket bounds `-half * size, ..., -size, 0, size, ..., half * size`,
/// where `half` is half the bucket count rounded toward zero; none when the
/// count is negative.
pub open spec fn symmetric_bounds(size: int, count: int) -> Seq<int> {
    let half = half_of(count);
    Seq::new(if half >= 0 { (2 * half + 1) as nat } else { 0nat }, |k: int| (k - half) * size)
}

/// The bounds fit in `i64`: every multiple `i * size` with `|i| <= half` does.
pub open spec fn bounds_fit(size: int, count: int) -> bool {
    let half = half_of(count);
    half <= 0 || (half * size <= i64::MAX && -(half * size) <= i64::MAX)
}

/// The multipliers `1, 2, ..., count - 1` of the geo offset buckets.
pub open spec fn offset_steps(count: int) -> Seq<int> {
    Seq::new(if count > 1 { (count - 1) as nat } else { 0nat }, |k: int| k + 1)
}

fn half_count(count: i64) -> (half: i64)
    ensures
        half == half_of(count as int),
        -(i64::MAX / 2) - 1 <= half <= i64::MAX / 2,
{
    if count >= 0 {
        count / 2
    } else {
        let magnitude: i128 = -(count as i128);
        let h: i128 = magnitude / 2;
        (-h) as i64
    }
}

/// Whether the PPS histogram bounds for `bucket_size` and `bucket_count` fit in `i64`.
pub fn pps_buckets_fit(bucket_size: i64, bucket_count: i64) -> (fit: bool)
    ensures
        fit == bounds_fit(bucket_size as int, bucket_count as int),
{
    let half = half_count(bucket_count);
    if half <= 0 {
        return true;
    }
    let h: i128 = half as i128;
    let s: i128 = bucket_size as i128;
    assert(-0x8000_0000_0000_0000_0000_0000_0000_0000 < h * s < 0x7fff_ffff_ffff_ffff_ffff_ffff_ffff_ffff)
        by (nonlinear_arith)
        requires
            0 < h <= 0x4000_0000_0000_0000,
            -0x8000_0000_0000_0000 <= s <= 0x7fff_ffff_ffff_ffff,
    ;
    let product: i128 = h * s;
    product <= i64::MAX as i128 && -product <= i64::MAX as i128
}

/// The PPS histogram bounds: the multiples of `bucket_size` from
/// `-half * bucket_size` to `half * bucket_size`, `half` being half of
/// `bucket_count` rounded toward zero.
pub fn make_pps_buckets(bucket_size: i64, bucket_count: i64) -> (buckets: Vec<i64>)
    requires
        bounds_fit(bucket_size as int, bucket_count as int),
    ensures
        buckets@.len() == symmetric_bounds(bucket_size as int, bucket_count as int).len(),
        forall|k: int| 0 <= k < buckets@.len() ==>
            buckets@[k] as int == #[trigger] symmetric_bounds(bucket_size as int, bucket_count as int)[k],
{
    let half = half_count(bucket_count);
    let ghost spec_bounds = symmetric_bounds(bucket_size as int, bucket_count as int);
    let mut buckets: Vec<i64> = Vec::new();
    if half < 0 {
        return buckets;
    }
    let mut i: i64 = -half;
    while i <= half
        invariant
            0 <= half <= i64::MAX / 2,
            -half <= i <= half + 1,
            bounds_fit(bucket_size as int, bucket_count as int),
            half == half_of(bucket_count as int),
            spec_bounds == symmetric_bounds(bucket_size as int, bucket_count as int),
            buckets@.len() == i + half,
            forall|k: int| 0 <= k < buckets@.len() ==> buckets@[k] as int == (k - half) * bucket_size,
        decreases half + 1 - i,
    {
        assert(i * bucket_size <= i64::MAX && i * bucket_size >= i64::MIN) by (nonlinear_arith)
            requires
                -half <= i <= half,
                half * bucket_size <= i64::MAX,
                -(half * bucket_size) <= i64::MAX,
                half > 0 || i == 0,
        {
            if bucket_size >= 0 {
                assert(i * bucket_size <= half * bucket_size);
                assert(i * bucket_size >= -half * bucket_size);
            } else {
                assert(i * bucket_size >= half * bucket_size);
                assert(i * bucket_size <= -half * bucket_size);
            }
        }
        buckets.push(i * bucket_size);
        i = i + 1;
    }
    buckets
}

/// The multipliers of the geo offset buckets: `1` up to `bucket_count - 1`.
pub fn make_geo_offset_steps(bucket_count: i64) -> (steps: Vec<i64>)
    ensures
        steps@.len() == offset_steps(bucket_count as int).len(),
        forall|k: int| 0 <= k < steps@.len() ==>
            steps@[k] as int == #[trigger] offset_steps(bucket_count as int)[k],
{
    let mut steps: Vec<i64> = Vec::new();
    let mut i: i64 = 1;
    while i < bucket_count
        invariant
            1 <= i,
            i <= bucket_count || i == 1,
            steps@.len() == i - 1,
            forall|k: int| 0 <= k < steps@.len() ==> steps@[k] as int == k + 1,
        decreases bucket_count - i,
    {
        steps.push(i);
        i = i + 1;
    }
    steps
}

/// The multipliers of the geo east and north offset buckets: `-half` up to
/// `half`, `half` being half of `bucket_count` rounded toward zero.
pub fn make_geo_yx_steps(bucket_count: i64) -> (steps: Vec<i64>)
    ensures
        steps@.len() == symmetric_bounds(1, bucket_count as int).len(),
        forall|k: int| 0 <= k < steps@.len() ==>
            steps@[k] as int == #[trigger] symmetric_bounds(1, bucket_count as int)[k],
{
    proof {
        let half = half_of(bucket_count as int);
        assert(half <= i64::MAX / 2);
    }
    make_pps_buckets(1, bucket_count)
}

/// With a positive size and a non-negative count, the PPS bounds are
/// strictly increasing (as a histogram needs), symmetric around zero, and
/// zero is the middle one.
pub proof fn lemma_symmetric_bounds_shape(size: int, count: int)
    requires
        size > 0,
        count >= 0,
    ensures
        ({
            let b = symmetric_bounds(size, count);
            &&& b.len() == 2 * half_of(count) + 1
            &&& b[half_of(count)] == 0
            &&& forall|i: int, j: int| 0 <= i < j < b.len() ==> b[i] < b[j]
            &&& forall|k: int| 0 <= k < b.len() ==> #[trigger] b[k] == -b[b.len() - 1 - k]
        }),
{
    let b = symmetric_bounds(size, count);
    let half = half_of(count);
    assert forall|i: int, j: int| 0 <= i < j < b.len() implies b[i] < b[j] by {
        assert((i - half) * size < (j - half) * size) by (nonlinear_arith)
            requires
                i < j,
                size > 0,
        ;
    }
    assert forall|k: int| 0 <= k < b.len() implies #[trigger] b[k] == -b[b.len() - 1 - k] by {
        assert((k - half) * size == -((2 * half - k - half) * size)) by (nonlinear_arith);
    }
}

/// The geo offset multipliers are positive and strictly increasing.
pub proof fn lemma_offset_steps_increasing(count: int)
    ensures
        forall|i: int, j: int|
            #![trigger offset_steps(count)[i], offset_steps(count)[j]]
            0 <= i < j < offset_steps(count).len() ==>
            0 < offset_steps(count)[i] < offset_steps(count)[j],
{
}

} // verus!
