//! Size-adaptive JPEG quality: the larger the source file, the lower the
//! quality it is encoded with.

use vstd::prelude::*;

verus! {

/// Bytes in one mebibyte.
pub const MIB: u64 = 1048576;

/// A source strictly larger than this many bytes counts as medium-sized.
pub const MEDIUM_THRESHOLD: u64 = 5 * MIB;

/// A source strictly larger than this many bytes counts as large.
pub const LARGE_THRESHOLD: u64 = 20 * MIB;

/// Quality points taken off for a medium-sized source.
pub const MEDIUM_PENALTY: u8 = 10;

/// Quality points taken off for a large source.
pub const LARGE_PENALTY: u8 = 20;

/// Lowest quality ever handed to the encoder.
pub const MIN_QUALITY: u8 = 5;

/// Highest quality ever handed to the encoder.
pub const MAX_QUALITY: u8 = 100;

/// Quality points taken off for a source of `size` bytes.
pub open spec fn size_penalty(size: u64) -> int {
    if size > LARGE_THRESHOLD {
        LARGE_PENALTY as int
    } else if size > MEDIUM_THRESHOLD {
        MEDIUM_PENALTY as int
    } else {
        0
    }
}

/// `q` brought into the range from `MIN_QUALITY` to `MAX_QUALITY`.
pub open spec fn clamp_quality(q: int) -> int {
    if q < MIN_QUALITY as int {
        MIN_QUALITY as int
    } else if q > MAX_QUALITY as int {
        MAX_QUALITY as int
    } else {
        q
    }
}

/// The quality a source of `size` bytes is encoded with when the run asks for
/// `base`: the base less the size penalty, clamped.
pub open spec fn effective_quality(base: u8, size: u64) -> int {
    clamp_quality(base as int - size_penalty(size))
}

/// Picks the encoding quality for one source file from the configured base
/// quality and the file's size in bytes.
pub fn calculate_quality(base_quality: u8, file_size_bytes: u64) -> (quality: u8)
    ensures
        quality as int == effective_quality(base_quality, file_size_bytes),
        MIN_QUALITY <= quality <= MAX_QUALITY,
{
    let penalty: u8 = if file_size_bytes > LARGE_THRESHOLD {
        LARGE_PENALTY
    } else if file_size_bytes > MEDIUM_THRESHOLD {
        MEDIUM_PENALTY
    } else {
        0
    };
    let lowered: u8 = if base_quality > penalty {
        base_quality - penalty
    } else {
        0
    };
    if lowered < MIN_QUALITY {
        MIN_QUALITY
    } else if lowered > MAX_QUALITY {
        MAX_QUALITY
    } else {
        lowered
    }
}

/// The effective quality always lies between `MIN_QUALITY` and `MAX_QUALITY`.
pub proof fn lemma_quality_in_range(base: u8, size: u64)
    ensures
        MIN_QUALITY as int <= effective_quality(base, size) <= MAX_QUALITY as int,
{
}

/// A larger source never gets a higher quality than a smaller one at the same
/// base quality.
pub proof fn lemma_quality_non_increasing_in_size(base: u8, smaller: u64, larger: u64)
    requires
        smaller <= larger,
    ensures
        effective_quality(base, larger) <= effective_quality(base, smaller),
{
}

/// Up to and including the medium threshold the size changes nothing: the
/// effective quality is the base quality, clamped.
pub proof fn lemma_small_source_keeps_base(base: u8, size: u64)
    requires
        size <= MEDIUM_THRESHOLD,
    ensures
        effective_quality(base, size) == clamp_quality(base as int),
{
}

/// Within the codec's range of 1 to 100, a small source is encoded at the
/// base quality itself unless that lies under `MIN_QUALITY`.
pub proof fn lemma_small_source_in_range(base: u8, size: u64)
    requires
        size <= MEDIUM_THRESHOLD,
        MIN_QUALITY <= base <= MAX_QUALITY,
    ensures
        effective_quality(base, size) == base as int,
{
}

/// A higher base quality never gives a lower effective quality for the same
/// source.
pub proof fn lemma_quality_non_decreasing_in_base(lower: u8, higher: u8, size: u64)
    requires
        lower <= higher,
    ensures
        effective_quality(lower, size) <= effective_quality(higher, size),
{
}

} // verus!
