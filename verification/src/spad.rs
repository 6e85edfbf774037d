//! The reference-SPAD enable bitmap: 48 pixel-enable bits in six bytes,
//! rewritten during bring-up so that only the reported number of
//! reference pixels stays enabled, scanning bit positions in order from
//! a fixed offset that depends on the pixel type.

use vstd::prelude::*;

verus! {

/// First eligible bit position: aperture pixels begin at position 12,
/// others at 0.
pub open spec fn spec_first_spad(spad_type_is_aperture: u8) -> int {
    if spad_type_is_aperture != 0 {
        12
    } else {
        0
    }
}

/// Whether bit `i` of the bitmap is set (least-significant bit first
/// within each byte).
pub open spec fn spad_bit(m: Seq<u8>, i: int) -> bool {
    (m[i / 8] >> ((i % 8) as u8)) & 1 == 1
}

/// Number of set bits at positions `lo <= i < hi`.
pub open spec fn spad_count_set(m: Seq<u8>, lo: int, hi: int) -> int
    decreases hi - lo,
{
    if hi <= lo {
        0
    } else {
        spad_count_set(m, lo, hi - 1) + if spad_bit(m, hi - 1) {
            1int
        } else {
            0int
        }
    }
}

/// A bit survives the rewrite exactly when it lies at or past the first
/// eligible position, was set before, and fewer than `count` eligible
/// set bits precede it.
pub open spec fn spad_bit_kept(orig: Seq<u8>, first: int, count: int, j: int) -> bool {
    &&& j >= first
    &&& spad_bit(orig, j)
    &&& spad_count_set(orig, first, j) < count
}

/// Counting the kept bits from the left gives the eligible count capped
/// at `count`.
proof fn lemma_filtered_count(orig: Seq<u8>, new: Seq<u8>, first: int, count: int, hi: int)
    requires
        0 <= first,
        0 <= count,
        0 <= hi <= 48,
        forall|j: int| 0 <= j < 48 ==> spad_bit(new, j) == spad_bit_kept(orig, first, count, j),
    ensures
        spad_count_set(new, 0, hi) == vstd::math::min(count, spad_count_set(orig, first, hi)),
    decreases hi,
{
    if hi == 0 {
    } else {
        lemma_filtered_count(orig, new, first, count, hi - 1);
        assert(spad_bit(new, hi - 1) == spad_bit_kept(orig, first, count, hi - 1));
    }
}

/// Rewrites the reference-SPAD enable bitmap in place: bits below the
/// first eligible position are cleared, and of the eligible set bits the
/// first `spad_count` (in bit order) are kept.  Afterwards exactly
/// `min(spad_count, eligible set bits)` bits are set, none below the
/// offset.
pub fn filter_spad_map(map: &mut Vec<u8>, spad_count: u8, spad_type_is_aperture: u8)
    requires
        old(map)@.len() == 6,
    ensures
        final(map)@.len() == 6,
        forall|j: int|
            0 <= j < 48 ==> spad_bit(final(map)@, j) == spad_bit_kept(
                old(map)@,
                spec_first_spad(spad_type_is_aperture),
                spad_count as int,
                j,
            ),
        forall|j: int|
            0 <= j < spec_first_spad(spad_type_is_aperture) ==> !spad_bit(final(map)@, j),
        spad_count_set(final(map)@, 0, 48) == vstd::math::min(
            spad_count as int,
            spad_count_set(old(map)@, spec_first_spad(spad_type_is_aperture), 48),
        ),
{
    let ghost orig = map@;
    let first_spad_to_enable: usize = if spad_type_is_aperture != 0 {
        12
    } else {
        0
    };
    let ghost first = spec_first_spad(spad_type_is_aperture);
    let mut spads_enabled: u8 = 0;
    let mut i: usize = 0;

    while i < 48
        invariant
            map@.len() == 6,
            0 <= i <= 48,
            first == spec_first_spad(spad_type_is_aperture),
            first_spad_to_enable as int == first,
            spads_enabled as int == vstd::math::min(
                spad_count as int,
                spad_count_set(orig, first, i as int),
            ),
            forall|j: int|
                0 <= j < i ==> spad_bit(map@, j) == spad_bit_kept(
                    orig,
                    first,
                    spad_count as int,
                    j,
                ),
            forall|j: int| i <= j < 48 ==> spad_bit(map@, j) == spad_bit(orig, j),
        decreases 48 - i,
    {
        let byte_index = i / 8;
        let bit_index = i % 8;
        let b = map[byte_index];
        let ghost pre = map@;
        if i < first_spad_to_enable || spads_enabled == spad_count {
            // this bit lies below the first eligible position, or enough
            // bits are already enabled: clear it
            map.set(byte_index, b & !(1u8 << bit_index));
            proof {
                let k = bit_index as u8;
                assert(k < 8 ==> ((b & !(1u8 << k)) >> k) & 1 == 0) by (bit_vector);
                assert forall|kk: u8| kk < 8 && kk != k implies ((b & !(1u8 << k)) >> kk) & 1 == (b
                    >> kk) & 1 by {
                    assert((kk < 8 && k < 8 && kk != k) ==> ((b & !(1u8 << k)) >> kk) & 1 == (b
                        >> kk) & 1) by (bit_vector);
                }
                assert forall|j: int| 0 <= j < 48 && j != i implies spad_bit(map@, j) == spad_bit(
                    pre,
                    j,
                ) by {
                    if j / 8 == byte_index {
                        assert(((j % 8) as u8) != k && ((j % 8) as u8) < 8);
                    }
                }
                assert(!spad_bit(map@, i as int));
            }
        } else if (b >> bit_index) & 0x1 > 0 {
            spads_enabled = spads_enabled + 1;
            proof {
                let k = bit_index as u8;
                assert((k < 8 && (b >> k) & 0x1 > 0) ==> (b >> k) & 1 == 1) by (bit_vector);
                assert(spad_bit(map@, i as int));
            }
        } else {
            proof {
                let k = bit_index as u8;
                assert((k < 8 && !((b >> k) & 0x1 > 0)) ==> (b >> k) & 1 != 1) by (bit_vector);
                assert(!spad_bit(map@, i as int));
            }
        }
        i = i + 1;
    }
    proof {
        lemma_filtered_count(orig, map@, first, spad_count as int, 48);
    }
}

} // verus!
