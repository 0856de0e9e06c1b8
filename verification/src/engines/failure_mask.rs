//! Failure masks: one bit per checked invariant.
use vstd::prelude::*;

verus! {

/// The mask bit of invariant code `code`.
pub closed spec fn bit(code: u64) -> u64 {
    1u64 << code
}

/// Whether bit `code` of `mask` is set.
pub closed spec fn bit_set(mask: u64, code: u64) -> bool {
    mask & bit(code) != 0
}

/// The mask bit of a code is `1 << code`, and a bit is set exactly when the
/// mask shares it.
pub proof fn lemma_bit_value(mask: u64, code: u64)
    ensures
        bit(code) == 1u64 << code,
        bit_set(mask, code) == (mask & (1u64 << code) != 0),
{
}

/// Setting a bit sets that bit and leaves the others as they were.
proof fn lemma_set_bit(m: u64, k: u64, j: u64)
    requires
        k < 64,
        j < 64,
    ensures
        bit_set(m | bit(k), j) == (bit_set(m, j) || j == k),
        (m | bit(k)) != 0,
{
    assert(((m | (1u64 << k)) & (1u64 << j) != 0) == ((m & (1u64 << j) != 0) || j == k)) by (bit_vector)
        requires
            k < 64,
            j < 64,
    ;
    assert((m | (1u64 << k)) != 0) by (bit_vector)
        requires
            k < 64,
    ;
}

/// Setting bit `k` of a mask below `2^k` keeps it below `2^(k+1)`.
proof fn lemma_mask_grows(m: u64, k: u64)
    requires
        k < 63,
        m < bit(k),
    ensures
        (m | bit(k)) < bit((k + 1) as u64),
        m < bit((k + 1) as u64),
{
    assert(m < (1u64 << k) ==> (m | (1u64 << k)) < (1u64 << ((k + 1) as u64)) && m < (1u64 << ((k + 1) as u64)))
        by (bit_vector)
        requires
            k < 63,
    ;
}

/// No bit of zero is set, and bits below 64 are non-zero.
proof fn lemma_zero_and_bits(j: u64)
    requires
        j < 64,
    ensures
        !bit_set(0, j),
        bit(j) != 0,
{
    assert((0u64 & (1u64 << j)) == 0 && (1u64 << j) != 0) by (bit_vector)
        requires
            j < 64,
    ;
}

/// No bit of the empty mask is set.
pub proof fn lemma_empty_mask()
    ensures
        forall|j: u64| j < 64 ==> !#[trigger] bit_set(0, j),
        0 < bit(0),
{
    assert forall|j: u64| j < 64 implies !#[trigger] bit_set(0, j) by {
        lemma_zero_and_bits(j);
    }
    assert(0u64 < (1u64 << 0u64)) by (bit_vector);
}

/// A bit at or above `k` of a mask below `2^k` is clear.
pub proof fn lemma_high_bits_clear(m: u64, k: u64, j: u64)
    requires
        k <= j < 64,
        m < bit(k),
    ensures
        !bit_set(m, j),
{
    assert(m < (1u64 << k) ==> (m & (1u64 << j)) == 0) by (bit_vector)
        requires
            k <= j < 64,
    ;
}

/// Distinct codes have distinct single-bit masks.
pub proof fn lemma_masks_distinct(a: u64, b: u64)
    requires
        a < 64,
        b < 64,
        a != b,
    ensures
        bit(a) != 0,
        bit(a) & bit(b) == 0,
        bit(a) & bit(a) == bit(a),
{
    assert((1u64 << a) != 0 && ((1u64 << a) & (1u64 << b)) == 0 && ((1u64 << a) & (1u64 << a)) == (1u64 << a))
        by (bit_vector)
        requires
            a < 64,
            b < 64,
            a != b,
    ;
}

/// Builds the mask whose bit `i` is set exactly when `flags[i]` holds.
pub fn mask_of_flags<const N: usize>(flags: &[bool; N]) -> (m: u64)
    requires
        N < 63,
    ensures
        forall|j: u64| j < 64 ==> #[trigger] bit_set(m, j) == (j < N && flags@[j as int]),
        (m == 0) == (forall|j: int| 0 <= j < N ==> !flags@[j]),
        m < bit(N as u64),
{
    let mut m: u64 = 0;
    let mut i: usize = 0;
    proof {
        assert(0u64 < (1u64 << 0u64)) by (bit_vector);
        assert forall|j: u64| j < 64 implies #[trigger] bit_set(0, j) == false by {
            lemma_zero_and_bits(j);
        }
    }
    while i < N
        invariant
            i <= N,
            N < 63,
            forall|j: u64| j < 64 ==> #[trigger] bit_set(m, j) == (j < i && flags@[j as int]),
            (m == 0) == (forall|j: int| 0 <= j < i ==> !flags@[j]),
            m < bit(i as u64),
        decreases N - i,
    {
        let ghost old_m = m;
        if flags[i] {
            proof {
                lemma_mask_grows(m, i as u64);
                assert forall|j: u64| j < 64 implies #[trigger] bit_set(m | bit(i as u64), j) == (j < i + 1
                    && flags@[j as int]) by {
                    lemma_set_bit(old_m, i as u64, j);
                }
                lemma_set_bit(m, i as u64, 0);
            }
            m = m | (1u64 << (i as u64));
        } else {
            proof {
                lemma_mask_grows(m, i as u64);
            }
        }
        i = i + 1;
    }
    m
}

/// Sets bit `code` of a mask whose higher bits are clear where `failed`
/// holds.
pub fn with_flag(mask: u64, code: u8, failed: bool) -> (r: u64)
    requires
        code < 63,
        mask < bit(code as u64),
    ensures
        forall|j: u64| j < 64 ==> #[trigger] bit_set(r, j) == (bit_set(mask, j) || (failed && j == code)),
        r < bit((code + 1) as u64),
        (r == 0) == (mask == 0 && !failed),
{
    proof {
        lemma_mask_grows(mask, code as u64);
    }
    if failed {
        proof {
            assert forall|j: u64| j < 64 implies #[trigger] bit_set(mask | bit(code as u64), j) == (bit_set(mask, j)
                || j == code) by {
                lemma_set_bit(mask, code as u64, j);
            }
            lemma_set_bit(mask, code as u64, 0);
        }
        mask | (1u64 << (code as u64))
    } else {
        mask
    }
}

/// Packs four flags into bits 0 to 3 of a mask.
pub fn pack_flags4(a: bool, b: bool, c: bool, d: bool) -> (g: u64)
    ensures
        bit_set(g, 0) == a,
        bit_set(g, 1) == b,
        bit_set(g, 2) == c,
        bit_set(g, 3) == d,
        g < bit(4),
        (g == 0) == (!a && !b && !c && !d),
{
    proof {
        lemma_empty_mask();
    }
    let g = with_flag(0, 0, a);
    let g = with_flag(g, 1, b);
    let g = with_flag(g, 2, c);
    with_flag(g, 3, d)
}

/// Packs five flags into bits 0 to 4 of a mask.
pub fn pack_flags5(a: bool, b: bool, c: bool, d: bool, e: bool) -> (g: u64)
    ensures
        bit_set(g, 0) == a,
        bit_set(g, 1) == b,
        bit_set(g, 2) == c,
        bit_set(g, 3) == d,
        bit_set(g, 4) == e,
        g < bit(5),
        (g == 0) == (!a && !b && !c && !d && !e),
{
    let g = pack_flags4(a, b, c, d);
    proof {
        lemma_high_bits_clear(g, 4, 4);
    }
    with_flag(g, 4, e)
}

/// Places the mask `group` of `group_bits` bits above the `low_bits` bits of
/// the mask `low`.
pub fn append_flags(low: u64, low_bits: u8, group: u64, group_bits: u8) -> (r: u64)
    requires
        low_bits + group_bits < 64,
        low < bit(low_bits as u64),
        group < bit(group_bits as u64),
    ensures
        forall|j: u64|
            j < 64 ==> #[trigger] bit_set(r, j) == if j < low_bits {
                bit_set(low, j)
            } else {
                j < low_bits + group_bits && bit_set(group, (j - low_bits) as u64)
            },
        r < bit((low_bits + group_bits) as u64),
        (r == 0) == (low == 0 && group == 0),
{
    let lb = low_bits as u64;
    let gb = group_bits as u64;
    let r = low | (group << lb);
    proof {
        assert forall|j: u64| j < 64 implies #[trigger] bit_set(r, j) == if j < low_bits {
            bit_set(low, j)
        } else {
            j < low_bits + group_bits && bit_set(group, (j - low_bits) as u64)
        } by {
            if j < lb {
                assert(((low | (group << lb)) & (1u64 << j) != 0) == (low & (1u64 << j) != 0)) by (bit_vector)
                    requires
                        j < lb,
                        lb + gb < 64,
                        low < (1u64 << lb),
                ;
            } else if j < lb + gb {
                assert(((low | (group << lb)) & (1u64 << j) != 0) == (group & (1u64 << ((j - lb) as u64)) != 0))
                    by (bit_vector)
                    requires
                        lb <= j < lb + gb,
                        lb + gb < 64,
                        low < (1u64 << lb),
                ;
            } else {
                assert(((low | (group << lb)) & (1u64 << j) == 0)) by (bit_vector)
                    requires
                        lb + gb <= j < 64,
                        low < (1u64 << lb),
                        group < (1u64 << gb),
                ;
            }
        }
        assert((low | (group << lb)) < (1u64 << ((lb + gb) as u64)) && (((low | (group << lb)) == 0) == (low == 0
            && group == 0))) by (bit_vector)
            requires
                lb + gb < 64,
                low < (1u64 << lb),
                group < (1u64 << gb),
        ;
    }
    r
}

/// Whether the bit of invariant code `code` is set in `mask`.
pub fn mask_bit_set(mask: u64, code: u8) -> (r: bool)
    requires
        code < 64,
    ensures
        r == bit_set(mask, code as u64),
{
    mask & (1u64 << (code as u64)) != 0
}

/// The mask of a single invariant code.
pub fn code_mask(code: u8) -> (r: u64)
    requires
        code < 64,
    ensures
        r == bit(code as u64),
{
    1u64 << (code as u64)
}

} // verus!
