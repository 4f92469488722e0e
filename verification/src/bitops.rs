//! Bit-level model of 64-bit square sets: bit membership, population
//! count, and the masked shift operations the board geometry relies on.

use vstd::prelude::*;

verus! {

/// Mask of all squares outside rank Eight (the top rank of each
/// eight-bit file group).
pub const NOT_TOP_ROW: u64 = 0x7f7f_7f7f_7f7f_7f7f;

/// Mask of all squares outside rank One (the bottom rank of each
/// eight-bit file group).
pub const NOT_BOTTOM_ROW: u64 = 0xfefe_fefe_fefe_fefe;

/// Whether bit `i` of `v` is set. Bit `file * 8 + rank` stands for the
/// square with that file and rank.
pub open spec fn bit64(v: u64, i: u64) -> bool {
    v & (1u64 << i) != 0
}

/// The number of set bits among the low `n` bits of `v`.
pub open spec fn popcnt_below(v: u64, n: int) -> nat
    decreases n,
{
    if n <= 0 {
        0
    } else {
        popcnt_below(v, n - 1) + if bit64(v, (n - 1) as u64) {
            1nat
        } else {
            0nat
        }
    }
}

/// The number of set bits of `v`.
pub open spec fn popcnt64(v: u64) -> nat {
    popcnt_below(v, 64)
}

/// Shift one file towards H; squares on file H drop off.
pub open spec fn sh_east(v: u64) -> u64 {
    v << 8
}

/// Shift one file towards A; squares on file A drop off.
pub open spec fn sh_west(v: u64) -> u64 {
    v >> 8
}

/// Shift one rank towards Eight; squares on rank Eight drop off.
pub open spec fn sh_north(v: u64) -> u64 {
    (v & NOT_TOP_ROW) << 1
}

/// Shift one rank towards One; squares on rank One drop off.
pub open spec fn sh_south(v: u64) -> u64 {
    (v & NOT_BOTTOM_ROW) >> 1
}

/// All knight-jump destinations of the squares of `v`, with edge masking
/// so that no jump wraps around the board.
pub open spec fn sh_knight(v: u64) -> u64 {
    let d1 = (v >> 1) & 0x7f7f_7f7f_7f7f_7f7f;
    let d2 = (v >> 2) & 0x3f3f_3f3f_3f3f_3f3f;
    let u1 = (v << 1) & 0xfefe_fefe_fefe_fefe;
    let u2 = (v << 2) & 0xfcfc_fcfc_fcfc_fcfc;
    let a = d1 | u1;
    let b = d2 | u2;
    (a << 16) | (a >> 16) | (b << 8) | (b >> 8)
}

/// All squares attacked by white pawns standing on the squares of `v`:
/// one rank north, one file to either side.
pub open spec fn sh_wpawn_attacks(v: u64) -> u64 {
    sh_west(sh_north(v)) | sh_east(sh_north(v))
}

/// All squares attacked by black pawns standing on the squares of `v`:
/// one rank south, one file to either side.
pub open spec fn sh_bpawn_attacks(v: u64) -> u64 {
    sh_west(sh_south(v)) | sh_east(sh_south(v))
}

/// Adds two machine integers; the sum must fit.
pub fn add(left: usize, right: usize) -> (r: usize)
    requires
        left + right <= usize::MAX,
    ensures
        r == left + right,
{
    left + right
}

/// Pointwise reading of the boolean operations on square sets: how
/// union, intersection, complement, and single-bit updates act on each
/// bit, and how a shifted-and-masked bit test reads a bit.
pub proof fn lemma_bits()
    by (bit_vector)
    ensures
        forall|i: u64, j: u64|
            i < 64 && j < 64 ==> (#[trigger] bit64(1u64 << i, j) <==> i == j),
        forall|v: u64, i: u64, j: u64|
            i < 64 && j < 64 ==> (#[trigger] bit64(v | (1u64 << i), j) <==> bit64(v, j) || i
                == j),
        forall|v: u64, i: u64, j: u64|
            i < 64 && j < 64 ==> (#[trigger] bit64(v & !(1u64 << i), j) <==> bit64(v, j) && i
                != j),
        forall|a: u64, b: u64, j: u64| #[trigger]
            bit64(a | b, j) <==> bit64(a, j) || bit64(b, j),
        forall|a: u64, b: u64, j: u64| #[trigger]
            bit64(a & b, j) <==> bit64(a, j) && bit64(b, j),
        forall|v: u64, j: u64| j < 64 ==> (#[trigger] bit64(!v, j) <==> !bit64(v, j)),
        forall|v: u64, j: u64| j < 64 ==> (((v >> j) & 1) == 1 <==> #[trigger] bit64(v, j)),
        forall|j: u64| j < 64 ==> !(#[trigger] bit64(0u64, j)),
        forall|j: u64| j < 64 ==> #[trigger] bit64(0xffff_ffff_ffff_ffffu64, j),
{
}

/// Pointwise reading of one named union: when `a` is the union of `x`
/// and `y`, membership in `a` is membership in either.
pub proof fn lemma_bit_or_split(a: u64, x: u64, y: u64)
    requires
        a == (x | y),
    ensures
        forall|j: u64| #[trigger] bit64(a, j) <==> bit64(x, j) || bit64(y, j),
{
    assert forall|j: u64| #[trigger] bit64(a, j) <==> bit64(x, j) || bit64(y, j) by {
        assert(bit64(x | y, j) <==> bit64(x, j) || bit64(y, j)) by (bit_vector);
    }
}

/// Pointwise reading of one named single-square set: when `a` holds
/// exactly bit `i`, membership in `a` is equality with `i`.
pub proof fn lemma_bit_single_eq(a: u64, i: u64)
    requires
        i < 64,
        a == (1u64 << i),
    ensures
        forall|j: u64| j < 64 ==> (#[trigger] bit64(a, j) <==> j == i),
{
    assert forall|j: u64| j < 64 implies (#[trigger] bit64(a, j) <==> j == i) by {
        assert(j < 64 && i < 64 ==> (bit64(1u64 << i, j) <==> j == i)) by (bit_vector);
    }
}

/// Clearing a bit that is not set leaves the value unchanged.
pub proof fn lemma_clear_absent(x: u64, i: u64)
    requires
        !bit64(x, i),
    ensures
        x & !(1u64 << i) == x,
{
    assert(x & (1u64 << i) == 0 ==> x & !(1u64 << i) == x) by (bit_vector);
}

/// Two single-bit clears commute.
pub proof fn lemma_clear_comm(x: u64, a: u64, b: u64)
    ensures
        (x & !(1u64 << a)) & !(1u64 << b) == (x & !(1u64 << b)) & !(1u64 << a),
{
    assert((x & !(1u64 << a)) & !(1u64 << b) == (x & !(1u64 << b)) & !(1u64 << a))
        by (bit_vector);
}

/// Facts about scanning for the highest set bit: once `v` shifted right
/// past position `i` is zero, no bit above `i` is set, and the scan can
/// step down; a value with no set bit is zero.
pub proof fn lemma_high_zero()
    by (bit_vector)
    ensures
        forall|v: u64, i: u64, j: u64| #![trigger bit64(v, j), v >> i]
            i < 64 && j < 64 && i < j && (v >> i) >> 1 == 0 ==> !bit64(v, j),
        forall|v: u64, i: u64|
            0 < i < 64 && (v >> i) >> 1 == 0 && (#[trigger] (v >> i)) & 1 != 1 ==> (v >> (
            (i - 1) as u64)) >> 1 == 0,
        forall|v: u64| (#[trigger] (v >> 0u64)) >> 1 == 0 && (v >> 0u64) & 1 != 1 ==> v == 0,
        forall|v: u64| (#[trigger] (v >> 63u64)) >> 1 == 0,
{
}

/// Two sets that agree on every bit below 64 except possibly bit `i`
/// have population counts that differ exactly by the difference at `i`.
proof fn lemma_popcnt_below_agree(a: u64, b: u64, n: int, i: u64)
    requires
        i < 64,
        n <= 64,
        forall|j: u64| j < 64 && j != i ==> (#[trigger] bit64(a, j) == bit64(b, j)),
    ensures
        popcnt_below(a, n) + (if i < n && bit64(b, i) {
            1int
        } else {
            0int
        }) == popcnt_below(b, n) + (if i < n && bit64(a, i) {
            1int
        } else {
            0int
        }),
    decreases n,
{
    if n > 0 {
        lemma_popcnt_below_agree(a, b, n - 1, i);
        if n - 1 < 64 && n - 1 != i {
            assert(bit64(a, (n - 1) as u64) == bit64(b, (n - 1) as u64));
        }
    }
}

/// Setting bit `i` of `v` raises the population count by one if the bit
/// was clear and leaves it unchanged otherwise.
pub proof fn lemma_popcnt_set(v: u64, i: u64)
    requires
        i < 64,
    ensures
        !bit64(v, i) ==> popcnt64(v | (1u64 << i)) == popcnt64(v) + 1,
        bit64(v, i) ==> popcnt64(v | (1u64 << i)) == popcnt64(v),
{
    lemma_bits();
    lemma_popcnt_below_agree(v, v | (1u64 << i), 64, i);
}

/// Clearing bit `i` of `v` lowers the population count by one if the bit
/// was set and leaves it unchanged otherwise.
pub proof fn lemma_popcnt_clear(v: u64, i: u64)
    requires
        i < 64,
    ensures
        bit64(v, i) ==> popcnt64(v & !(1u64 << i)) == popcnt64(v) + (-1),
        !bit64(v, i) ==> popcnt64(v & !(1u64 << i)) == popcnt64(v),
{
    lemma_bits();
    lemma_popcnt_below_agree(v, v & !(1u64 << i), 64, i);
}

/// The population count of the low `n` bits never exceeds `n`.
pub proof fn lemma_popcnt_below_bound(v: u64, n: int)
    ensures
        popcnt_below(v, n) <= (if n >= 0 {
            n
        } else {
            0
        }),
    decreases n,
{
    if n > 0 {
        lemma_popcnt_below_bound(v, n - 1);
    }
}

} // verus!
