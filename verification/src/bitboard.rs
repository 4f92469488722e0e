use vstd::prelude::*;

use crate::bitops::{
    bit64, lemma_bits, lemma_high_zero, popcnt64, popcnt_below, sh_bpawn_attacks, sh_east,
    sh_knight, sh_north, sh_south, sh_west, sh_wpawn_attacks, NOT_BOTTOM_ROW, NOT_TOP_ROW,
};
use crate::pos::Pos;

verus! {

/// A set of squares, one bit per square: bit `file * 8 + rank` stands
/// for the square with that file and rank.
#[derive(Debug, Clone, Copy, PartialEq, Eq, Structural)]
pub struct Bitboard {
    pub value: u64,
}

/// The squares of `v` in ascending order of square index, considering
/// only indices below `n`.
pub open spec fn spec_positions_below(v: u64, n: int) -> Seq<Pos>
    decreases n,
{
    if n <= 0 {
        Seq::empty()
    } else {
        spec_positions_below(v, n - 1) + if bit64(v, (n - 1) as u64) {
            seq![Pos { pos: (n - 1) as u8 }]
        } else {
            Seq::empty()
        }
    }
}

/// The lowercase hexadecimal digit with value `d`, for `d` below 16.
pub open spec fn spec_hex_char(d: u64) -> char {
    if d == 0 {
        '0'
    } else if d == 1 {
        '1'
    } else if d == 2 {
        '2'
    } else if d == 3 {
        '3'
    } else if d == 4 {
        '4'
    } else if d == 5 {
        '5'
    } else if d == 6 {
        '6'
    } else if d == 7 {
        '7'
    } else if d == 8 {
        '8'
    } else if d == 9 {
        '9'
    } else if d == 10 {
        'a'
    } else if d == 11 {
        'b'
    } else if d == 12 {
        'c'
    } else if d == 13 {
        'd'
    } else if d == 14 {
        'e'
    } else {
        'f'
    }
}

/// The sixteen-digit lowercase hexadecimal rendering of `v`, most
/// significant digit first.
pub open spec fn spec_hex16(v: u64) -> Seq<char> {
    Seq::new(16, |i: int| spec_hex_char((v >> ((60 - 4 * i) as u64)) & 0xf))
}

impl Bitboard {
    /// Constructs a bitboard holding the given bits.
    pub fn new(value: u64) -> (r: Self)
        ensures
            r.value == value,
    {
        Self { value }
    }

    /// Returns the bitboard holding exactly the given square.
    pub fn single_bit(pos: Pos) -> (r: Self)
        requires
            pos.valid(),
        ensures
            r.value == (1u64 << (pos.pos as u64)),
            forall|j: u64| j < 64 ==> (#[trigger] bit64(r.value, j) <==> j == pos.pos),
    {
        proof {
            lemma_bits();
        }
        Self::new(1u64 << (pos.value() as u64))
    }

    /// Returns the empty bitboard.
    pub fn empty() -> (r: Self)
        ensures
            r.value == 0u64,
            forall|j: u64| j < 64 ==> !(#[trigger] bit64(r.value, j)),
    {
        proof {
            lemma_bits();
        }
        Self::new(0)
    }

    /// Returns the bitboard holding every square.
    pub fn full() -> (r: Self)
        ensures
            r.value == u64::MAX,
            forall|j: u64| j < 64 ==> #[trigger] bit64(r.value, j),
    {
        proof {
            lemma_bits();
        }
        Self::new(u64::MAX)
    }

    /// Returns whether the given square is in the set.
    pub fn get(&self, pos: Pos) -> (r: bool)
        requires
            pos.valid(),
        ensures
            r == bit64(self.value, pos.pos as u64),
    {
        self.value & (1u64 << (pos.value() as u64)) != 0
    }

    /// Adds the given square to the set.
    pub fn set(&mut self, pos: Pos)
        requires
            pos.valid(),
        ensures
            final(self).value == old(self).value | (1u64 << (pos.pos as u64)),
            forall|j: u64|
                j < 64 ==> (#[trigger] bit64(final(self).value, j) <==> bit64(
                    old(self).value,
                    j,
                ) || j == pos.pos),
    {
        proof {
            lemma_bits();
        }
        self.value = self.value | (1u64 << (pos.value() as u64));
    }

    /// Removes the given square from the set.
    pub fn clear(&mut self, pos: Pos)
        requires
            pos.valid(),
        ensures
            final(self).value == old(self).value & !(1u64 << (pos.pos as u64)),
            forall|j: u64|
                j < 64 ==> (#[trigger] bit64(final(self).value, j) <==> bit64(
                    old(self).value,
                    j,
                ) && j != pos.pos),
    {
        proof {
            lemma_bits();
        }
        self.value = self.value & !(1u64 << (pos.value() as u64));
    }

    /// Returns the number of squares in the set.
    pub fn count(&self) -> (r: u8)
        ensures
            r as nat == popcnt64(self.value),
    {
        let mut c: u8 = 0;
        for i in 0..64u64
            invariant
                c as nat == popcnt_below(self.value, i as int),
                c <= i,
        {
            proof {
                lemma_bits();
            }
            if (self.value >> i) & 1 == 1 {
                c = c + 1;
            }
        }
        c
    }

    /// Returns the index of the highest square in the set; the set must
    /// not be empty.
    pub fn ilog2(&self) -> (r: u8)
        requires
            self.value != 0,
        ensures
            r < 64,
            bit64(self.value, r as u64),
            forall|j: u64| r < j < 64 ==> !(#[trigger] bit64(self.value, j)),
    {
        proof {
            lemma_bits();
            lemma_high_zero();
        }
        let mut i: u8 = 63;
        loop
            invariant
                i < 64,
                self.value != 0,
                (self.value >> (i as u64)) >> 1 == 0,
            decreases i,
        {
            proof {
                lemma_bits();
                lemma_high_zero();
            }
            if (self.value >> (i as u64)) & 1 == 1 {
                return i;
            }
            if i == 0 {
                proof {
                    assert(false);
                }
            }
            i = i - 1;
        }
    }

    /// Returns whether the set is empty.
    pub fn is_zero(&self) -> (r: bool)
        ensures
            r == (self.value == 0u64),
    {
        self.value == 0
    }

    /// Returns the union of the two sets.
    pub fn or(self, rhs: Self) -> (r: Self)
        ensures
            r.value == (self.value | rhs.value),
    {
        Self::new(self.value | rhs.value)
    }

    /// Returns the intersection of the two sets.
    pub fn and(self, rhs: Self) -> (r: Self)
        ensures
            r.value == (self.value & rhs.value),
    {
        Self::new(self.value & rhs.value)
    }

    /// Returns the complement of the set.
    pub fn complement(self) -> (r: Self)
        ensures
            r.value == !self.value,
    {
        Self::new(!self.value)
    }

    /// Shifts every square one file towards H; squares on file H drop
    /// off the board.
    pub fn shift_left(self) -> (r: Self)
        ensures
            r.value == sh_east(self.value),
    {
        Self::new(self.value << 8)
    }

    /// Shifts every square one file towards A; squares on file A drop
    /// off the board.
    pub fn shift_right(self) -> (r: Self)
        ensures
            r.value == sh_west(self.value),
    {
        Self::new(self.value >> 8)
    }

    /// Shifts every square one rank towards Eight; squares on rank Eight
    /// drop off the board.
    pub fn shift_up(self) -> (r: Self)
        ensures
            r.value == sh_north(self.value),
    {
        Self::new((self.value & NOT_TOP_ROW) << 1)
    }

    /// Shifts every square one rank towards One; squares on rank One
    /// drop off the board.
    pub fn shift_down(self) -> (r: Self)
        ensures
            r.value == sh_south(self.value),
    {
        Self::new((self.value & NOT_BOTTOM_ROW) >> 1)
    }

    /// Returns every knight-jump destination of the squares in the set.
    pub fn knight_shifts(&self) -> (r: Self)
        ensures
            r.value == sh_knight(self.value),
    {
        let d1: u64 = (self.value >> 1) & 0x7f7f_7f7f_7f7f_7f7f;
        let d2: u64 = (self.value >> 2) & 0x3f3f_3f3f_3f3f_3f3f;
        let u1: u64 = (self.value << 1) & 0xfefe_fefe_fefe_fefe;
        let u2: u64 = (self.value << 2) & 0xfcfc_fcfc_fcfc_fcfc;
        let a: u64 = d1 | u1;
        let b: u64 = d2 | u2;
        Self::new((a << 16) | (a >> 16) | (b << 8) | (b >> 8))
    }

    /// Returns every square attacked by a white pawn standing on a
    /// square of the set.
    pub fn white_pawn_attack_shifts(&self) -> (r: Self)
        ensures
            r.value == sh_wpawn_attacks(self.value),
    {
        self.shift_up().shift_right().or(self.shift_up().shift_left())
    }

    /// Returns every square attacked by a black pawn standing on a
    /// square of the set.
    pub fn black_pawn_attack_shifts(&self) -> (r: Self)
        ensures
            r.value == sh_bpawn_attacks(self.value),
    {
        self.shift_down().shift_right().or(self.shift_down().shift_left())
    }

    /// Returns the squares of the set in ascending order of square
    /// index.
    pub fn positions(&self) -> (r: Vec<Pos>)
        ensures
            r@ == spec_positions_below(self.value, 64),
    {
        let mut r: Vec<Pos> = Vec::new();
        for i in 0..64u8
            invariant
                r@ == spec_positions_below(self.value, i as int),
        {
            proof {
                lemma_bits();
            }
            if (self.value >> (i as u64)) & 1 == 1 {
                r.push(Pos::from_value(i));
            }
            proof {
                assert(r@ =~= spec_positions_below(self.value, i + 1));
            }
        }
        r
    }

    /// Returns the sixteen-digit lowercase hexadecimal rendering of the
    /// set, most significant digit first.
    pub fn to_string(&self) -> (r: String)
        ensures
            r@ == spec_hex16(self.value),
    {
        let mut r = String::new();
        for i in 0..16u64
            invariant
                r@ =~= spec_hex16(self.value).subrange(0, i as int),
        {
            let d: u64 = (self.value >> (60 - 4 * i)) & 0xf;
            let digit = match d {
                0 => "0",
                1 => "1",
                2 => "2",
                3 => "3",
                4 => "4",
                5 => "5",
                6 => "6",
                7 => "7",
                8 => "8",
                9 => "9",
                10 => "a",
                11 => "b",
                12 => "c",
                13 => "d",
                14 => "e",
                _ => "f",
            };
            proof {
                reveal_strlit("0");
                reveal_strlit("1");
                reveal_strlit("2");
                reveal_strlit("3");
                reveal_strlit("4");
                reveal_strlit("5");
                reveal_strlit("6");
                reveal_strlit("7");
                reveal_strlit("8");
                reveal_strlit("9");
                reveal_strlit("a");
                reveal_strlit("b");
                reveal_strlit("c");
                reveal_strlit("d");
                reveal_strlit("e");
                reveal_strlit("f");
                assert(digit@ =~= seq![spec_hex_char(d)]);
            }
            r.append(digit);
            proof {
                assert(r@ =~= spec_hex16(self.value).subrange(0, i + 1));
            }
        }
        proof {
            assert(r@ =~= spec_hex16(self.value));
        }
        r
    }
}

} // verus!
