use vstd::prelude::*;

verus! {

/// A chess rank (row), One (White's back rank) through Eight.
#[derive(Debug, Clone, Copy, PartialEq, Eq, Structural)]
pub enum Rank {
    One,
    Two,
    Three,
    Four,
    Five,
    Six,
    Seven,
    Eight,
}

/// All ranks in order, from One to Eight.
pub const RANKS: [Rank; 8] = [
    Rank::One,
    Rank::Two,
    Rank::Three,
    Rank::Four,
    Rank::Five,
    Rank::Six,
    Rank::Seven,
    Rank::Eight,
];

/// The index of a rank, 0 for One through 7 for Eight.
pub open spec fn spec_rank_value(r: Rank) -> u8 {
    match r {
        Rank::One => 0,
        Rank::Two => 1,
        Rank::Three => 2,
        Rank::Four => 3,
        Rank::Five => 4,
        Rank::Six => 5,
        Rank::Seven => 6,
        Rank::Eight => 7,
    }
}

/// The rank with the given index; meaningful only for indices below 8.
pub open spec fn spec_rank_from_value(value: u8) -> Rank {
    if value == 0 {
        Rank::One
    } else if value == 1 {
        Rank::Two
    } else if value == 2 {
        Rank::Three
    } else if value == 3 {
        Rank::Four
    } else if value == 4 {
        Rank::Five
    } else if value == 5 {
        Rank::Six
    } else if value == 6 {
        Rank::Seven
    } else {
        Rank::Eight
    }
}

/// The digit naming a rank in algebraic notation, '1' through '8'.
pub open spec fn spec_rank_char(r: Rank) -> char {
    match r {
        Rank::One => '1',
        Rank::Two => '2',
        Rank::Three => '3',
        Rank::Four => '4',
        Rank::Five => '5',
        Rank::Six => '6',
        Rank::Seven => '7',
        Rank::Eight => '8',
    }
}

/// The rank named by a digit character, or `None` for any other character.
pub open spec fn spec_rank_from_char(value: char) -> Option<Rank> {
    match value {
        '1' => Some(Rank::One),
        '2' => Some(Rank::Two),
        '3' => Some(Rank::Three),
        '4' => Some(Rank::Four),
        '5' => Some(Rank::Five),
        '6' => Some(Rank::Six),
        '7' => Some(Rank::Seven),
        '8' => Some(Rank::Eight),
        _ => None,
    }
}

impl Rank {
    /// The index of this rank, 0 for One through 7 for Eight.
    pub open spec fn spec_value(self) -> u8 {
        spec_rank_value(self)
    }

    /// Returns the index of this rank (0 through 7).
    #[verifier::when_used_as_spec(spec_value)]
    pub fn value(self) -> (r: u8)
        ensures
            r == spec_rank_value(self),
            r < 8,
    {
        match self {
            Rank::One => 0,
            Rank::Two => 1,
            Rank::Three => 2,
            Rank::Four => 3,
            Rank::Five => 4,
            Rank::Six => 5,
            Rank::Seven => 6,
            Rank::Eight => 7,
        }
    }

    /// Returns the rank with the given index, which must be below 8.
    pub fn from_value(value: u8) -> (r: Rank)
        requires
            value < 8,
        ensures
            r == spec_rank_from_value(value),
            spec_rank_value(r) == value,
    {
        match value {
            0 => Rank::One,
            1 => Rank::Two,
            2 => Rank::Three,
            3 => Rank::Four,
            4 => Rank::Five,
            5 => Rank::Six,
            6 => Rank::Seven,
            _ => Rank::Eight,
        }
    }

    /// Returns the next rank to the north, or `None` from rank Eight.
    pub fn next(self) -> (r: Option<Rank>)
        ensures
            self is Eight ==> r is None,
            !(self is Eight) ==> r == Some(spec_rank_from_value((spec_rank_value(self) + 1) as u8)),
    {
        if self == Rank::Eight {
            None
        } else {
            Some(Self::from_value(self.value() + 1))
        }
    }

    /// Returns the previous rank to the south, or `None` from rank One.
    pub fn prev(self) -> (r: Option<Rank>)
        ensures
            self is One ==> r is None,
            !(self is One) ==> r == Some(spec_rank_from_value((spec_rank_value(self) - 1) as u8)),
    {
        if self == Rank::One {
            None
        } else {
            Some(Self::from_value(self.value() - 1))
        }
    }

    /// Returns the digit character naming this rank.
    pub fn as_char(self) -> (r: char)
        ensures
            r == spec_rank_char(self),
    {
        match self {
            Rank::One => '1',
            Rank::Two => '2',
            Rank::Three => '3',
            Rank::Four => '4',
            Rank::Five => '5',
            Rank::Six => '6',
            Rank::Seven => '7',
            Rank::Eight => '8',
        }
    }

    /// Returns the digit naming this rank as a string.
    pub fn as_str(self) -> (r: &'static str)
        ensures
            r@ == seq![spec_rank_char(self)],
    {
        let r = match self {
            Rank::One => "1",
            Rank::Two => "2",
            Rank::Three => "3",
            Rank::Four => "4",
            Rank::Five => "5",
            Rank::Six => "6",
            Rank::Seven => "7",
            Rank::Eight => "8",
        };
        proof {
            reveal_strlit("1");
            reveal_strlit("2");
            reveal_strlit("3");
            reveal_strlit("4");
            reveal_strlit("5");
            reveal_strlit("6");
            reveal_strlit("7");
            reveal_strlit("8");
            assert(r@ =~= seq![spec_rank_char(self)]);
        }
        r
    }

    /// Returns the digit naming this rank as an owned string.
    pub fn to_string(self) -> (r: String)
        ensures
            r@ == seq![spec_rank_char(self)],
    {
        String::from_str(self.as_str())
    }

    /// Returns the rank named by the given digit character, or `None`
    /// for any other character.
    pub fn from_char(value: char) -> (r: Option<Rank>)
        ensures
            r == spec_rank_from_char(value),
    {
        match value {
            '1' => Some(Rank::One),
            '2' => Some(Rank::Two),
            '3' => Some(Rank::Three),
            '4' => Some(Rank::Four),
            '5' => Some(Rank::Five),
            '6' => Some(Rank::Six),
            '7' => Some(Rank::Seven),
            '8' => Some(Rank::Eight),
            _ => None,
        }
    }
}

} // verus!
