use vstd::prelude::*;

verus! {

/// A chess file (column), A through H.
#[derive(Debug, Clone, Copy, PartialEq, Eq, Structural)]
pub enum File {
    A,
    B,
    C,
    D,
    E,
    F,
    G,
    H,
}

/// All files in order, from A to H.
pub const FILES: [File; 8] = [
    File::A,
    File::B,
    File::C,
    File::D,
    File::E,
    File::F,
    File::G,
    File::H,
];

/// The index of a file, 0 for A through 7 for H.
pub open spec fn spec_file_value(f: File) -> u8 {
    match f {
        File::A => 0,
        File::B => 1,
        File::C => 2,
        File::D => 3,
        File::E => 4,
        File::F => 5,
        File::G => 6,
        File::H => 7,
    }
}


/// The file with the given index; meaningful only for indices below 8.
pub open spec fn spec_file_from_value(value: u8) -> File {
    if value == 0 {
        File::A
    } else if value == 1 {
        File::B
    } else if value == 2 {
        File::C
    } else if value == 3 {
        File::D
    } else if value == 4 {
        File::E
    } else if value == 5 {
        File::F
    } else if value == 6 {
        File::G
    } else {
        File::H
    }
}

/// The lowercase letter naming a file in algebraic notation.
pub open spec fn spec_file_char(f: File) -> char {
    match f {
        File::A => 'a',
        File::B => 'b',
        File::C => 'c',
        File::D => 'd',
        File::E => 'e',
        File::F => 'f',
        File::G => 'g',
        File::H => 'h',
    }
}

impl File {
    /// The index of this file, 0 for A through 7 for H.
    pub open spec fn spec_value(self) -> u8 {
        spec_file_value(self)
    }

    /// Returns the index of this file (0 through 7).
    #[verifier::when_used_as_spec(spec_value)]
    pub fn value(self) -> (r: u8)
        ensures
            r == spec_file_value(self),
            r < 8,
    {
        match self {
            File::A => 0,
            File::B => 1,
            File::C => 2,
            File::D => 3,
            File::E => 4,
            File::F => 5,
            File::G => 6,
            File::H => 7,
        }
    }

    /// Returns the file with the given index, which must be below 8.
    pub fn from_value(value: u8) -> (r: File)
        requires
            value < 8,
        ensures
            r == spec_file_from_value(value),
            spec_file_value(r) == value,
    {
        match value {
            0 => File::A,
            1 => File::B,
            2 => File::C,
            3 => File::D,
            4 => File::E,
            5 => File::F,
            6 => File::G,
            _ => File::H,
        }
    }

    /// Returns the next file to the east, or `None` from file H.
    pub fn next(self) -> (r: Option<File>)
        ensures
            self is H ==> r is None,
            !(self is H) ==> r == Some(spec_file_from_value((spec_file_value(self) + 1) as u8)),
    {
        if self == File::H {
            None
        } else {
            Some(Self::from_value(self.value() + 1))
        }
    }

    /// Returns the previous file to the west, or `None` from file A.
    pub fn prev(self) -> (r: Option<File>)
        ensures
            self is A ==> r is None,
            !(self is A) ==> r == Some(spec_file_from_value((spec_file_value(self) - 1) as u8)),
    {
        if self == File::A {
            None
        } else {
            Some(Self::from_value(self.value() - 1))
        }
    }

    /// Returns the lowercase letter naming this file.
    pub fn as_str(self) -> (r: &'static str)
        ensures
            r@ == seq![spec_file_char(self)],
    {
        let r = match self {
            File::A => "a",
            File::B => "b",
            File::C => "c",
            File::D => "d",
            File::E => "e",
            File::F => "f",
            File::G => "g",
            File::H => "h",
        };
        proof {
            reveal_strlit("a");
            reveal_strlit("b");
            reveal_strlit("c");
            reveal_strlit("d");
            reveal_strlit("e");
            reveal_strlit("f");
            reveal_strlit("g");
            reveal_strlit("h");
            assert(r@ =~= seq![spec_file_char(self)]);
        }
        r
    }

    /// Returns the file named by the given letter, either case, or `None`
    /// for any other character.
    pub fn from_char(value: char) -> (r: Option<File>)
        ensures
            r == spec_file_from_char(value),
    {
        match value {
            'a' | 'A' => Some(File::A),
            'b' | 'B' => Some(File::B),
            'c' | 'C' => Some(File::C),
            'd' | 'D' => Some(File::D),
            'e' | 'E' => Some(File::E),
            'f' | 'F' => Some(File::F),
            'g' | 'G' => Some(File::G),
            'h' | 'H' => Some(File::H),
            _ => None,
        }
    }
}

/// The file named by a letter of either case, or `None` for any other
/// character.
pub open spec fn spec_file_from_char(value: char) -> Option<File> {
    match value {
        'a' | 'A' => Some(File::A),
        'b' | 'B' => Some(File::B),
        'c' | 'C' => Some(File::C),
        'd' | 'D' => Some(File::D),
        'e' | 'E' => Some(File::E),
        'f' | 'F' => Some(File::F),
        'g' | 'G' => Some(File::G),
        'h' | 'H' => Some(File::H),
        _ => None,
    }
}

} // verus!
