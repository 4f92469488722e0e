use chess_core::{Pos, FILES, RANKS};

#[test]
fn ranks_and_files() {
    let mut i = 0;
    for file in FILES {
        for rank in RANKS {
            let pos = Pos::new(file, rank);
            assert_eq!(i, pos.value());
            assert_eq!(pos.rank(), rank);
            assert_eq!(pos.file(), file);
            i += 1;
        }
    }
}

#[test]
fn pos_ranks_and_files() {
    let mut i = 0;
    for file in FILES {
        for rank in RANKS {
            let pos = Pos::new(file, rank);
            assert_eq!(i, pos.value());
            assert_eq!(pos.rank(), rank);
            assert_eq!(pos.file(), file);
            i += 1;
        }
    }
}

#[test]
fn to_string() {
    for rank in RANKS {
        let a = rank.as_char().to_string();
        let b = rank.as_str();
        let c = rank.to_string();
        assert_eq!(a, b);
        assert_eq!(a, c);
    }
}

#[test]
fn pos_names() {
    assert_eq!(Pos::try_from("e4").unwrap().value(), 4 * 8 + 3);
    assert_eq!(Pos::try_from("a1").unwrap().value(), 0);
    assert_eq!(Pos::try_from("h8").unwrap().value(), 63);
    assert_eq!(Pos::try_from("e4").unwrap().to_string(), "e4");
    assert!(Pos::try_from("").is_err());
    assert!(Pos::try_from("e").is_err());
    assert!(Pos::try_from("i4").is_err());
    assert!(Pos::try_from("e9").is_err());
    assert!(Pos::try_from("e44").is_err());
}
