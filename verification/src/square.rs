use vstd::prelude::*;

verus! {

/// One of the 64 squares of the board, named by file and rank.
///
/// Squares are numbered from 0 (a1) to 63 (h8): `index = 8 * rank + file`.
#[derive(Clone, Copy, Debug, PartialEq, Eq, Structural)]
pub enum Square {
    A1,
    B1,
    C1,
    D1,
    E1,
    F1,
    G1,
    H1,
    A2,
    B2,
    C2,
    D2,
    E2,
    F2,
    G2,
    H2,
    A3,
    B3,
    C3,
    D3,
    E3,
    F3,
    G3,
    H3,
    A4,
    B4,
    C4,
    D4,
    E4,
    F4,
    G4,
    H4,
    A5,
    B5,
    C5,
    D5,
    E5,
    F5,
    G5,
    H5,
    A6,
    B6,
    C6,
    D6,
    E6,
    F6,
    G6,
    H6,
    A7,
    B7,
    C7,
    D7,
    E7,
    F7,
    G7,
    H7,
    A8,
    B8,
    C8,
    D8,
    E8,
    F8,
    G8,
    H8,
}

impl Square {
    /// The number of the square, from 0 (a1) to 63 (h8).
    pub open spec fn spec_index(self) -> int {
        match self {
            Square::A1 => 0,
            Square::B1 => 1,
            Square::C1 => 2,
            Square::D1 => 3,
            Square::E1 => 4,
            Square::F1 => 5,
            Square::G1 => 6,
            Square::H1 => 7,
            Square::A2 => 8,
            Square::B2 => 9,
            Square::C2 => 10,
            Square::D2 => 11,
            Square::E2 => 12,
            Square::F2 => 13,
            Square::G2 => 14,
            Square::H2 => 15,
            Square::A3 => 16,
            Square::B3 => 17,
            Square::C3 => 18,
            Square::D3 => 19,
            Square::E3 => 20,
            Square::F3 => 21,
            Square::G3 => 22,
            Square::H3 => 23,
            Square::A4 => 24,
            Square::B4 => 25,
            Square::C4 => 26,
            Square::D4 => 27,
            Square::E4 => 28,
            Square::F4 => 29,
            Square::G4 => 30,
            Square::H4 => 31,
            Square::A5 => 32,
            Square::B5 => 33,
            Square::C5 => 34,
            Square::D5 => 35,
            Square::E5 => 36,
            Square::F5 => 37,
            Square::G5 => 38,
            Square::H5 => 39,
            Square::A6 => 40,
            Square::B6 => 41,
            Square::C6 => 42,
            Square::D6 => 43,
            Square::E6 => 44,
            Square::F6 => 45,
            Square::G6 => 46,
            Square::H6 => 47,
            Square::A7 => 48,
            Square::B7 => 49,
            Square::C7 => 50,
            Square::D7 => 51,
            Square::E7 => 52,
            Square::F7 => 53,
            Square::G7 => 54,
            Square::H7 => 55,
            Square::A8 => 56,
            Square::B8 => 57,
            Square::C8 => 58,
            Square::D8 => 59,
            Square::E8 => 60,
            Square::F8 => 61,
            Square::G8 => 62,
            Square::H8 => 63,
        }
    }

    /// The square with the given number; every number from 64 on gives a1.
    pub open spec fn spec_from_index(index: u8) -> Square {
        match index {
            0u8 => Square::A1,
            1u8 => Square::B1,
            2u8 => Square::C1,
            3u8 => Square::D1,
            4u8 => Square::E1,
            5u8 => Square::F1,
            6u8 => Square::G1,
            7u8 => Square::H1,
            8u8 => Square::A2,
            9u8 => Square::B2,
            10u8 => Square::C2,
            11u8 => Square::D2,
            12u8 => Square::E2,
            13u8 => Square::F2,
            14u8 => Square::G2,
            15u8 => Square::H2,
            16u8 => Square::A3,
            17u8 => Square::B3,
            18u8 => Square::C3,
            19u8 => Square::D3,
            20u8 => Square::E3,
            21u8 => Square::F3,
            22u8 => Square::G3,
            23u8 => Square::H3,
            24u8 => Square::A4,
            25u8 => Square::B4,
            26u8 => Square::C4,
            27u8 => Square::D4,
            28u8 => Square::E4,
            29u8 => Square::F4,
            30u8 => Square::G4,
            31u8 => Square::H4,
            32u8 => Square::A5,
            33u8 => Square::B5,
            34u8 => Square::C5,
            35u8 => Square::D5,
            36u8 => Square::E5,
            37u8 => Square::F5,
            38u8 => Square::G5,
            39u8 => Square::H5,
            40u8 => Square::A6,
            41u8 => Square::B6,
            42u8 => Square::C6,
            43u8 => Square::D6,
            44u8 => Square::E6,
            45u8 => Square::F6,
            46u8 => Square::G6,
            47u8 => Square::H6,
            48u8 => Square::A7,
            49u8 => Square::B7,
            50u8 => Square::C7,
            51u8 => Square::D7,
            52u8 => Square::E7,
            53u8 => Square::F7,
            54u8 => Square::G7,
            55u8 => Square::H7,
            56u8 => Square::A8,
            57u8 => Square::B8,
            58u8 => Square::C8,
            59u8 => Square::D8,
            60u8 => Square::E8,
            61u8 => Square::F8,
            62u8 => Square::G8,
            63u8 => Square::H8,
            _ => Square::A1,
        }
    }

    /// The rank of the square, from 0 (rank 1) to 7 (rank 8).
    pub open spec fn spec_rank(self) -> int {
        self.spec_index() / 8
    }

    /// The file of the square, from 0 (file a) to 7 (file h).
    pub open spec fn spec_file(self) -> int {
        self.spec_index() % 8
    }

    /// The number of a square lies in `0..64`.
    pub proof fn lemma_index_bounds(self)
        ensures
            0 <= self.spec_index() < 64,
    {
    }

    /// Numbering a square and taking the square of that number gives it back.
    pub proof fn lemma_from_index_of_index(self)
        ensures
            Square::spec_from_index(self.spec_index() as u8) == self,
    {
        match self {
            Square::A1 => {},
            Square::B1 => {},
            Square::C1 => {},
            Square::D1 => {},
            Square::E1 => {},
            Square::F1 => {},
            Square::G1 => {},
            Square::H1 => {},
            Square::A2 => {},
            Square::B2 => {},
            Square::C2 => {},
            Square::D2 => {},
            Square::E2 => {},
            Square::F2 => {},
            Square::G2 => {},
            Square::H2 => {},
            Square::A3 => {},
            Square::B3 => {},
            Square::C3 => {},
            Square::D3 => {},
            Square::E3 => {},
            Square::F3 => {},
            Square::G3 => {},
            Square::H3 => {},
            Square::A4 => {},
            Square::B4 => {},
            Square::C4 => {},
            Square::D4 => {},
            Square::E4 => {},
            Square::F4 => {},
            Square::G4 => {},
            Square::H4 => {},
            Square::A5 => {},
            Square::B5 => {},
            Square::C5 => {},
            Square::D5 => {},
            Square::E5 => {},
            Square::F5 => {},
            Square::G5 => {},
            Square::H5 => {},
            Square::A6 => {},
            Square::B6 => {},
            Square::C6 => {},
            Square::D6 => {},
            Square::E6 => {},
            Square::F6 => {},
            Square::G6 => {},
            Square::H6 => {},
            Square::A7 => {},
            Square::B7 => {},
            Square::C7 => {},
            Square::D7 => {},
            Square::E7 => {},
            Square::F7 => {},
            Square::G7 => {},
            Square::H7 => {},
            Square::A8 => {},
            Square::B8 => {},
            Square::C8 => {},
            Square::D8 => {},
            Square::E8 => {},
            Square::F8 => {},
            Square::G8 => {},
            Square::H8 => {},
        }
    }

    /// The square of a number in `0..64` has that number.
    pub proof fn lemma_index_of_from_index(index: u8)
        requires
            index < 64,
        ensures
            Square::spec_from_index(index).spec_index() == index,
    {
    }

    /// Two squares with the same number are the same square.
    pub proof fn lemma_index_injective(a: Square, b: Square)
        requires
            a.spec_index() == b.spec_index(),
        ensures
            a == b,
    {
        a.lemma_from_index_of_index();
        b.lemma_from_index_of_index();
    }

    /// The number of the square, from 0 (a1) to 63 (h8).
    pub fn index(self) -> (r: u8)
        ensures
            r == self.spec_index(),
            r < 64,
    {
        match self {
            Square::A1 => 0,
            Square::B1 => 1,
            Square::C1 => 2,
            Square::D1 => 3,
            Square::E1 => 4,
            Square::F1 => 5,
            Square::G1 => 6,
            Square::H1 => 7,
            Square::A2 => 8,
            Square::B2 => 9,
            Square::C2 => 10,
            Square::D2 => 11,
            Square::E2 => 12,
            Square::F2 => 13,
            Square::G2 => 14,
            Square::H2 => 15,
            Square::A3 => 16,
            Square::B3 => 17,
            Square::C3 => 18,
            Square::D3 => 19,
            Square::E3 => 20,
            Square::F3 => 21,
            Square::G3 => 22,
            Square::H3 => 23,
            Square::A4 => 24,
            Square::B4 => 25,
            Square::C4 => 26,
            Square::D4 => 27,
            Square::E4 => 28,
            Square::F4 => 29,
            Square::G4 => 30,
            Square::H4 => 31,
            Square::A5 => 32,
            Square::B5 => 33,
            Square::C5 => 34,
            Square::D5 => 35,
            Square::E5 => 36,
            Square::F5 => 37,
            Square::G5 => 38,
            Square::H5 => 39,
            Square::A6 => 40,
            Square::B6 => 41,
            Square::C6 => 42,
            Square::D6 => 43,
            Square::E6 => 44,
            Square::F6 => 45,
            Square::G6 => 46,
            Square::H6 => 47,
            Square::A7 => 48,
            Square::B7 => 49,
            Square::C7 => 50,
            Square::D7 => 51,
            Square::E7 => 52,
            Square::F7 => 53,
            Square::G7 => 54,
            Square::H7 => 55,
            Square::A8 => 56,
            Square::B8 => 57,
            Square::C8 => 58,
            Square::D8 => 59,
            Square::E8 => 60,
            Square::F8 => 61,
            Square::G8 => 62,
            Square::H8 => 63,
        }
    }

    /// The square with the given number; a number from 64 on gives a1.
    pub fn from_index(index: u8) -> (r: Square)
        ensures
            r == Square::spec_from_index(index),
            index < 64 ==> r.spec_index() == index,
            index >= 64 ==> r == Square::A1,
    {
        proof {
            if index < 64 {
                Square::lemma_index_of_from_index(index);
            }
        }
        match index {
            0 => Square::A1,
            1 => Square::B1,
            2 => Square::C1,
            3 => Square::D1,
            4 => Square::E1,
            5 => Square::F1,
            6 => Square::G1,
            7 => Square::H1,
            8 => Square::A2,
            9 => Square::B2,
            10 => Square::C2,
            11 => Square::D2,
            12 => Square::E2,
            13 => Square::F2,
            14 => Square::G2,
            15 => Square::H2,
            16 => Square::A3,
            17 => Square::B3,
            18 => Square::C3,
            19 => Square::D3,
            20 => Square::E3,
            21 => Square::F3,
            22 => Square::G3,
            23 => Square::H3,
            24 => Square::A4,
            25 => Square::B4,
            26 => Square::C4,
            27 => Square::D4,
            28 => Square::E4,
            29 => Square::F4,
            30 => Square::G4,
            31 => Square::H4,
            32 => Square::A5,
            33 => Square::B5,
            34 => Square::C5,
            35 => Square::D5,
            36 => Square::E5,
            37 => Square::F5,
            38 => Square::G5,
            39 => Square::H5,
            40 => Square::A6,
            41 => Square::B6,
            42 => Square::C6,
            43 => Square::D6,
            44 => Square::E6,
            45 => Square::F6,
            46 => Square::G6,
            47 => Square::H6,
            48 => Square::A7,
            49 => Square::B7,
            50 => Square::C7,
            51 => Square::D7,
            52 => Square::E7,
            53 => Square::F7,
            54 => Square::G7,
            55 => Square::H7,
            56 => Square::A8,
            57 => Square::B8,
            58 => Square::C8,
            59 => Square::D8,
            60 => Square::E8,
            61 => Square::F8,
            62 => Square::G8,
            63 => Square::H8,
            _ => Square::A1,
        }
    }

    /// The square with the given number, which must be below 64.
    pub fn new(index: u8) -> (r: Square)
        requires
            index < 64,
        ensures
            r.spec_index() == index,
    {
        Square::from_index(index)
    }
}

} // verus!
