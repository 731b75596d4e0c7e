//! Stimulus domains: what a chain can show, and how a value is picked from a
//! uniformly drawn index.

use vstd::prelude::*;

verus! {

/// A closed, finite stimulus domain with one distinguished sentinel.
///
/// The sentinel fills the slots of a window that no stimulus has occupied yet.
/// The values of the domain are numbered `0 .. domain_size()`, each exactly
/// once, so that an index drawn uniformly from that range picks every value,
/// the sentinel among them, with the same probability.
pub trait Cue: Copy {
    /// The sentinel of the domain.
    spec fn sentinel() -> Self;

    /// How many values the domain has, the sentinel included.
    spec fn domain_size() -> nat;

    /// The number under which a value is drawn.
    spec fn rank(self) -> nat;

    /// Every value is numbered below the size of the domain.
    proof fn lemma_rank_in_domain(value: Self)
        ensures
            value.rank() < Self::domain_size(),
    ;

    /// No two values share a number.
    proof fn lemma_rank_is_injective(a: Self, b: Self)
        requires
            a.rank() == b.rank(),
        ensures
            a == b,
    ;

    /// The sentinel.
    fn empty() -> (cue: Self)
        ensures
            cue == Self::sentinel(),
    ;

    /// The largest index of the domain.
    fn last_index() -> (last: u8)
        ensures
            last + 1 == Self::domain_size(),
    ;

    /// The value that `index` picks.
    fn from_index(index: u8) -> (cue: Self)
        requires
            index < Self::domain_size(),
        ensures
            cue.rank() == index,
    ;

    /// Whether two cues are the same value.
    fn same(&self, other: &Self) -> (equal: bool)
        ensures
            equal == (*self == *other),
    ;
}

/// A position on the three-by-three board, or no position yet.
#[derive(Clone, Copy, Debug, PartialEq, Eq, Structural)]
pub enum Cell {
    TopLeft,
    TopCenter,
    TopRight,
    CenterLeft,
    Center,
    CenterRight,
    BottomLeft,
    BottomCenter,
    BottomRight,
    Empty,
}

impl Cue for Cell {
    open spec fn sentinel() -> Self {
        Cell::Empty
    }

    open spec fn domain_size() -> nat {
        10
    }

    open spec fn rank(self) -> nat {
        match self {
            Cell::TopLeft => 0,
            Cell::TopCenter => 1,
            Cell::TopRight => 2,
            Cell::CenterLeft => 3,
            Cell::Center => 4,
            Cell::CenterRight => 5,
            Cell::BottomLeft => 6,
            Cell::BottomCenter => 7,
            Cell::BottomRight => 8,
            Cell::Empty => 9,
        }
    }

    proof fn lemma_rank_in_domain(value: Self) {
    }

    proof fn lemma_rank_is_injective(a: Self, b: Self) {
    }

    fn empty() -> (cue: Self) {
        Cell::Empty
    }

    fn last_index() -> (last: u8) {
        9
    }

    fn from_index(index: u8) -> (cue: Self) {
        match index {
            0 => Cell::TopLeft,
            1 => Cell::TopCenter,
            2 => Cell::TopRight,
            3 => Cell::CenterLeft,
            4 => Cell::Center,
            5 => Cell::CenterRight,
            6 => Cell::BottomLeft,
            7 => Cell::BottomCenter,
            8 => Cell::BottomRight,
            _ => Cell::Empty,
        }
    }

    fn same(&self, other: &Self) -> (equal: bool) {
        *self == *other
    }
}

impl Cell {
    /// Board row of a cell: `1` for the top row, `0` for the middle row and
    /// `-1` for the bottom row. The sentinel sits in the middle.
    pub open spec fn spec_row(self) -> int {
        if self == Cell::Empty {
            0
        } else {
            1 - (self.rank() as int) / 3
        }
    }

    /// Board column of a cell: `-1` for the left column, `0` for the middle
    /// column and `1` for the right column. The sentinel sits in the middle.
    pub open spec fn spec_column(self) -> int {
        if self == Cell::Empty {
            0
        } else {
            (self.rank() as int) % 3 - 1
        }
    }

    /// Board row of this cell, counted upwards from the middle row.
    pub fn row(&self) -> (row: i8)
        ensures
            row == self.spec_row(),
    {
        match self {
            Cell::TopLeft => 1,
            Cell::TopCenter => 1,
            Cell::TopRight => 1,
            Cell::CenterLeft => 0,
            Cell::Center => 0,
            Cell::CenterRight => 0,
            Cell::BottomLeft => -1,
            Cell::BottomCenter => -1,
            Cell::BottomRight => -1,
            Cell::Empty => 0,
        }
    }

    /// Board column of this cell, counted rightwards from the middle column.
    pub fn column(&self) -> (column: i8)
        ensures
            column == self.spec_column(),
    {
        match self {
            Cell::TopLeft => -1,
            Cell::TopCenter => 0,
            Cell::TopRight => 1,
            Cell::CenterLeft => -1,
            Cell::Center => 0,
            Cell::CenterRight => 1,
            Cell::BottomLeft => -1,
            Cell::BottomCenter => 0,
            Cell::BottomRight => 1,
            Cell::Empty => 0,
        }
    }
}

impl Default for Cell {
    /// The sentinel.
    fn default() -> (cell: Self)
        ensures
            cell == Cell::Empty,
    {
        Cell::Empty
    }
}

/// A colour of the board's square, or no colour yet.
#[derive(Clone, Copy, Debug, PartialEq, Eq, Structural)]
pub enum Pigment {
    A,
    B,
    C,
    D,
    E,
    Empty,
}

impl Cue for Pigment {
    open spec fn sentinel() -> Self {
        Pigment::Empty
    }

    open spec fn domain_size() -> nat {
        6
    }

    open spec fn rank(self) -> nat {
        match self {
            Pigment::A => 0,
            Pigment::B => 1,
            Pigment::C => 2,
            Pigment::D => 3,
            Pigment::E => 4,
            Pigment::Empty => 5,
        }
    }

    proof fn lemma_rank_in_domain(value: Self) {
    }

    proof fn lemma_rank_is_injective(a: Self, b: Self) {
    }

    fn empty() -> (cue: Self) {
        Pigment::Empty
    }

    fn last_index() -> (last: u8) {
        5
    }

    fn from_index(index: u8) -> (cue: Self) {
        match index {
            0 => Pigment::A,
            1 => Pigment::B,
            2 => Pigment::C,
            3 => Pigment::D,
            4 => Pigment::E,
            _ => Pigment::Empty,
        }
    }

    fn same(&self, other: &Self) -> (equal: bool) {
        *self == *other
    }
}

impl Default for Pigment {
    /// The sentinel.
    fn default() -> (pigment: Self)
        ensures
            pigment == Pigment::Empty,
    {
        Pigment::Empty
    }
}

/// A spoken letter, or no letter yet.
#[derive(Clone, Copy, Debug, PartialEq, Eq, Structural)]
pub enum Letter {
    C,
    H,
    K,
    L,
    Q,
    R,
    S,
    T,
    Empty,
}

impl Cue for Letter {
    open spec fn sentinel() -> Self {
        Letter::Empty
    }

    open spec fn domain_size() -> nat {
        9
    }

    open spec fn rank(self) -> nat {
        match self {
            Letter::C => 0,
            Letter::H => 1,
            Letter::K => 2,
            Letter::L => 3,
            Letter::Q => 4,
            Letter::R => 5,
            Letter::S => 6,
            Letter::T => 7,
            Letter::Empty => 8,
        }
    }

    proof fn lemma_rank_in_domain(value: Self) {
    }

    proof fn lemma_rank_is_injective(a: Self, b: Self) {
    }

    fn empty() -> (cue: Self) {
        Letter::Empty
    }

    fn last_index() -> (last: u8) {
        8
    }

    fn from_index(index: u8) -> (cue: Self) {
        match index {
            0 => Letter::C,
            1 => Letter::H,
            2 => Letter::K,
            3 => Letter::L,
            4 => Letter::Q,
            5 => Letter::R,
            6 => Letter::S,
            7 => Letter::T,
            _ => Letter::Empty,
        }
    }

    fn same(&self, other: &Self) -> (equal: bool) {
        *self == *other
    }
}

impl Default for Letter {
    /// The sentinel.
    fn default() -> (letter: Self)
        ensures
            letter == Letter::Empty,
    {
        Letter::Empty
    }
}

} // verus!
