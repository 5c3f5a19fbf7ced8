//! The integer decisions of one simulation instance: which way a random roll
//! tilts the board, and the names of the instance's entities.
use vstd::prelude::*;
use crate::decimal::{decimal, push_decimal};

verus! {

/// Relies on `rand::random`: a value drawn from the thread-local generator;
/// nothing is promised of which.
pub assume_specification<T>[ rand::random::<T> ]() -> (r: T)
    where
        rand::distributions::Standard: rand::distributions::Distribution<T>,
;

/// A one-degree tilt step of a board about one axis.
#[derive(Clone, Copy, Debug, PartialEq, Eq, Structural)]
pub enum Tilt {
    /// Rotate by +1 degree about x; taken while the board's x rotation is below its limit.
    XPositive,
    /// Rotate by -1 degree about x; taken while the board's x rotation is above minus its limit.
    XNegative,
    /// Rotate by -1 degree about z; taken while the board's z rotation is above minus its limit.
    ZNegative,
    /// Rotate by +1 degree about z; taken while the board's z rotation is below its limit.
    ZPositive,
}

/// The tilt that a roll selects: its remainder by 4, from 0 to 3, picks one
/// of the four steps.
pub open spec fn tilt_of(roll: i8) -> Tilt {
    let d = (roll as int) % 4;
    if d == 0 {
        Tilt::XPositive
    } else if d == 1 {
        Tilt::XNegative
    } else if d == 2 {
        Tilt::ZNegative
    } else {
        Tilt::ZPositive
    }
}

impl Tilt {
    /// The step in whole degrees about x and about z.
    pub open spec fn spec_degrees(self) -> (int, int) {
        match self {
            Tilt::XPositive => (1, 0),
            Tilt::XNegative => (-1, 0),
            Tilt::ZNegative => (0, -1),
            Tilt::ZPositive => (0, 1),
        }
    }

    /// The step in whole degrees about x and about z.
    pub fn degrees(&self) -> (r: (i8, i8))
        ensures
            (r.0 as int, r.1 as int) == self.spec_degrees(),
    {
        match self {
            Tilt::XPositive => (1, 0),
            Tilt::XNegative => (-1, 0),
            Tilt::ZNegative => (0, -1),
            Tilt::ZPositive => (0, 1),
        }
    }
}

/// The choice is four-way: every tilt is selected by some roll.
pub proof fn lemma_every_tilt_selected(t: Tilt)
    ensures
        exists|roll: i8| tilt_of(roll) == t,
{
    match t {
        Tilt::XPositive => assert(tilt_of(0) == t),
        Tilt::XNegative => assert(tilt_of(1) == t),
        Tilt::ZNegative => assert(tilt_of(2) == t),
        Tilt::ZPositive => assert(tilt_of(3) == t),
    }
}

/// The tilt that `roll` selects.
pub fn tilt_for_roll(roll: i8) -> (r: Tilt)
    ensures
        r == tilt_of(roll),
{
    // Shifting by 128, a multiple of 4, keeps the remainder and makes the
    // value non-negative.
    let shifted: u16 = (roll as i16 + 128) as u16;
    let d: u16 = shifted % 4;
    assert((roll as int) % 4 == (shifted as int) % 4);
    if d == 0 {
        Tilt::XPositive
    } else if d == 1 {
        Tilt::XNegative
    } else if d == 2 {
        Tilt::ZNegative
    } else {
        Tilt::ZPositive
    }
}

/// The tilt for this frame, from a fresh random roll: each of the four steps
/// is the outcome of some roll.
pub fn random_tilt() -> (r: Tilt)
    ensures
        exists|roll: i8| r == tilt_of(roll),
{
    let roll: i8 = rand::random::<i8>();
    tilt_for_roll(roll)
}

/// The name of instance `index`'s board entity.
pub fn board_name(index: usize) -> (r: String)
    ensures
        r@ == "Board"@ + decimal(index as nat),
{
    let mut r = String::from_str("Board");
    push_decimal(&mut r, index);
    r
}

/// The name of instance `index`'s ball entity.
pub fn ball_name(index: usize) -> (r: String)
    ensures
        r@ == "Ball"@ + decimal(index as nat),
{
    let mut r = String::from_str("Ball");
    push_decimal(&mut r, index);
    r
}

} // verus!
