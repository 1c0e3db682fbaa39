//! Axis selector: four mutually-exclusive, active-low inputs.

use vstd::prelude::*;
use crate::errors::LogicError;
use crate::selector::first_asserted;

verus! {

/// The machine axis the operator has selected for jogging.
#[derive(Clone, Copy, Debug, PartialEq, Eq, Structural)]
pub enum SelectedAxis {
    X,
    Y,
    Z,
    A,
}

impl SelectedAxis {
    /// Display letter of the axis.
    pub open spec fn letter_spec(self) -> char {
        match self {
            SelectedAxis::X => 'X',
            SelectedAxis::Y => 'Y',
            SelectedAxis::Z => 'Z',
            SelectedAxis::A => 'A',
        }
    }

    /// Display letter of the axis.
    pub fn letter(&self) -> (r: char)
        ensures
            r == self.letter_spec(),
    {
        match self {
            SelectedAxis::X => 'X',
            SelectedAxis::Y => 'Y',
            SelectedAxis::Z => 'Z',
            SelectedAxis::A => 'A',
        }
    }
}

/// One poll's worth of axis-selector readings. Each flag is `true` when the
/// corresponding active-low pin reads asserted (pulled low).
#[derive(Clone, Copy, Debug, PartialEq, Eq, Structural)]
pub struct Axis {
    pub x: bool,
    pub y: bool,
    pub z: bool,
    pub a: bool,
}

/// The selector resolution rule: the earliest asserted pin in the fixed
/// priority order [X, Y, Z, A] wins; `None` when no pin is asserted.
pub open spec fn axis_resolution(x: bool, y: bool, z: bool, a: bool) -> Option<SelectedAxis> {
    if x {
        Some(SelectedAxis::X)
    } else if y {
        Some(SelectedAxis::Y)
    } else if z {
        Some(SelectedAxis::Z)
    } else if a {
        Some(SelectedAxis::A)
    } else {
        None
    }
}

impl Axis {
    pub fn new(x: bool, y: bool, z: bool, a: bool) -> (r: Axis)
        ensures
            r == (Axis { x, y, z, a }),
    {
        Axis { x, y, z, a }
    }

    /// Get the currently selected axis (if any).
    ///
    /// If no axis is selected, `None` is returned. This indicates that the
    /// axis selector switch is in the "Off" position, or that a connection
    /// to the pendant has been lost. If several pins are asserted at once,
    /// the earliest pin in the fixed order [X, Y, Z, A] wins.
    pub fn axis(&self) -> (r: Option<SelectedAxis>)
        ensures
            r == axis_resolution(self.x, self.y, self.z, self.a),
    {
        if self.x {
            Some(SelectedAxis::X)
        } else if self.y {
            Some(SelectedAxis::Y)
        } else if self.z {
            Some(SelectedAxis::Z)
        } else if self.a {
            Some(SelectedAxis::A)
        } else {
            None
        }
    }

    /// Flag the wiring-fault condition: two or more pins asserted at once.
    pub fn check_exclusive(&self) -> (r: Result<(), LogicError>)
        ensures
            r is Err <==> {
                ||| self.x && self.y
                ||| self.x && self.z
                ||| self.x && self.a
                ||| self.y && self.z
                ||| self.y && self.a
                ||| self.z && self.a
            },
            r is Err ==> r == Err::<(), LogicError>(LogicError::AmbiguousSelection),
    {
        if (self.x && self.y) || (self.x && self.z) || (self.x && self.a) || (self.y && self.z)
            || (self.y && self.a) || (self.z && self.a) {
            Err(LogicError::AmbiguousSelection)
        } else {
            Ok(())
        }
    }
}

/// Dense code for an axis reading, for the debouncer core: 0 stands for
/// "no selection", 1..=4 for X/Y/Z/A.
pub open spec fn axis_code_spec(m: Option<SelectedAxis>) -> u8 {
    match m {
        None => 0,
        Some(SelectedAxis::X) => 1,
        Some(SelectedAxis::Y) => 2,
        Some(SelectedAxis::Z) => 3,
        Some(SelectedAxis::A) => 4,
    }
}

/// Reading represented by a debouncer code; codes outside 0..=4 cannot
/// arise from `axis_code` and decode defensively to `None`.
pub open spec fn axis_from_code_spec(c: u8) -> Option<SelectedAxis> {
    if c == 1 {
        Some(SelectedAxis::X)
    } else if c == 2 {
        Some(SelectedAxis::Y)
    } else if c == 3 {
        Some(SelectedAxis::Z)
    } else if c == 4 {
        Some(SelectedAxis::A)
    } else {
        None
    }
}

pub fn axis_code(m: Option<SelectedAxis>) -> (r: u8)
    ensures
        r == axis_code_spec(m),
{
    match m {
        None => 0,
        Some(SelectedAxis::X) => 1,
        Some(SelectedAxis::Y) => 2,
        Some(SelectedAxis::Z) => 3,
        Some(SelectedAxis::A) => 4,
    }
}

pub fn axis_from_code(c: u8) -> (r: Option<SelectedAxis>)
    ensures
        r == axis_from_code_spec(c),
{
    if c == 1 {
        Some(SelectedAxis::X)
    } else if c == 2 {
        Some(SelectedAxis::Y)
    } else if c == 3 {
        Some(SelectedAxis::Z)
    } else if c == 4 {
        Some(SelectedAxis::A)
    } else {
        None
    }
}

/// The code mapping loses nothing: decoding the code of any reading gives
/// the reading back.
pub proof fn lemma_axis_code_round_trip(m: Option<SelectedAxis>)
    ensures
        axis_from_code_spec(axis_code_spec(m)) == m,
{
}

/// The axis rule is exactly the general ordered resolution over the fixed
/// priority order [X, Y, Z, A]: whatever combination of pins is asserted,
/// the earliest in that order wins.
pub proof fn lemma_axis_resolution_ordered(x: bool, y: bool, z: bool, a: bool)
    ensures
        axis_resolution(x, y, z, a) == first_asserted(
            seq![
                (x, SelectedAxis::X),
                (y, SelectedAxis::Y),
                (z, SelectedAxis::Z),
                (a, SelectedAxis::A),
            ],
        ),
{
    let s = seq![
        (x, SelectedAxis::X),
        (y, SelectedAxis::Y),
        (z, SelectedAxis::Z),
        (a, SelectedAxis::A),
    ];
    let s1 = seq![(y, SelectedAxis::Y), (z, SelectedAxis::Z), (a, SelectedAxis::A)];
    let s2 = seq![(z, SelectedAxis::Z), (a, SelectedAxis::A)];
    let s3 = seq![(a, SelectedAxis::A)];
    reveal_with_fuel(first_asserted, 6);
    assert(s.drop_first() =~= s1);
    assert(s1.drop_first() =~= s2);
    assert(s2.drop_first() =~= s3);
    assert(s3.drop_first() =~= Seq::<(bool, SelectedAxis)>::empty());
}

} // verus!
