//! Step-multiplier selector: three mutually-exclusive, active-low inputs.

use vstd::prelude::*;
use crate::errors::LogicError;
use crate::selector::first_asserted;

verus! {

/// The step multiplier the operator has dialled in. Used only for display
/// and consumption downstream, never for arithmetic inside the core.
#[derive(Clone, Copy, Debug, PartialEq, Eq, Structural)]
pub enum SelectedMultiplier {
    X1,
    X10,
    X100,
}

impl SelectedMultiplier {
    /// Ordinal weight of the multiplier: 1, 10 or 100.
    pub open spec fn weight_spec(self) -> u8 {
        match self {
            SelectedMultiplier::X1 => 1,
            SelectedMultiplier::X10 => 10,
            SelectedMultiplier::X100 => 100,
        }
    }

    /// Ordinal weight of the multiplier: 1, 10 or 100.
    pub fn weight(&self) -> (r: u8)
        ensures
            r == self.weight_spec(),
    {
        match self {
            SelectedMultiplier::X1 => 1,
            SelectedMultiplier::X10 => 10,
            SelectedMultiplier::X100 => 100,
        }
    }
}

/// One poll's worth of multiplier-selector readings. Each flag is `true`
/// when the corresponding active-low pin reads asserted (pulled low).
#[derive(Clone, Copy, Debug, PartialEq, Eq, Structural)]
pub struct MultiplierPins {
    pub x1: bool,
    pub x10: bool,
    pub x100: bool,
}

/// The selector resolution rule: the earliest asserted pin in the fixed
/// priority order [X1, X10, X100] wins; `None` when no pin is asserted.
pub open spec fn multiplier_resolution(x1: bool, x10: bool, x100: bool) -> Option<SelectedMultiplier> {
    if x1 {
        Some(SelectedMultiplier::X1)
    } else if x10 {
        Some(SelectedMultiplier::X10)
    } else if x100 {
        Some(SelectedMultiplier::X100)
    } else {
        None
    }
}

impl MultiplierPins {
    pub fn new(x1: bool, x10: bool, x100: bool) -> (r: MultiplierPins)
        ensures
            r == (MultiplierPins { x1, x10, x100 }),
    {
        MultiplierPins { x1, x10, x100 }
    }

    /// Return the currently selected multiplier.
    ///
    /// If no multiplier is selected (no pin asserted), `None` is returned.
    /// If several pins are asserted at once, the earliest pin in the fixed
    /// order [X1, X10, X100] wins: a defined tie-break, not an error.
    pub fn selection(&self) -> (r: Option<SelectedMultiplier>)
        ensures
            r == multiplier_resolution(self.x1, self.x10, self.x100),
    {
        if self.x1 {
            Some(SelectedMultiplier::X1)
        } else if self.x10 {
            Some(SelectedMultiplier::X10)
        } else if self.x100 {
            Some(SelectedMultiplier::X100)
        } else {
            None
        }
    }

    /// Flag the wiring-fault condition: two or more pins asserted at once.
    /// Resolution still succeeds by the tie-break; this is defensive only.
    pub fn check_exclusive(&self) -> (r: Result<(), LogicError>)
        ensures
            r is Err <==> {
                ||| self.x1 && self.x10
                ||| self.x1 && self.x100
                ||| self.x10 && self.x100
            },
            r is Err ==> r == Err::<(), LogicError>(LogicError::AmbiguousSelection),
    {
        if (self.x1 && self.x10) || (self.x1 && self.x100) || (self.x10 && self.x100) {
            Err(LogicError::AmbiguousSelection)
        } else {
            Ok(())
        }
    }
}

/// Dense code for a multiplier reading, for the debouncer core: 0 stands
/// for "no selection", 1..=3 for X1/X10/X100.
pub open spec fn multiplier_code_spec(m: Option<SelectedMultiplier>) -> u8 {
    match m {
        None => 0,
        Some(SelectedMultiplier::X1) => 1,
        Some(SelectedMultiplier::X10) => 2,
        Some(SelectedMultiplier::X100) => 3,
    }
}

/// Reading represented by a debouncer code; codes outside 0..=3 cannot
/// arise from `multiplier_code` and decode defensively to `None`.
pub open spec fn multiplier_from_code_spec(c: u8) -> Option<SelectedMultiplier> {
    if c == 1 {
        Some(SelectedMultiplier::X1)
    } else if c == 2 {
        Some(SelectedMultiplier::X10)
    } else if c == 3 {
        Some(SelectedMultiplier::X100)
    } else {
        None
    }
}

pub fn multiplier_code(m: Option<SelectedMultiplier>) -> (r: u8)
    ensures
        r == multiplier_code_spec(m),
{
    match m {
        None => 0,
        Some(SelectedMultiplier::X1) => 1,
        Some(SelectedMultiplier::X10) => 2,
        Some(SelectedMultiplier::X100) => 3,
    }
}

pub fn multiplier_from_code(c: u8) -> (r: Option<SelectedMultiplier>)
    ensures
        r == multiplier_from_code_spec(c),
{
    if c == 1 {
        Some(SelectedMultiplier::X1)
    } else if c == 2 {
        Some(SelectedMultiplier::X10)
    } else if c == 3 {
        Some(SelectedMultiplier::X100)
    } else {
        None
    }
}

/// The code mapping loses nothing: decoding the code of any reading gives
/// the reading back.
pub proof fn lemma_multiplier_code_round_trip(m: Option<SelectedMultiplier>)
    ensures
        multiplier_from_code_spec(multiplier_code_spec(m)) == m,
{
}

/// The multiplier rule is exactly the general ordered resolution over the
/// fixed priority order [X1, X10, X100]: whatever combination of pins is
/// asserted, the earliest in that order wins.
pub proof fn lemma_multiplier_resolution_ordered(x1: bool, x10: bool, x100: bool)
    ensures
        multiplier_resolution(x1, x10, x100) == first_asserted(
            seq![
                (x1, SelectedMultiplier::X1),
                (x10, SelectedMultiplier::X10),
                (x100, SelectedMultiplier::X100),
            ],
        ),
{
    let s = seq![
        (x1, SelectedMultiplier::X1),
        (x10, SelectedMultiplier::X10),
        (x100, SelectedMultiplier::X100),
    ];
    let s1 = seq![(x10, SelectedMultiplier::X10), (x100, SelectedMultiplier::X100)];
    let s2 = seq![(x100, SelectedMultiplier::X100)];
    reveal_with_fuel(first_asserted, 5);
    assert(s.drop_first() =~= s1);
    assert(s1.drop_first() =~= s2);
    assert(s2.drop_first() =~= Seq::<(bool, SelectedMultiplier)>::empty());
}

} // verus!
