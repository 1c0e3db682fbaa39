//! The pendant state record: the single source of truth the display reads.

use vstd::prelude::*;
use crate::axis::SelectedAxis;
use crate::multiplier::SelectedMultiplier;

verus! {

/// Snapshot of operator intent plus the safety flag.
///
/// Created at system init with `estopped = true` (fail-safe default) and
/// both selections `None`; mutated for the rest of the process lifetime by
/// the emergency-stop handler (`is_estopped`) and the selector poller
/// (`multiplier` / `axis`), and read by the display refresh task.
#[derive(Clone, Copy, Debug, PartialEq)]
pub struct Pendant {
    pub is_estopped: bool,
    pub multiplier: Option<SelectedMultiplier>,
    pub axis: Option<SelectedAxis>,
}

impl Pendant {
    /// The fail-safe initial state: estopped, nothing selected.
    pub open spec fn initial() -> Pendant {
        Pendant { is_estopped: true, multiplier: None, axis: None }
    }

    /// Fail-safe constructor: the machine counts as stopped until the first
    /// estop edge is observed, and no selection is committed yet.
    pub fn new() -> (r: Pendant)
        ensures
            r == Pendant::initial(),
    {
        Pendant { is_estopped: true, multiplier: None, axis: None }
    }

    pub fn set_estop(&mut self)
        ensures
            final(self).is_estopped,
            final(self).multiplier == old(self).multiplier,
            final(self).axis == old(self).axis,
    {
        self.is_estopped = true;
    }

    pub fn clear_estop(&mut self)
        ensures
            !final(self).is_estopped,
            final(self).multiplier == old(self).multiplier,
            final(self).axis == old(self).axis,
    {
        self.is_estopped = false;
    }

    /// Record the observed electrical level of the estop line.
    pub fn write_estop_level(&mut self, level_asserted: bool)
        ensures
            final(self).is_estopped == level_asserted,
            final(self).multiplier == old(self).multiplier,
            final(self).axis == old(self).axis,
    {
        self.is_estopped = level_asserted;
    }

    pub fn set_multiplier(&mut self, multiplier: Option<SelectedMultiplier>)
        ensures
            final(self).multiplier == multiplier,
            final(self).is_estopped == old(self).is_estopped,
            final(self).axis == old(self).axis,
    {
        self.multiplier = multiplier
    }

    pub fn set_axis(&mut self, axis: Option<SelectedAxis>)
        ensures
            final(self).axis == axis,
            final(self).is_estopped == old(self).is_estopped,
            final(self).multiplier == old(self).multiplier,
    {
        self.axis = axis
    }

    pub fn estopped(&self) -> (r: bool)
        ensures
            r == self.is_estopped,
    {
        self.is_estopped
    }

    pub fn multiplier(&self) -> (r: Option<SelectedMultiplier>)
        ensures
            r == self.multiplier,
    {
        self.multiplier
    }

    pub fn axis(&self) -> (r: Option<SelectedAxis>)
        ensures
            r == self.axis,
    {
        self.axis
    }
}

} // verus!
