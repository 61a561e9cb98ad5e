//! The two running positional counters that stand in for re-descending
//! a tree: the current module position and the current item position
//! within that module.

use vstd::prelude::*;

verus! {

/// Schema depth (1-indexed from the document root) of `resource`
/// elements of interest: root, resources container, resource.
pub const RESOURCE_DEPTH: usize = 3;

/// Schema depth of a module's `item` element: root, organizations
/// container, organization, root item container, item.
pub const MODULE_DEPTH: usize = 5;

/// Schema depth of a module item's `item` element: one level below a
/// module.
pub const MODULE_ITEM_DEPTH: usize = 6;

/// Positional counters addressing the accumulator: which module is
/// current, and which item within it.
#[derive(Debug)]
pub struct ModuleIndexTracker {
    pub module_index: usize,
    pub module_item_index: usize,
}

/// Mathematical image of `ModuleIndexTracker`.
#[verifier::ext_equal]
pub struct TrackerV {
    pub module_index: int,
    pub module_item_index: int,
}

impl View for ModuleIndexTracker {
    type V = TrackerV;

    open spec fn view(&self) -> TrackerV {
        TrackerV {
            module_index: self.module_index as int,
            module_item_index: self.module_item_index as int,
        }
    }
}

/// One step of the counters when an `item` element closes at `depth`:
/// a module close advances the module position and rewinds the item
/// position; a module item close advances the item position; any other
/// depth changes nothing.
pub open spec fn step_spec(t: TrackerV, depth: int) -> TrackerV {
    if depth == MODULE_DEPTH as int {
        TrackerV { module_index: t.module_index + 1, module_item_index: 0 }
    } else if depth == MODULE_ITEM_DEPTH as int {
        TrackerV { module_index: t.module_index, module_item_index: t.module_item_index + 1 }
    } else {
        t
    }
}

impl ModuleIndexTracker {
    pub fn new() -> (t: ModuleIndexTracker)
        ensures
            t@ == (TrackerV { module_index: 0, module_item_index: 0 }),
    {
        ModuleIndexTracker { module_index: 0, module_item_index: 0 }
    }

    /// Advance the counters for an `item` element that closed at
    /// `depth`.
    pub fn step(&mut self, depth: usize)
        requires
            old(self).module_index < usize::MAX,
            old(self).module_item_index < usize::MAX,
        ensures
            final(self)@ == step_spec(old(self)@, depth as int),
    {
        if depth == MODULE_DEPTH {
            self.module_index = self.module_index + 1;
            self.module_item_index = 0;
        } else if depth == MODULE_ITEM_DEPTH {
            self.module_item_index = self.module_item_index + 1;
        }
    }
}

} // verus!
