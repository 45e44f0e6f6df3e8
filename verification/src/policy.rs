//! The suspicion policy: a single mutable threshold and the action that
//! commits it into the dataset's per-channel classification.

use vstd::prelude::*;

use crate::common::{
    value_in_range, HIGH_INTEGER_LIMIT, LOW_INTEGER_LIMIT, SUSPICIOUS_LIMIT,
};
use crate::dataset::{reclassified, ChannelDataset};
use crate::errors::CommandError;

verus! {

/// Owns the active threshold. Changing it does not touch any channel's
/// flag by itself; `apply` commits it.
#[derive(Clone, Copy, PartialEq, Eq, Structural, Debug)]
pub struct SuspicionPolicy {
    pub threshold: u32,
}

impl SuspicionPolicy {
    /// The threshold lies inside the domain bounds.
    pub open spec fn wf(self) -> bool {
        value_in_range(self.threshold)
    }

    /// A fresh policy starts at the default threshold.
    pub fn new() -> (p: Self)
        ensures
            p.threshold == SUSPICIOUS_LIMIT,
            p.wf(),
    {
        SuspicionPolicy { threshold: SUSPICIOUS_LIMIT }
    }

    /// The active threshold.
    pub fn threshold(&self) -> (t: u32)
        ensures
            t == self.threshold,
    {
        self.threshold
    }

    /// Store a new threshold. An out-of-bounds value is rejected and
    /// leaves the policy unchanged; no channel flag changes either way.
    pub fn set_threshold(&mut self, value: u32) -> (r: Result<(), CommandError>)
        requires
            old(self).wf(),
        ensures
            final(self).wf(),
            value_in_range(value) ==> r == Ok::<(), CommandError>(())
                && final(self).threshold == value,
            !value_in_range(value) ==> r == Err::<(), CommandError>(CommandError::ValueOutOfRange)
                && *final(self) == *old(self),
    {
        if LOW_INTEGER_LIMIT <= value && value <= HIGH_INTEGER_LIMIT {
            self.threshold = value;
            Ok(())
        } else {
            Err(CommandError::ValueOutOfRange)
        }
    }

    /// Commit the active threshold: reclassify every channel against it.
    pub fn apply(&self, dataset: &mut ChannelDataset)
        requires
            old(dataset).wf(),
        ensures
            final(dataset).wf(),
            final(dataset)@ == reclassified(old(dataset)@, self.threshold),
    {
        dataset.reclassify_all(self.threshold)
    }
}

} // verus!
