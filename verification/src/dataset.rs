//! The channel dataset: exactly `CHANNELS_COUNT` channels, populated once
//! at construction and reclassified in bulk when a threshold is applied.

use vstd::prelude::*;

use crate::common::{
    classified, value_in_range, ChannelInfo, CHANNELS_COUNT, HIGH_INTEGER_LIMIT, LOW_INTEGER_LIMIT,
};
use crate::errors::CommandError;
use crate::rng::draw_reading;

verus! {

/// The dataset after classifying every reading against `threshold`:
/// readings are untouched, every flag is recomputed.
pub open spec fn reclassified(s: Seq<ChannelInfo>, threshold: u32) -> Seq<ChannelInfo> {
    s.map(
        |i: int, c: ChannelInfo|
            ChannelInfo {
                integer_value: c.integer_value,
                is_suspicious: classified(c.integer_value, threshold),
            },
    )
}

/// An ordered sequence of exactly `CHANNELS_COUNT` channels. No channel is
/// ever added or removed over the lifetime of the value.
#[derive(Clone, PartialEq, Eq, Debug)]
pub struct ChannelDataset {
    pub channels: Vec<ChannelInfo>,
}

impl View for ChannelDataset {
    type V = Seq<ChannelInfo>;

    open spec fn view(&self) -> Seq<ChannelInfo> {
        self.channels@
    }
}

impl ChannelDataset {
    /// The length is fixed and every reading lies inside the domain bounds.
    pub open spec fn wf(self) -> bool {
        &&& self@.len() == CHANNELS_COUNT
        &&& forall|i: int| 0 <= i < self@.len() ==> (#[trigger] self@[i]).wf()
    }

    /// Populate the dataset with independent uniform random readings, each
    /// classified against `threshold`. Readings are random, so only their
    /// bounds and their classification are promised.
    pub fn new_random(threshold: u32) -> (d: Self)
        ensures
            d.wf(),
            forall|i: int|
                0 <= i < d@.len() ==> (#[trigger] d@[i]).is_suspicious == classified(
                    d@[i].integer_value,
                    threshold,
                ),
    {
        let mut channels: Vec<ChannelInfo> = Vec::new();
        for k in 0..CHANNELS_COUNT
            invariant
                channels@.len() == k,
                forall|i: int| 0 <= i < k ==> (#[trigger] channels@[i]).wf(),
                forall|i: int|
                    0 <= i < k ==> (#[trigger] channels@[i]).is_suspicious == classified(
                        channels@[i].integer_value,
                        threshold,
                    ),
        {
            let generated_int = draw_reading(LOW_INTEGER_LIMIT, HIGH_INTEGER_LIMIT);
            let is_suspicious = generated_int > threshold;
            channels.push(ChannelInfo { integer_value: generated_int, is_suspicious });
        }
        ChannelDataset { channels }
    }

    /// Populate the dataset with the given readings, each classified
    /// against `threshold`. The deterministic counterpart of
    /// `new_random`, for callers that bring their own data.
    pub fn from_readings(readings: &Vec<u32>, threshold: u32) -> (d: Self)
        requires
            readings@.len() == CHANNELS_COUNT,
            forall|i: int| 0 <= i < readings@.len() ==> value_in_range(#[trigger] readings@[i]),
        ensures
            d.wf(),
            forall|i: int|
                0 <= i < d@.len() ==> #[trigger] d@[i] == (ChannelInfo {
                    integer_value: readings@[i],
                    is_suspicious: classified(readings@[i], threshold),
                }),
    {
        let mut channels: Vec<ChannelInfo> = Vec::new();
        for k in 0..CHANNELS_COUNT
            invariant
                readings@.len() == CHANNELS_COUNT,
                forall|i: int| 0 <= i < readings@.len() ==> value_in_range(#[trigger] readings@[i]),
                channels@.len() == k,
                forall|i: int|
                    0 <= i < k ==> #[trigger] channels@[i] == (ChannelInfo {
                        integer_value: readings@[i],
                        is_suspicious: classified(readings@[i], threshold),
                    }),
        {
            let generated_int = readings[k];
            let is_suspicious = generated_int > threshold;
            channels.push(ChannelInfo { integer_value: generated_int, is_suspicious });
        }
        ChannelDataset { channels }
    }

    /// Read one channel; an index at or past `CHANNELS_COUNT` is rejected.
    /// No side effects.
    pub fn get(&self, index: usize) -> (r: Result<ChannelInfo, CommandError>)
        requires
            self.wf(),
        ensures
            index < CHANNELS_COUNT ==> r == Ok::<ChannelInfo, CommandError>(self@[index as int]),
            index >= CHANNELS_COUNT ==> r == Err::<ChannelInfo, CommandError>(
                CommandError::IndexOutOfRange,
            ),
    {
        if index < CHANNELS_COUNT {
            Ok(self.channels[index])
        } else {
            Err(CommandError::IndexOutOfRange)
        }
    }

    /// Set every channel's flag to `reading > threshold`; readings are
    /// untouched. Always succeeds.
    pub fn reclassify_all(&mut self, threshold: u32)
        requires
            old(self).wf(),
        ensures
            final(self).wf(),
            final(self)@ == reclassified(old(self)@, threshold),
    {
        let ghost orig = self.channels@;
        let mut k: usize = 0;
        while k < self.channels.len()
            invariant
                self@.len() == orig.len(),
                orig.len() == CHANNELS_COUNT,
                k <= orig.len(),
                forall|i: int| 0 <= i < orig.len() ==> #[trigger] orig[i].wf(),
                forall|i: int| k <= i < orig.len() ==> #[trigger] self@[i] == orig[i],
                forall|i: int|
                    0 <= i < k ==> #[trigger] self@[i] == (ChannelInfo {
                        integer_value: orig[i].integer_value,
                        is_suspicious: classified(orig[i].integer_value, threshold),
                    }),
            decreases orig.len() - k,
        {
            let value = self.channels[k].integer_value;
            self.channels.set(
                k,
                ChannelInfo { integer_value: value, is_suspicious: value > threshold },
            );
            k = k + 1;
        }
        proof {
            assert(self@ =~= reclassified(orig, threshold));
        }
    }
}

} // verus!
