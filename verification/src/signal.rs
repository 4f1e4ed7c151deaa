//! The clock-running signal: one slot that holds the latest value, and a
//! version by which each reader tells whether it has seen that value.
use vstd::prelude::*;

verus! {

/// The version that follows `version`. Versions start again at 0 after
/// `u64::MAX`; a reader compares versions for equality only.
pub open spec fn next_version(version: u64) -> u64 {
    if version == u64::MAX {
        0
    } else {
        (version + 1) as u64
    }
}

/// A single slot that holds whether the contest clock is running. Writing
/// overwrites the value and moves the version on.
#[derive(Clone, Copy, Debug, PartialEq, Eq, Structural)]
pub struct ClockRunningSignal {
    pub value: bool,
    pub version: u64,
}

impl ClockRunningSignal {
    /// The signal after `value` has been published.
    pub open spec fn publish_spec(self, value: bool) -> ClockRunningSignal {
        ClockRunningSignal { value, version: next_version(self.version) }
    }

    /// The signal after each of `values` has been published, in order.
    pub open spec fn publish_all(self, values: Seq<bool>) -> ClockRunningSignal
        decreases values.len(),
    {
        if values.len() == 0 {
            self
        } else {
            self.publish_all(values.drop_last()).publish_spec(values.last())
        }
    }

    /// A slot that holds `value`, at the first version.
    pub fn new(value: bool) -> (signal: ClockRunningSignal)
        ensures
            signal == (ClockRunningSignal { value, version: 0 }),
    {
        ClockRunningSignal { value, version: 0 }
    }

    /// Overwrites the slot with `value`. Every reader that had seen the
    /// previous value finds the slot changed, also where the value is the
    /// same as before.
    pub fn publish(&mut self, value: bool)
        ensures
            *final(self) == old(self).publish_spec(value),
            final(self).version != old(self).version,
    {
        self.value = value;
        self.version = if self.version == u64::MAX {
            0
        } else {
            self.version + 1
        };
    }

    /// The latest value.
    pub fn latest(&self) -> (value: bool)
        ensures
            value == self.value,
    {
        self.value
    }

    /// A reader that has seen the value that the slot holds now.
    pub fn subscribe(&self) -> (reader: ClockRunningReceiver)
        ensures
            reader.seen == self.version,
    {
        ClockRunningReceiver { seen: self.version }
    }
}

/// The version after a run of publications is the version before, moved on
/// by their number, counted round from `u64::MAX` to 0.
proof fn lemma_version_counts_publications(signal: ClockRunningSignal, values: Seq<bool>)
    ensures
        signal.publish_all(values).version == (signal.version + values.len())
            % 0x1_0000_0000_0000_0000,
    decreases values.len(),
{
    if values.len() > 0 {
        lemma_version_counts_publications(signal, values.drop_last());
    }
}

/// No change is missed: a reader that has seen the signal finds it changed
/// after any run of publications, and finds the value that was published
/// last, however many values were overwritten unread in between. Only a run
/// of 2^64 publications or more could bring an old version back.
pub proof fn law_no_change_is_missed(
    signal: ClockRunningSignal,
    reader: ClockRunningReceiver,
    values: Seq<bool>,
)
    requires
        reader.seen == signal.version,
        0 < values.len() <= u64::MAX,
    ensures
        reader.seen != signal.publish_all(values).version,
        signal.publish_all(values).value == values.last(),
{
    lemma_version_counts_publications(signal, values);
}

/// One reader of the clock-running signal. It remembers the version it saw
/// last, so a change is never missed, whenever the reader looks.
#[derive(Clone, Copy, Debug, PartialEq, Eq, Structural)]
pub struct ClockRunningReceiver {
    pub seen: u64,
}

impl ClockRunningReceiver {
    /// Whether the slot was written since this reader last took its value.
    pub fn has_changed(&self, signal: &ClockRunningSignal) -> (changed: bool)
        ensures
            changed == (self.seen != signal.version),
    {
        self.seen != signal.version
    }

    /// Takes the latest value and marks it as seen.
    pub fn borrow_and_update(&mut self, signal: &ClockRunningSignal) -> (value: bool)
        ensures
            value == signal.value,
            final(self).seen == signal.version,
    {
        self.seen = signal.version;
        signal.value
    }
}

} // verus!
