//! The shared sensor state: an immutable-once-read snapshot of every digital
//! input and every analog channel, and the single mutually-exclusive
//! container that the polling loop writes and every streaming session reads.
//!
//! The container is held under one exclusion mechanism by the caller; the
//! contracts here pin down that a read copies the whole snapshot and a write
//! replaces the whole snapshot, so no observer can see values of two
//! different polling cycles mixed.

use vstd::prelude::*;

use crate::adc::VOLTAGE_LIMIT_MICROVOLTS;

verus! {

/// One point-in-time reading of every tracked input: three digital pins and
/// the eight analog channels of the two ADC chips, in microvolts.
#[derive(Clone, Copy, Debug, PartialEq, Eq, Structural)]
pub struct IoState {
    /// Digital input pins.
    pub pin_one: bool,
    pub pin_two: bool,
    pub pin_three: bool,

    /// Calibrated channel voltages of the first chip, in microvolts.
    pub adc1_channel0: u32,
    pub adc1_channel1: u32,
    pub adc1_channel2: u32,
    pub adc1_channel3: u32,

    /// Calibrated channel voltages of the second chip, in microvolts.
    pub adc2_channel0: u32,
    pub adc2_channel1: u32,
    pub adc2_channel2: u32,
    pub adc2_channel3: u32,
}

impl IoState {
    /// Every analog channel lies within the clamping rule's range.
    pub open spec fn wf(self) -> bool {
        &&& self.adc1_channel0 <= VOLTAGE_LIMIT_MICROVOLTS
        &&& self.adc1_channel1 <= VOLTAGE_LIMIT_MICROVOLTS
        &&& self.adc1_channel2 <= VOLTAGE_LIMIT_MICROVOLTS
        &&& self.adc1_channel3 <= VOLTAGE_LIMIT_MICROVOLTS
        &&& self.adc2_channel0 <= VOLTAGE_LIMIT_MICROVOLTS
        &&& self.adc2_channel1 <= VOLTAGE_LIMIT_MICROVOLTS
        &&& self.adc2_channel2 <= VOLTAGE_LIMIT_MICROVOLTS
        &&& self.adc2_channel3 <= VOLTAGE_LIMIT_MICROVOLTS
    }

    /// The startup snapshot: all inputs low, all channels at zero volts.
    pub fn new() -> (s: IoState)
        ensures
            s.pin_one == false,
            s.pin_two == false,
            s.pin_three == false,
            s.adc1_channel0 == 0,
            s.adc1_channel1 == 0,
            s.adc1_channel2 == 0,
            s.adc1_channel3 == 0,
            s.adc2_channel0 == 0,
            s.adc2_channel1 == 0,
            s.adc2_channel2 == 0,
            s.adc2_channel3 == 0,
            s.wf(),
    {
        IoState {
            pin_one: false,
            pin_two: false,
            pin_three: false,
            adc1_channel0: 0,
            adc1_channel1: 0,
            adc1_channel2: 0,
            adc1_channel3: 0,
            adc2_channel0: 0,
            adc2_channel1: 0,
            adc2_channel2: 0,
            adc2_channel3: 0,
        }
    }

    /// The analog channels as one indexed family: chip one's channels under
    /// zero to three, chip two's under four to seven.
    pub open spec fn channel_microvolts(self, i: int) -> int
        recommends
            0 <= i < 8,
    {
        if i == 0 {
            self.adc1_channel0 as int
        } else if i == 1 {
            self.adc1_channel1 as int
        } else if i == 2 {
            self.adc1_channel2 as int
        } else if i == 3 {
            self.adc1_channel3 as int
        } else if i == 4 {
            self.adc2_channel0 as int
        } else if i == 5 {
            self.adc2_channel1 as int
        } else if i == 6 {
            self.adc2_channel2 as int
        } else {
            self.adc2_channel3 as int
        }
    }

    /// Record the level of one digital input. Pins other than the two wired
    /// inputs are ignored, leaving the snapshot unchanged.
    pub fn set_pin(&mut self, pin: u8, value: bool)
        ensures
            final(self).pin_one == (if pin == 0 { value } else { old(self).pin_one }),
            final(self).pin_two == (if pin == 1 { value } else { old(self).pin_two }),
            final(self).pin_three == old(self).pin_three,
            final(self).adc1_channel0 == old(self).adc1_channel0,
            final(self).adc1_channel1 == old(self).adc1_channel1,
            final(self).adc1_channel2 == old(self).adc1_channel2,
            final(self).adc1_channel3 == old(self).adc1_channel3,
            final(self).adc2_channel0 == old(self).adc2_channel0,
            final(self).adc2_channel1 == old(self).adc2_channel1,
            final(self).adc2_channel2 == old(self).adc2_channel2,
            final(self).adc2_channel3 == old(self).adc2_channel3,
    {
        if pin == 0 {
            self.pin_one = value;
        } else if pin == 1 {
            self.pin_two = value;
        }
    }
}

/// In a well-formed snapshot every one of the eight channel values lies in
/// the clamping rule's range, from zero volts to the voltage limit.
pub proof fn lemma_channels_within_limit(s: IoState)
    requires
        s.wf(),
    ensures
        forall|i: int|
            0 <= i < 8 ==> 0 <= #[trigger] s.channel_microvolts(i)
                <= VOLTAGE_LIMIT_MICROVOLTS as int,
{
}

/// The single shared container of the latest snapshot. The polling loop is
/// its sole writer; streaming sessions and the on-demand page are its
/// readers. The caller keeps it behind one exclusion mechanism; within that
/// exclusion the contracts below make the replace all-or-nothing.
pub struct SharedState {
    snapshot: IoState,
}

/// What a full replace leaves in the container.
pub closed spec fn write_spec(st: SharedState, s: IoState) -> SharedState {
    SharedState { snapshot: s }
}

/// What a read copies out of the container.
pub closed spec fn read_spec(st: SharedState) -> IoState {
    st.snapshot
}

impl SharedState {
    pub closed spec fn view_snapshot(self) -> IoState {
        self.snapshot
    }

    /// Create the one container of the process, holding `initial`.
    pub fn new(initial: IoState) -> (st: SharedState)
        ensures
            st.view_snapshot() == initial,
    {
        SharedState { snapshot: initial }
    }

    /// Copy the whole current snapshot out.
    pub fn read_snapshot(&self) -> (s: IoState)
        ensures
            s == read_spec(*self),
            s == self.view_snapshot(),
    {
        self.snapshot
    }

    /// Replace the whole snapshot at once with the newly assembled one.
    pub fn write_snapshot(&mut self, s: IoState)
        ensures
            *final(self) == write_spec(*old(self), s),
            final(self).view_snapshot() == s,
    {
        self.snapshot = s;
    }
}

/// Reading a snapshot twice without an intervening write returns identical
/// values: both reads copy the same stored snapshot, field for field.
pub proof fn lemma_read_idempotent(st: SharedState, r1: IoState, r2: IoState)
    requires
        r1 == read_spec(st),
        r2 == read_spec(st),
    ensures
        r1 == r2,
{
}

/// The replace is atomic with respect to the model: a read after a write
/// returns exactly the written snapshot, never a value mixing the written
/// snapshot with the one it replaced.
pub proof fn lemma_write_then_read(st: SharedState, written: IoState)
    ensures
        read_spec(write_spec(st, written)) == written,
{
}

/// A reader never observes a mixture of two cycles' snapshots: after one
/// write replaces another, a read returns the later snapshot entire — no
/// field of the earlier one survives into what the reader sees.
pub proof fn lemma_no_torn_read(st: SharedState, earlier: IoState, later: IoState, r: IoState)
    requires
        r == read_spec(write_spec(write_spec(st, earlier), later)),
    ensures
        r == later,
{
}

} // verus!
