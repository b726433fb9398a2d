//! The polling loop's per-cycle decisions: merging the eight channel reads
//! and the digital levels into the next snapshot, applying at most one
//! pending output command, and toggling the heartbeat output. The loop's
//! waiting and the bus transactions themselves happen outside; this module
//! fixes what each cycle computes from what came back.

use vstd::prelude::*;

use crate::adc::{convert_raw, converted_microvolts, VOLTAGE_LIMIT_MICROVOLTS};
use crate::command::{intake_spec, OutputCommand};
use crate::state::IoState;
use crate::wire::spec_decode_command;

verus! {

/// Milliseconds slept between polling cycles.
pub const MAIN_LOOP_DELAY: u64 = 100;

/// Milliseconds of settle delay after each bus step.
pub const I2C_DELAY_TIME: u64 = 10;

/// Id of the managed output pin that toggle commands address.
pub const OUTPUT20: u8 = 20;

/// The value a channel holds after one cycle: the converted new sample when
/// the bus transaction succeeded, the previous cycle's value when it failed.
pub open spec fn merged_microvolts(prev: u32, reading: Option<u16>) -> int {
    match reading {
        Some(raw) => converted_microvolts(raw),
        None => prev as int,
    }
}

/// Merge one channel's transaction outcome with its previous value. A
/// transient bus fault (`None`) is recovered locally: the channel keeps the
/// previous cycle's value and the cycle goes on.
pub fn merge_reading(prev: u32, reading: Option<u16>) -> (v: u32)
    ensures
        v as int == merged_microvolts(prev, reading),
        prev <= VOLTAGE_LIMIT_MICROVOLTS ==> v <= VOLTAGE_LIMIT_MICROVOLTS,
{
    match reading {
        Some(raw) => convert_raw(raw),
        None => prev,
    }
}

/// Assemble the next snapshot from the previous one, the two digital input
/// levels, and the eight transaction outcomes of this cycle, in the fixed
/// order chip one channels 0 to 3, then chip two channels 0 to 3. One failed
/// read never disturbs the other seven channels, and a well-formed previous
/// snapshot yields a well-formed next one.
pub fn next_snapshot(
    prev: &IoState,
    pin_one: bool,
    pin_two: bool,
    readings: &[Option<u16>; 8],
) -> (s: IoState)
    ensures
        s.pin_one == pin_one,
        s.pin_two == pin_two,
        s.pin_three == prev.pin_three,
        s.adc1_channel0 as int == merged_microvolts(prev.adc1_channel0, readings@[0]),
        s.adc1_channel1 as int == merged_microvolts(prev.adc1_channel1, readings@[1]),
        s.adc1_channel2 as int == merged_microvolts(prev.adc1_channel2, readings@[2]),
        s.adc1_channel3 as int == merged_microvolts(prev.adc1_channel3, readings@[3]),
        s.adc2_channel0 as int == merged_microvolts(prev.adc2_channel0, readings@[4]),
        s.adc2_channel1 as int == merged_microvolts(prev.adc2_channel1, readings@[5]),
        s.adc2_channel2 as int == merged_microvolts(prev.adc2_channel2, readings@[6]),
        s.adc2_channel3 as int == merged_microvolts(prev.adc2_channel3, readings@[7]),
        prev.wf() ==> s.wf(),
{
    IoState {
        pin_one,
        pin_two,
        pin_three: prev.pin_three,
        adc1_channel0: merge_reading(prev.adc1_channel0, readings[0]),
        adc1_channel1: merge_reading(prev.adc1_channel1, readings[1]),
        adc1_channel2: merge_reading(prev.adc1_channel2, readings[2]),
        adc1_channel3: merge_reading(prev.adc1_channel3, readings[3]),
        adc2_channel0: merge_reading(prev.adc2_channel0, readings[4]),
        adc2_channel1: merge_reading(prev.adc2_channel1, readings[5]),
        adc2_channel2: merge_reading(prev.adc2_channel2, readings[6]),
        adc2_channel3: merge_reading(prev.adc2_channel3, readings[7]),
    }
}

/// The levels of the two output pins the loop drives: the heartbeat
/// selection pin, toggled every cycle, and the managed output pin, flipped
/// on command.
#[derive(Clone, Copy, Debug, PartialEq, Eq, Structural)]
pub struct OutputLevels {
    pub selection: bool,
    pub output20: bool,
}

/// The managed output pin's level after draining one command: flipped when
/// the command addresses it, unchanged on any other command or on none.
pub open spec fn toggled_output20(cmd: Option<OutputCommand>, level: bool) -> bool {
    match cmd {
        Some(OutputCommand::LedToggle(pin)) => if pin == OUTPUT20 as i32 {
            !level
        } else {
            level
        },
        None => level,
    }
}

/// Steps three and four of a cycle: apply at most the one drained command to
/// the managed output pin, and toggle the heartbeat pin.
pub fn apply_cycle_outputs(levels: &mut OutputLevels, cmd: Option<OutputCommand>)
    ensures
        final(levels).selection == !old(levels).selection,
        final(levels).output20 == toggled_output20(cmd, old(levels).output20),
{
    levels.selection = !levels.selection;
    match cmd {
        Some(OutputCommand::LedToggle(pin)) => {
            if pin == OUTPUT20 as i32 {
                let flipped: bool = !levels.output20;
                levels.output20 = flipped;
            }
        },
        None => {},
    }
}

/// A toggle command addressed to the managed output pin flips its level
/// exactly once per drained command: one command inverts the level, and a
/// cycle that drains no command leaves it where it is.
pub proof fn lemma_toggle_flips_once(level: bool)
    ensures
        toggled_output20(Some(OutputCommand::LedToggle(OUTPUT20 as i32)), level) == !level,
        toggled_output20(None, !level) == !level,
{
}

/// The whole command path, wire to pin: a client message that decodes to a
/// toggle request for the managed output pin leaves exactly one command
/// pending in an empty queue, and the cycle that drains it flips the pin's
/// level exactly once.
pub proof fn lemma_toggle_request_path(msg: Seq<u8>, cap: int, level: bool)
    requires
        spec_decode_command(msg) == Some(OUTPUT20 as i32),
        1 <= cap,
    ensures
        intake_spec(Seq::<OutputCommand>::empty(), cap, msg) == seq![
            OutputCommand::LedToggle(OUTPUT20 as i32),
        ],
        toggled_output20(
            Some(intake_spec(Seq::<OutputCommand>::empty(), cap, msg)[0]),
            level,
        ) == !level,
{
    assert(intake_spec(Seq::<OutputCommand>::empty(), cap, msg) =~= seq![
        OutputCommand::LedToggle(OUTPUT20 as i32),
    ]);
}

} // verus!
