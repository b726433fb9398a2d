//! The bus transaction helper's pure half: turning a raw conversion-register
//! sample into a calibrated, clamped voltage, and the per-channel
//! configuration table that drives the eight reads of a polling cycle.
//!
//! Voltages are carried as whole microvolts so that every value the system
//! handles is exact: one ADC count is 125 microvolts.

use vstd::prelude::*;

verus! {

/// Microvolts represented by one ADC count (the chip's 0.000125 V/count scale).
pub const MICROVOLTS_PER_COUNT: u32 = 125;

/// Largest credible reading, in microvolts (6.5 V).
pub const VOLTAGE_LIMIT_MICROVOLTS: u32 = 6_500_000;

/// Fixed replacement for an out-of-range conversion, in microvolts (0.01 V).
pub const SENTINEL_MICROVOLTS: u32 = 10_000;

/// Bus address of the first ADC chip (address pin pulled to ground).
pub const ADDR_ADS115: u16 = 0x48;

/// Bus address of the second ADC chip.
pub const ADDR_ADS115_TWO: u16 = 0x49;

/// Register that selects channel and sample-rate mode.
pub const REG_CONFIGURATION: u8 = 0x01;

/// Register that holds the latest conversion.
pub const REG_CONVERSION: u8 = 0x00;

/// What a raw 16-bit sample converts to: scaled by the volts-per-count
/// constant, and replaced by the sentinel when the result would exceed the
/// voltage limit.
pub open spec fn converted_microvolts(raw: u16) -> int {
    if raw as int * MICROVOLTS_PER_COUNT as int > VOLTAGE_LIMIT_MICROVOLTS as int {
        SENTINEL_MICROVOLTS as int
    } else {
        raw as int * MICROVOLTS_PER_COUNT as int
    }
}

/// Convert one raw conversion-register sample to microvolts, clamping an
/// out-of-range result to the sentinel rather than propagating it.
pub fn convert_raw(raw: u16) -> (v: u32)
    ensures
        v as int == converted_microvolts(raw),
        v <= VOLTAGE_LIMIT_MICROVOLTS,
{
    let scaled: u32 = (raw as u32) * MICROVOLTS_PER_COUNT;
    if scaled > VOLTAGE_LIMIT_MICROVOLTS {
        SENTINEL_MICROVOLTS
    } else {
        scaled
    }
}

/// Join the two big-endian bytes of the conversion register into the raw
/// 16-bit sample.
pub fn raw_from_be_bytes(high: u8, low: u8) -> (raw: u16)
    ensures
        raw as int == high as int * 256 + low as int,
{
    (high as u16) * 256 + (low as u16)
}

/// The table that drives the eight reads of a cycle: for one chip and one
/// channel, the chip's bus address and the two configuration bytes that
/// select that channel and the sample-rate mode.
pub fn channel_config(chip: u8, channel: u8) -> (cfg: (u16, u8, u8))
    requires
        chip < 2,
        channel < 4,
    ensures
        cfg.0 == (if chip == 0 {
            ADDR_ADS115
        } else {
            ADDR_ADS115_TWO
        }),
        cfg.1 as int == 0x42 + channel as int * 0x10,
        cfg.2 == 0x82,
{
    let address: u16 = if chip == 0 {
        ADDR_ADS115
    } else {
        ADDR_ADS115_TWO
    };
    let config_one: u8 = 0x42 + channel * 0x10;
    (address, config_one, 0x82)
}

} // verus!
