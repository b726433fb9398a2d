//! The typed messages that travel between a streaming session and its
//! client, and the batch of labeled updates one session cycle pushes: one
//! update per tracked field, each carrying the field's identifier and its
//! rendered value.

use vstd::prelude::*;
use vstd::string::StringExecFns;

use crate::numparse::{parse_i32_bytes, spec_parse_i32};
use crate::state::IoState;
use crate::textfmt::{bool_string, spec_bool_chars, spec_volts_chars, volts_string};
use crate::wire::{encode_update, update_wire};

verus! {

/// Marker for the client-side text widgets the updates address.
pub struct TextDisplay {}

/// Placeholder for session state beyond the channel itself.
pub struct InnerRhino {}

/// One labeled update sent from the server to the client: a field
/// identifier and that field's value rendered as text.
pub struct TextUpdate {
    pub id: String,
    pub text: String,
}

impl TextUpdate {
    pub fn new(id: String, text: String) -> (u: TextUpdate)
        ensures
            u.id@ == id@,
            u.text@ == text@,
    {
        TextUpdate { id, text }
    }

    /// The update as one outbound wire message.
    pub fn wire_bytes(&self) -> (r: Vec<u8>)
        ensures
            r@ == update_wire(
                vstd::utf8::encode_utf8(self.id@),
                vstd::utf8::encode_utf8(self.text@),
            ),
    {
        encode_update(self.id.as_str(), self.text.as_str())
    }
}

/// A client's toggle request as a typed value: the target pin's identifier
/// as the client wrote it, and the request's free text.
pub struct LEDToggleUpdate {
    pub id: String,
    pub message: String,
}

impl LEDToggleUpdate {
    pub fn new(id: String, message: String) -> (u: LEDToggleUpdate)
        ensures
            u.id@ == id@,
            u.message@ == message@,
    {
        LEDToggleUpdate { id, message }
    }

    /// The pin the request targets, when its written identifier reads as a
    /// number.
    pub fn pin(&self) -> (r: Option<i32>)
        ensures
            r == spec_parse_i32(vstd::utf8::encode_utf8(self.id@)),
    {
        parse_i32_bytes(self.id.as_str().as_bytes())
    }
}

/// The batch of updates one session cycle pushes for a snapshot: the eight
/// analog channels as volts, then the two digital inputs, each under its
/// fixed field identifier.
pub fn snapshot_updates(s: &IoState) -> (r: Vec<TextUpdate>)
    ensures
        r@.len() == 10,
        r@[0].id@ == "adc1_channel0"@ && r@[0].text@ == spec_volts_chars(s.adc1_channel0 as int),
        r@[1].id@ == "adc1_channel1"@ && r@[1].text@ == spec_volts_chars(s.adc1_channel1 as int),
        r@[2].id@ == "adc1_channel2"@ && r@[2].text@ == spec_volts_chars(s.adc1_channel2 as int),
        r@[3].id@ == "adc1_channel3"@ && r@[3].text@ == spec_volts_chars(s.adc1_channel3 as int),
        r@[4].id@ == "adc2_channel0"@ && r@[4].text@ == spec_volts_chars(s.adc2_channel0 as int),
        r@[5].id@ == "adc2_channel1"@ && r@[5].text@ == spec_volts_chars(s.adc2_channel1 as int),
        r@[6].id@ == "adc2_channel2"@ && r@[6].text@ == spec_volts_chars(s.adc2_channel2 as int),
        r@[7].id@ == "adc2_channel3"@ && r@[7].text@ == spec_volts_chars(s.adc2_channel3 as int),
        r@[8].id@ == "pin_one"@ && r@[8].text@ == spec_bool_chars(s.pin_one),
        r@[9].id@ == "pin_two"@ && r@[9].text@ == spec_bool_chars(s.pin_two),
{
    let mut r: Vec<TextUpdate> = Vec::new();
    r.push(TextUpdate::new(String::from_str("adc1_channel0"), volts_string(s.adc1_channel0)));
    r.push(TextUpdate::new(String::from_str("adc1_channel1"), volts_string(s.adc1_channel1)));
    r.push(TextUpdate::new(String::from_str("adc1_channel2"), volts_string(s.adc1_channel2)));
    r.push(TextUpdate::new(String::from_str("adc1_channel3"), volts_string(s.adc1_channel3)));
    r.push(TextUpdate::new(String::from_str("adc2_channel0"), volts_string(s.adc2_channel0)));
    r.push(TextUpdate::new(String::from_str("adc2_channel1"), volts_string(s.adc2_channel1)));
    r.push(TextUpdate::new(String::from_str("adc2_channel2"), volts_string(s.adc2_channel2)));
    r.push(TextUpdate::new(String::from_str("adc2_channel3"), volts_string(s.adc2_channel3)));
    r.push(TextUpdate::new(String::from_str("pin_one"), bool_string(s.pin_one)));
    r.push(TextUpdate::new(String::from_str("pin_two"), bool_string(s.pin_two)));
    r
}

} // verus!
