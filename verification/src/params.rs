//! The parameter that the plugin tells the host about.

use crate::binary64::saturating_u32;
use crate::binary64::to_u32;
use crate::decimal::numeral;
use crate::decimal::to_decimal;
use crate::main_thread::PicosineMainThread;
use crate::shared::FREQUENCY_DEFAULT;
use crate::shared::FREQUENCY_MAX;
use crate::shared::FREQUENCY_MIN;
use crate::shared::FREQUENCY_PARAM;
use std::sync::atomic::Ordering;
use vstd::prelude::*;
use vstd::string::StringExecFns;

verus! {

/// The description of one parameter. The three values are binary64 bit
/// patterns.
#[derive(Clone, Copy, Debug)]
pub struct ParamInfo {
    pub id: u32,
    pub name: &'static str,
    pub module: &'static str,
    pub default_value: u64,
    pub min_value: u64,
    pub max_value: u64,
    /// Whether the values of the parameter are whole numbers. No other flag
    /// of a parameter is ever set.
    pub is_stepped: bool,
}

/// Whether `info` describes the frequency parameter: stepped, from 30 to
/// 1000, 440 to begin with.
pub open spec fn is_frequency_param(info: ParamInfo) -> bool {
    &&& info.id == FREQUENCY_PARAM
    &&& info.name@ == "Frequency"@
    &&& info.module@ == "picosine/frequency"@
    &&& info.default_value == FREQUENCY_DEFAULT
    &&& info.min_value == FREQUENCY_MIN
    &&& info.max_value == FREQUENCY_MAX
    &&& info.is_stepped
}

/// The text that shows the value with the bit pattern `value` of the
/// parameter `param_id`: for the frequency its whole part in decimal,
/// followed by a space and `hz`; for any other parameter nothing.
pub open spec fn value_text(param_id: u32, value: u64) -> Seq<char> {
    if param_id == FREQUENCY_PARAM {
        numeral(saturating_u32(value) as nat) + " hz"@
    } else {
        Seq::empty()
    }
}

/// The parameters that a plugin offers to the host.
pub trait Params {
    /// The number of parameters.
    fn count(&self) -> u32;

    /// The description of the parameter at `param_index`, if there is one.
    fn get_info(&self, param_index: u32) -> Option<ParamInfo>;

    /// The value of the parameter `param_id`, if the plugin has it.
    fn get_value(&self, param_id: u32) -> Option<u64>;

    /// The text that shows `value` as a value of the parameter `param_id`.
    fn value_to_text(&self, param_id: u32, value: u64) -> String;

    /// The value of the parameter `param_id` that `text` stands for, if the
    /// plugin can tell.
    fn text_to_value(&self, param_id: u32, text: &str) -> Option<u64>;
}

impl<'a> Params for PicosineMainThread<'a> {
    /// One parameter.
    fn count(&self) -> (count: u32)
        ensures
            count == 1,
    {
        1
    }

    /// The frequency at index 0, and no other.
    fn get_info(&self, param_index: u32) -> (info: Option<ParamInfo>)
        ensures
            info is Some <==> param_index == 0,
            info matches Some(param) ==> is_frequency_param(param),
    {
        if param_index > 0 {
            return None;
        }
        Some(
            ParamInfo {
                id: FREQUENCY_PARAM,
                name: "Frequency",
                module: "picosine/frequency",
                default_value: FREQUENCY_DEFAULT,
                min_value: FREQUENCY_MIN,
                max_value: FREQUENCY_MAX,
                is_stepped: true,
            },
        )
    }

    /// The frequency now in the shared state, for the frequency parameter.
    /// Which value that is depends on what the audio thread has stored.
    fn get_value(&self, param_id: u32) -> (value: Option<u64>)
        ensures
            value is Some <==> param_id == FREQUENCY_PARAM,
    {
        if param_id == FREQUENCY_PARAM {
            Some(self.shared.freq_hz.load(Ordering::Relaxed))
        } else {
            None
        }
    }

    /// The whole part of a frequency, followed by ` hz`.
    fn value_to_text(&self, param_id: u32, value: u64) -> (text: String)
        ensures
            text@ == value_text(param_id, value),
    {
        if param_id == FREQUENCY_PARAM {
            let mut text = to_decimal(to_u32(value));
            text.append(" hz");
            text
        } else {
            String::new()
        }
    }

    /// No text is read back.
    fn text_to_value(&self, param_id: u32, text: &str) -> (value: Option<u64>)
        ensures
            value is None,
    {
        None
    }
}

} // verus!
