//! The audio ports that the plugin tells the host about.

use crate::main_thread::PicosineMainThread;
use vstd::prelude::*;

verus! {

/// The layout of the channels of a port.
#[derive(Clone, Copy, Debug, PartialEq, Eq, Structural)]
pub enum AudioPortType {
    Mono,
    Stereo,
}

/// The description of one audio port.
#[derive(Clone, Copy, Debug)]
pub struct AudioPortInfo {
    pub id: u32,
    pub name: &'static str,
    pub channel_count: u32,
    /// Whether the port carries the plugin's main signal. No other flag of a
    /// port is ever set.
    pub is_main: bool,
    pub port_type: Option<AudioPortType>,
    /// The id of the port on the other side that may share this port's
    /// buffers.
    pub in_place_pair: Option<u32>,
}

/// Whether `info` describes the one port of the plugin: the main port, with
/// two channels in stereo.
pub open spec fn is_main_port(info: AudioPortInfo) -> bool {
    &&& info.id == 0
    &&& info.name@ == "main"@
    &&& info.channel_count == 2
    &&& info.is_main
    &&& info.port_type == Some(AudioPortType::Stereo)
    &&& info.in_place_pair is None
}

/// The audio ports that a plugin offers to the host.
pub trait AudioPorts {
    /// The number of input ports, or of output ports.
    fn count(&self, is_input: bool) -> u32;

    /// The description of the port at `index` among the input ports, or among
    /// the output ports, if there is one.
    fn get(&self, is_input: bool, index: u32) -> Option<AudioPortInfo>;
}

impl<'a> AudioPorts for PicosineMainThread<'a> {
    /// One port on either side.
    fn count(&self, is_input: bool) -> (count: u32)
        ensures
            count == 1,
    {
        1
    }

    /// The main stereo port at index 0, on either side, and no other.
    fn get(&self, is_input: bool, index: u32) -> (info: Option<AudioPortInfo>)
        ensures
            info is Some <==> index == 0,
            info matches Some(port) ==> is_main_port(port),
    {
        if index == 0 {
            Some(
                AudioPortInfo {
                    id: 0,
                    name: "main",
                    channel_count: 2,
                    is_main: true,
                    port_type: Some(AudioPortType::Stereo),
                    in_place_pair: None,
                },
            )
        } else {
            None
        }
    }
}

} // verus!
