//! The plugin as the host finds it: its name and what kind of plugin it is.

use vstd::prelude::*;

verus! {

/// What a host reads about a plugin before it creates one. A field that the
/// plugin leaves out is empty.
#[derive(Debug)]
pub struct Descriptor {
    pub id: &'static str,
    pub name: &'static str,
    pub vendor: &'static str,
    pub url: &'static str,
    pub manual_url: &'static str,
    pub support_url: &'static str,
    pub version: &'static str,
    pub description: &'static str,
    pub features: Vec<&'static str>,
}

/// Whether `descriptor` is that of PicoSine: a stereo synthesizer, with
/// nothing stated but its id, its name and these two features.
pub open spec fn is_picosine(descriptor: Descriptor) -> bool {
    &&& descriptor.id@ == "link.stef.audio.picosine"@
    &&& descriptor.name@ == "PicoSine"@
    &&& descriptor.vendor@ == ""@
    &&& descriptor.url@ == ""@
    &&& descriptor.manual_url@ == ""@
    &&& descriptor.support_url@ == ""@
    &&& descriptor.version@ == ""@
    &&& descriptor.description@ == ""@
    &&& descriptor.features@.len() == 2
    &&& descriptor.features@[0]@ == "synthesizer"@
    &&& descriptor.features@[1]@ == "stereo"@
}

/// The PicoSine plugin.
pub struct Picosine;

impl Picosine {
    /// The descriptor of the plugin.
    pub fn get_descriptor() -> (descriptor: Descriptor)
        ensures
            is_picosine(descriptor),
    {
        let mut features: Vec<&'static str> = Vec::new();
        features.push("synthesizer");
        features.push("stereo");
        Descriptor {
            id: "link.stef.audio.picosine",
            name: "PicoSine",
            vendor: "",
            url: "",
            manual_url: "",
            support_url: "",
            version: "",
            description: "",
            features,
        }
    }
}

} // verus!
