//! The main thread's part of the plugin. What it tells the host about its
//! audio ports and about its parameter is in the modules `audio_ports` and
//! `params`.

use crate::shared::PicosineShared;
use vstd::prelude::*;

verus! {

/// The main thread's view of the plugin.
pub struct PicosineMainThread<'a> {
    pub(crate) shared: &'a PicosineShared,
}

impl<'a> PicosineMainThread<'a> {
    /// The shared state that the main thread reads the frequency from.
    pub closed spec fn shared(&self) -> &PicosineShared {
        self.shared
    }

    /// The main thread's part of the plugin whose shared state is `shared`.
    pub fn new(shared: &'a PicosineShared) -> (main_thread: Self)
        ensures
            main_thread.shared() == shared,
    {
        Self { shared }
    }
}

} // verus!
