//! Audio sources known to the mixer.
use vstd::prelude::*;

verus! {

/// Audio source representing an MPV instance
pub struct AudioSource;

impl AudioSource {
    pub fn new(_name: String, _socket_path: String) -> (s: Self) {
        AudioSource
    }
}

/// Manager for multiple audio sources
pub struct AudioSourceManager {
    sources: Vec<AudioSource>,
}

impl AudioSourceManager {
    /// Number of sources added.
    pub closed spec fn count(&self) -> nat {
        self.sources@.len()
    }

    pub fn new() -> (m: Self)
        ensures
            m.count() == 0,
    {
        AudioSourceManager { sources: Vec::new() }
    }

    pub fn add_source(&mut self, source: AudioSource)
        ensures
            final(self).count() == old(self).count() + 1,
    {
        self.sources.push(source);
    }

    /// Number of sources added.
    pub fn len(&self) -> (n: usize)
        ensures
            n == self.count(),
    {
        self.sources.len()
    }
}

impl Default for AudioSourceManager {
    fn default() -> (m: Self)
        ensures
            m.count() == 0,
    {
        Self::new()
    }
}

} // verus!
