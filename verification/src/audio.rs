//! Sound playback. Playback is switched off in this version of the engine:
//! `play_file` accepts a request and plays nothing.
use vstd::prelude::*;

verus! {

/// The audio player.
pub struct Audio {}

impl Audio {
    pub fn new() -> (a: Self) {
        Audio {  }
    }

    /// Would play the file at `_fpath`, looping when `_is_loop`; playback
    /// is switched off, so nothing happens.
    pub fn play_file(&self, _fpath: &str, _is_loop: bool) {
    }
}

impl Default for Audio {
    fn default() -> (a: Self) {
        Audio::new()
    }
}

} // verus!
