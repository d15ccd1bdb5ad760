//! The spinner shown while a fetch is in flight: ten fixed frames, cycled
//! one call at a time.

use vstd::prelude::*;
use vstd::string::StringExecFns;

verus! {

/// The ten spinner frames, in cycle order.
pub open spec fn spec_frames() -> Seq<Seq<char>> {
    seq![
        "⠋"@,
        "⠙"@,
        "⠹"@,
        "⠸"@,
        "⠼"@,
        "⠴"@,
        "⠦"@,
        "⠧"@,
        "⠇"@,
        "⠏"@,
    ]
}

/// The loading spinner: its frames, the frame to show next, and whether
/// anything is loading at all.
#[derive(Debug)]
pub struct Loading {
    pub frames: Vec<String>,
    pub frame_index: usize,
    pub is_loading: bool,
}

impl Loading {
    /// The frame contents.
    pub closed spec fn frames(self) -> Seq<Seq<char>> {
        self.frames@.map(|i: int, s: String| s@)
    }

    /// The index of the frame the next call returns.
    pub closed spec fn index(self) -> int {
        self.frame_index as int
    }

    /// Whether a fetch is in flight.
    pub closed spec fn loading(self) -> bool {
        self.is_loading
    }

    pub closed spec fn wf(self) -> bool {
        self.frames@.len() == 10 && self.frame_index < 10
    }

    /// A spinner at its first frame, in the loading state.
    pub fn new() -> (r: Self)
        ensures
            r.wf(),
            r.frames() == spec_frames(),
            r.index() == 0,
            r.loading(),
    {
        let mut frames: Vec<String> = Vec::new();
        frames.push(String::from_str("⠋"));
        frames.push(String::from_str("⠙"));
        frames.push(String::from_str("⠹"));
        frames.push(String::from_str("⠸"));
        frames.push(String::from_str("⠼"));
        frames.push(String::from_str("⠴"));
        frames.push(String::from_str("⠦"));
        frames.push(String::from_str("⠧"));
        frames.push(String::from_str("⠇"));
        frames.push(String::from_str("⠏"));
        let r = Loading { frames, frame_index: 0, is_loading: true };
        proof {
            assert(r.frames() =~= spec_frames());
        }
        r
    }

    /// Returns the current frame and advances the cycle by one.
    pub fn next_frame(&mut self) -> (r: String)
        requires
            old(self).wf(),
        ensures
            final(self).wf(),
            r@ == old(self).frames()[old(self).index()],
            final(self).index() == (old(self).index() + 1) % 10,
            final(self).frames() == old(self).frames(),
            final(self).loading() == old(self).loading(),
    {
        let frame = self.frames[self.frame_index].clone();
        self.frame_index = (self.frame_index + 1) % self.frames.len();
        frame
    }

    /// Marks a fetch as in flight or finished.
    pub fn set_loading(&mut self, loading: bool)
        ensures
            final(self).loading() == loading,
            final(self).frames() == old(self).frames(),
            final(self).index() == old(self).index(),
            final(self).wf() == old(self).wf(),
    {
        self.is_loading = loading;
    }

    /// Whether a fetch is in flight.
    pub fn is_loading(&self) -> (r: bool)
        ensures
            r == self.loading(),
    {
        self.is_loading
    }
}

} // verus!
