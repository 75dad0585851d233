//! What the user interface is told.

use vstd::prelude::*;
use crate::frame::FrameModel;

verus! {

/// One frame on its way to the user interface: its text, its index in the
/// store and its timestamp. Text that did not come from the store carries
/// index 0 and timestamp 0.
#[derive(Debug)]
pub struct Payload {
    pub filetext: String,
    pub current_frame: usize,
    pub current_stamp: u64,
}

/// The summary of a load: how many frames there are and the timestamps of the
/// first and the last of them.
#[derive(Clone, Copy, Debug, PartialEq, Eq, Structural)]
pub struct FrameNotifyPayload {
    pub current_frame: usize,
    pub total_frames: usize,
    pub begin_timestamp: u64,
    pub end_timestamp: u64,
}

impl Payload {
    /// The payload is frame `index` of `frames`.
    pub open spec fn shows(&self, frames: Seq<FrameModel>, index: int) -> bool {
        &&& 0 <= index < frames.len()
        &&& self.filetext@ == frames[index].text
        &&& self.current_frame == index
        &&& self.current_stamp == frames[index].stamp
    }

    /// The payload for text that belongs to no stored frame.
    pub fn notice(text: String) -> (payload: Payload)
        ensures
            payload.filetext == text,
            payload.current_frame == 0,
            payload.current_stamp == 0,
    {
        Payload { filetext: text, current_frame: 0, current_stamp: 0 }
    }
}

/// The summary of a store that holds `frames`; an empty store has none, so
/// that no first or last timestamp is ever read from it.
pub open spec fn summary_of(frames: Seq<FrameModel>) -> Option<FrameNotifyPayload> {
    if frames.len() == 0 {
        None
    } else {
        Some(
            FrameNotifyPayload {
                current_frame: 0,
                total_frames: frames.len() as usize,
                begin_timestamp: frames[0].stamp,
                end_timestamp: frames[frames.len() - 1].stamp,
            },
        )
    }
}

} // verus!
