//! One timestamped frame and the lookup of its timestamp.

use vstd::prelude::*;

verus! {

/// The timestamp that a line of frame text carries: the value that
/// `serde_json` finds under the key `pose_landmarks_stamp` when the text is a
/// JSON object and that value is a non-negative integer that fits 64 bits;
/// `None` for any other text. The JSON grammar is serde_json's and is not
/// restated in this crate.
pub uninterp spec fn stamp_of(text: Seq<char>) -> Option<u64>;

/// Why a load was refused.
#[derive(Clone, Copy, Debug, PartialEq, Eq, Structural)]
pub enum LoadError {
    /// A non-empty line carries no timestamp.
    MissingTimestamp,
}

/// The mathematical value of a frame: its text and its timestamp.
pub ghost struct FrameModel {
    pub text: Seq<char>,
    pub stamp: u64,
}

/// One record of tracking data: the raw JSON text and the timestamp found in it.
#[derive(Debug)]
pub struct TrackingFrame {
    pub json_str: String,
    pub timestamp: u64,
}

impl View for TrackingFrame {
    type V = FrameModel;

    open spec fn view(&self) -> FrameModel {
        FrameModel { text: self.json_str@, stamp: self.timestamp }
    }
}

/// Trusted: parses `text` with `serde_json::from_str` into a
/// `serde_json::Value`, indexes it by the key `pose_landmarks_stamp` and reads
/// the entry with `Value::as_u64`. A parse error gives `None`, as do a value
/// that is no object, a missing key and an entry that is no unsigned integer.
/// The contract only gives this result its name, `stamp_of`.
#[verifier::external_body]
pub(crate) fn read_stamp(text: &str) -> (found: Option<u64>)
    ensures
        found == stamp_of(text@),
{
    match serde_json::from_str::<serde_json::Value>(text) {
        Ok(value) => value["pose_landmarks_stamp"].as_u64(),
        Err(_) => None,
    }
}

impl TrackingFrame {
    /// A frame that holds `json_str`, with its timestamp not yet looked up.
    pub fn new(json_str: String) -> (frame: Self)
        ensures
            frame.json_str == json_str,
            frame.timestamp == 0,
    {
        Self { json_str: json_str, timestamp: 0 }
    }

    /// Stores the outcome of a timestamp lookup: a found timestamp is taken
    /// over, a missing one is an error and leaves the frame as it was.
    pub fn set_timestamp(&mut self, found: Option<u64>) -> (r: Result<(), LoadError>)
        ensures
            final(self).json_str == old(self).json_str,
            found matches Some(stamp) ==> r == Ok::<(), LoadError>(()) && final(self).timestamp
                == stamp,
            found is None ==> r == Err::<(), LoadError>(LoadError::MissingTimestamp)
                && final(self).timestamp == old(self).timestamp,
    {
        match found {
            Some(stamp) => {
                self.timestamp = stamp;
                Ok(())
            },
            None => Err(LoadError::MissingTimestamp),
        }
    }

    /// Looks up the timestamp in the frame's own text and stores it.
    pub fn extract_timestamp(&mut self) -> (r: Result<(), LoadError>)
        ensures
            final(self).json_str == old(self).json_str,
            stamp_of(old(self).json_str@) matches Some(stamp) ==> r == Ok::<(), LoadError>(())
                && final(self).timestamp == stamp,
            stamp_of(old(self).json_str@) is None ==> r == Err::<(), LoadError>(
                LoadError::MissingTimestamp,
            ) && final(self).timestamp == old(self).timestamp,
    {
        let found = read_stamp(self.json_str.as_str());
        self.set_timestamp(found)
    }
}

} // verus!
