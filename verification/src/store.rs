//! The frame store: the frames of one loaded source, in line order.

use vstd::prelude::*;
use crate::event::{summary_of, FrameNotifyPayload, Payload};
use crate::frame::{read_stamp, stamp_of, FrameModel, LoadError, TrackingFrame};

verus! {

/// A line of a source with the outcome of its timestamp lookup.
pub type Entry = (Seq<char>, Option<u64>);

/// The entries that a vector of looked-up lines stands for.
pub open spec fn entries_of(lines: Seq<(String, Option<u64>)>) -> Seq<Entry> {
    Seq::new(lines.len(), |i: int| (lines[i].0@, lines[i].1))
}

/// Each line of a source with the timestamp that it carries.
pub open spec fn stamped(lines: Seq<String>) -> Seq<Entry> {
    Seq::new(lines.len(), |i: int| (lines[i]@, stamp_of(lines[i]@)))
}

/// A line can be loaded: it is empty, and is passed over, or it carries a
/// timestamp.
pub open spec fn entry_ok(entry: Entry) -> bool {
    entry.0.len() == 0 || entry.1 is Some
}

/// A source can be loaded: every line of it can. One line that cannot be
/// loaded fails the whole load.
pub open spec fn loadable(entries: Seq<Entry>) -> bool {
    forall|i: int| 0 <= i < entries.len() ==> entry_ok(#[trigger] entries[i])
}

/// The frames of a source: one for each non-empty line, in line order.
pub open spec fn assembled(entries: Seq<Entry>) -> Seq<FrameModel>
    decreases entries.len(),
{
    if entries.len() == 0 {
        Seq::empty()
    } else {
        let before = assembled(entries.drop_last());
        let entry = entries.last();
        if entry.0.len() == 0 {
            before
        } else {
            before.push(FrameModel { text: entry.0, stamp: entry.1.unwrap() })
        }
    }
}

/// An ordered sequence of frames that can be addressed by index. It is built
/// whole from a source and not edited afterwards.
#[derive(Debug)]
pub struct FrameStore {
    frames: Vec<TrackingFrame>,
}

impl View for FrameStore {
    type V = Seq<FrameModel>;

    closed spec fn view(&self) -> Seq<FrameModel> {
        Seq::new(self.frames@.len(), |i: int| self.frames@[i]@)
    }
}

impl FrameStore {
    /// A store without frames.
    pub fn new() -> (store: FrameStore)
        ensures
            store@ == Seq::<FrameModel>::empty(),
    {
        let store = FrameStore { frames: Vec::new() };
        assert(store@ =~= Seq::<FrameModel>::empty());
        store
    }

    /// The number of frames.
    pub fn len(&self) -> (n: usize)
        ensures
            n == self@.len(),
    {
        self.frames.len()
    }

    /// Whether the store holds no frame.
    pub fn is_empty(&self) -> (empty: bool)
        ensures
            empty == (self@.len() == 0),
    {
        self.frames.len() == 0
    }

    /// The frame at `index`, if there is one.
    pub fn get(&self, index: usize) -> (found: Option<&TrackingFrame>)
        ensures
            index < self@.len() ==> (found matches Some(frame) && frame@ == self@[index as int]),
            index >= self@.len() ==> found is None,
    {
        if index < self.frames.len() {
            Some(&self.frames[index])
        } else {
            None
        }
    }

    /// The timestamp of the frame at `index`, if there is one.
    pub fn stamp_at(&self, index: usize) -> (found: Option<u64>)
        ensures
            index < self@.len() ==> found == Some(self@[index as int].stamp),
            index >= self@.len() ==> found is None,
    {
        if index < self.frames.len() {
            Some(self.stamp(index))
        } else {
            None
        }
    }

    /// The frame at `index` as the user interface is to see it, if there is
    /// one.
    pub fn payload(&self, index: usize) -> (found: Option<Payload>)
        ensures
            index < self@.len() ==> (found matches Some(payload) && payload.shows(
                self@,
                index as int,
            )),
            index >= self@.len() ==> found is None,
    {
        if index < self.frames.len() {
            Some(self.payload_at(index))
        } else {
            None
        }
    }

    /// The frame at `index`, which is in the store, as the user interface is
    /// to see it.
    pub(crate) fn payload_at(&self, index: usize) -> (payload: Payload)
        requires
            index < self@.len(),
        ensures
            payload.shows(self@, index as int),
    {
        let frame = &self.frames[index];
        Payload {
            filetext: frame.json_str.clone(),
            current_frame: index,
            current_stamp: frame.timestamp,
        }
    }

    /// The timestamp of the frame at `index`, which is in the store.
    pub(crate) fn stamp(&self, index: usize) -> (stamp: u64)
        requires
            index < self@.len(),
        ensures
            stamp == self@[index as int].stamp,
    {
        self.frames[index].timestamp
    }

    /// The load summary; `None` for an empty store.
    pub fn summary(&self) -> (summary: Option<FrameNotifyPayload>)
        ensures
            summary == summary_of(self@),
    {
        let total = self.frames.len();
        if total == 0 {
            None
        } else {
            Some(
                FrameNotifyPayload {
                    current_frame: 0,
                    total_frames: total,
                    begin_timestamp: self.frames[0].timestamp,
                    end_timestamp: self.frames[total - 1].timestamp,
                },
            )
        }
    }

    /// Builds the store from lines whose timestamps were looked up before.
    /// An empty line is passed over; a non-empty line without a timestamp
    /// fails the load.
    pub fn from_stamped(lines: &Vec<(String, Option<u64>)>) -> (r: Result<FrameStore, LoadError>)
        ensures
            loadable(entries_of(lines@)) ==> (r matches Ok(store) && store@ == assembled(
                entries_of(lines@),
            )),
            !loadable(entries_of(lines@)) ==> (r matches Err(e) && e
                == LoadError::MissingTimestamp),
    {
        let ghost entries = entries_of(lines@);
        let mut frames: Vec<TrackingFrame> = Vec::new();
        let mut i: usize = 0;
        while i < lines.len()
            invariant
                0 <= i <= lines.len(),
                entries == entries_of(lines@),
                loadable(entries.take(i as int)),
                Seq::new(frames@.len(), |k: int| frames@[k]@) == assembled(entries.take(i as int)),
            decreases lines.len() - i,
        {
            let ghost done = Seq::new(frames@.len(), |k: int| frames@[k]@);
            proof {
                assert(entries.take(i + 1).drop_last() =~= entries.take(i as int));
                assert(entries.take(i + 1).last() == entries[i as int]);
            }
            if !lines[i].0.as_str().is_empty() {
                let mut frame = TrackingFrame::new(lines[i].0.clone());
                match frame.set_timestamp(lines[i].1) {
                    Ok(()) => {},
                    Err(e) => {
                        assert(!entry_ok(entries[i as int]));
                        return Err(e);
                    },
                }
                frames.push(frame);
                assert(Seq::new(frames@.len(), |k: int| frames@[k]@) =~= done.push(frame@));
            }
            assert forall|k: int| 0 <= k < i + 1 implies entry_ok(
                #[trigger] entries.take(i + 1)[k],
            ) by {
                if k < i {
                    assert(entries.take(i + 1)[k] == entries.take(i as int)[k]);
                }
            }
            i += 1;
        }
        assert(entries.take(i as int) =~= entries);
        Ok(FrameStore { frames })
    }

    /// Builds the store from the lines of a source, looking up the timestamp
    /// of each.
    pub fn load_lines(lines: &Vec<String>) -> (r: Result<FrameStore, LoadError>)
        ensures
            loadable(stamped(lines@)) ==> (r matches Ok(store) && store@ == assembled(
                stamped(lines@),
            )),
            !loadable(stamped(lines@)) ==> (r matches Err(e) && e == LoadError::MissingTimestamp),
    {
        let mut looked_up: Vec<(String, Option<u64>)> = Vec::new();
        let mut i: usize = 0;
        while i < lines.len()
            invariant
                0 <= i <= lines.len(),
                entries_of(looked_up@) == stamped(lines@).take(i as int),
            decreases lines.len() - i,
        {
            let ghost before = entries_of(looked_up@);
            let found = read_stamp(lines[i].as_str());
            looked_up.push((lines[i].clone(), found));
            assert(entries_of(looked_up@) =~= before.push((lines@[i as int]@, found)));
            assert(stamped(lines@).take(i + 1) =~= stamped(lines@).take(i as int).push(
                (lines@[i as int]@, found),
            ));
            i += 1;
        }
        assert(stamped(lines@).take(i as int) =~= stamped(lines@));
        FrameStore::from_stamped(&looked_up)
    }
}

/// A source of valid lines: none is empty and each carries a timestamp.
pub open spec fn all_valid(entries: Seq<Entry>) -> bool {
    forall|i: int|
        0 <= i < entries.len() ==> (#[trigger] entries[i]).0.len() > 0 && entries[i].1 is Some
}

/// Loading N valid lines gives N frames, frame by frame the text and the
/// timestamp of the line at the same place.
pub proof fn lemma_load_keeps_valid_lines(entries: Seq<Entry>)
    requires
        all_valid(entries),
    ensures
        loadable(entries),
        assembled(entries).len() == entries.len(),
        forall|i: int|
            0 <= i < entries.len() ==> #[trigger] assembled(entries)[i] == (FrameModel {
                text: entries[i].0,
                stamp: entries[i].1.unwrap(),
            }),
    decreases entries.len(),
{
    if entries.len() > 0 {
        let front = entries.drop_last();
        assert forall|i: int| 0 <= i < front.len() implies (#[trigger] front[i]).0.len() > 0
            && front[i].1 is Some by {
            assert(front[i] == entries[i]);
        }
        lemma_load_keeps_valid_lines(front);
        assert forall|i: int| 0 <= i < entries.len() implies #[trigger] assembled(entries)[i] == (
        FrameModel { text: entries[i].0, stamp: entries[i].1.unwrap() }) by {
            if i < front.len() {
                assert(front[i] == entries[i]);
                assert(assembled(entries)[i] == assembled(front)[i]);
            }
        }
    }
}

/// The summary of a load of N valid lines, N at least 1, counts N frames and
/// gives the timestamps of the first and of the last line. A load of no line
/// gives an empty store, which has no summary.
pub proof fn lemma_load_summary(entries: Seq<Entry>)
    requires
        all_valid(entries),
        entries.len() <= usize::MAX,
    ensures
        entries.len() == 0 ==> assembled(entries).len() == 0 && summary_of(assembled(entries))
            is None,
        entries.len() > 0 ==> summary_of(assembled(entries)) == Some(
            FrameNotifyPayload {
                current_frame: 0,
                total_frames: entries.len() as usize,
                begin_timestamp: entries[0].1.unwrap(),
                end_timestamp: entries[entries.len() - 1].1.unwrap(),
            },
        ),
{
    lemma_load_keeps_valid_lines(entries);
}

} // verus!
