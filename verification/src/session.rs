//! The session: the frame store, the cursor and the run guard, and the
//! control operations on them.
//!
//! A playback alternates decisions with work that only the caller can do.
//! `begin_play` takes the run guard; `play_next` says which frame goes out
//! next and after how long a wait; the caller waits, notes the time, hands the
//! frame on and reports with `frame_sent`; `end_play` gives the guard back,
//! whether the playback ran to its end or was stopped. A stop is asked for
//! with `stop` and is honoured between two frames: the next `play_next` ends
//! the playback.

use vstd::prelude::*;
use vstd::arithmetic::div_mod::{lemma_mod_add_multiples_vanish, lemma_mod_self_0, lemma_small_mod};
use crate::event::{summary_of, FrameNotifyPayload, Payload};
use crate::frame::{FrameModel, LoadError};
use crate::pacing::{all_broken, baseline, broken, wait_for, wait_micros};
use crate::store::{assembled, loadable, stamped, FrameStore};

verus! {

/// Why a control operation was refused.
#[derive(Clone, Copy, Debug, PartialEq, Eq, Structural)]
pub enum ControlError {
    /// Another control operation holds the run guard.
    Busy,
}

/// The reference of one playback: the timestamp of the first frame played,
/// the timestamp that the next frame is held against, the offset at which the
/// last send began, and the index of the frame to look at next.
#[derive(Clone, Copy, Debug, PartialEq, Eq, Structural)]
pub struct Playback {
    pub timeline_origin: u64,
    pub last_stamp: u64,
    pub last_send: u64,
    pub next: usize,
}

/// What a playback does next.
#[derive(Debug)]
pub enum PlayAction {
    /// The store is exhausted.
    Finished,
    /// A stop was asked for.
    Stopped,
    /// Wait `wait_micros`, then hand `payload` on.
    Emit { wait_micros: u64, payload: Payload },
}

/// The timestamps of `frames`, in order.
pub open spec fn stamps_of(frames: Seq<FrameModel>) -> Seq<u64> {
    Seq::new(frames.len(), |i: int| frames[i].stamp)
}

/// The reference of a playback that begins at frame `start` of `frames`.
pub open spec fn play_start(frames: Seq<FrameModel>, start: usize) -> Playback {
    let first = if start < frames.len() {
        frames[start as int].stamp
    } else {
        0
    };
    Playback { timeline_origin: first, last_stamp: first, last_send: 0, next: start }
}

/// The frame that a step shows, in a store of `len` frames with the cursor at
/// `cursor`.
pub open spec fn step_frame(len: int, cursor: int, forward: bool) -> int
    recommends
        len > 0,
{
    if forward {
        cursor % len
    } else {
        (len + cursor - 2) % len
    }
}

/// The cursor after a step.
pub open spec fn step_cursor(len: int, cursor: int, forward: bool) -> int
    recommends
        len > 0,
{
    if forward {
        (cursor + 1) % len
    } else {
        (len + cursor - 1) % len
    }
}

/// Everything that the control operations share.
#[derive(Debug)]
pub struct Session {
    store: FrameStore,
    cursor: usize,
    running: bool,
    stopping: bool,
}

impl Session {
    /// The frames of the store.
    pub closed spec fn frames(&self) -> Seq<FrameModel> {
        self.store@
    }

    /// The cursor: the index of the next frame to emit.
    pub closed spec fn cursor_index(&self) -> usize {
        self.cursor
    }

    /// The run guard: whether a control operation is running.
    pub closed spec fn is_busy(&self) -> bool {
        self.running
    }

    /// The stop signal: whether the running playback was asked to stop.
    pub closed spec fn is_stopping(&self) -> bool {
        self.stopping
    }

    /// The cursor is an index of the store or stands at its end, and only a
    /// running playback can have been asked to stop.
    #[verifier::type_invariant]
    spec fn well_formed(&self) -> bool {
        &&& self.cursor <= self.store@.len()
        &&& self.stopping ==> self.running
    }

    /// A session with an empty store.
    pub fn new() -> (session: Session)
        ensures
            session.frames() == Seq::<FrameModel>::empty(),
            session.cursor_index() == 0,
            !session.is_busy(),
            !session.is_stopping(),
    {
        Session { store: FrameStore::new(), cursor: 0, running: false, stopping: false }
    }

    /// The frame store.
    pub fn store(&self) -> (store: &FrameStore)
        ensures
            store@ == self.frames(),
    {
        &self.store
    }

    /// The cursor.
    pub fn cursor(&self) -> (cursor: usize)
        ensures
            cursor == self.cursor_index(),
            cursor <= self.frames().len(),
    {
        proof {
            use_type_invariant(self);
        }
        self.cursor
    }

    /// Whether a control operation is running.
    pub fn running(&self) -> (running: bool)
        ensures
            running == self.is_busy(),
    {
        self.running
    }

    /// Whether the running playback was asked to stop.
    pub fn stopping(&self) -> (stopping: bool)
        ensures
            stopping == self.is_stopping(),
            stopping ==> self.is_busy(),
    {
        proof {
            use_type_invariant(self);
        }
        self.stopping
    }

    /// Replaces the store as a whole and puts the cursor at 0. Returns the
    /// summary of the new store.
    pub fn install(&mut self, store: FrameStore) -> (summary: Option<FrameNotifyPayload>)
        ensures
            final(self).frames() == store@,
            final(self).cursor_index() == 0,
            final(self).is_busy() == old(self).is_busy(),
            final(self).is_stopping() == old(self).is_stopping(),
            summary == summary_of(store@),
    {
        proof {
            use_type_invariant(&*self);
        }
        let summary = store.summary();
        self.cursor = 0;
        self.store = store;
        summary
    }

    /// Loads the lines of a source. On success the store is replaced, the
    /// cursor stands at 0 and the summary is returned. One non-empty line
    /// without a timestamp fails the load and leaves the session as it was.
    pub fn load(&mut self, lines: &Vec<String>) -> (r: Result<
        Option<FrameNotifyPayload>,
        LoadError,
    >)
        ensures
            loadable(stamped(lines@)) ==> {
                &&& r == Ok::<Option<FrameNotifyPayload>, LoadError>(
                    summary_of(assembled(stamped(lines@))),
                )
                &&& final(self).frames() == assembled(stamped(lines@))
                &&& final(self).cursor_index() == 0
                &&& final(self).is_busy() == old(self).is_busy()
                &&& final(self).is_stopping() == old(self).is_stopping()
            },
            !loadable(stamped(lines@)) ==> {
                &&& r == Err::<Option<FrameNotifyPayload>, LoadError>(LoadError::MissingTimestamp)
                &&& *final(self) == *old(self)
            },
    {
        match FrameStore::load_lines(lines) {
            Ok(store) => Ok(self.install(store)),
            Err(e) => Err(e),
        }
    }

    /// Puts the cursor at 0.
    pub fn reset(&mut self)
        ensures
            final(self).frames() == old(self).frames(),
            final(self).cursor_index() == 0,
            final(self).is_busy() == old(self).is_busy(),
            final(self).is_stopping() == old(self).is_stopping(),
    {
        proof {
            use_type_invariant(&*self);
        }
        self.cursor = 0;
    }

    /// Begins a playback: takes the run guard, puts the cursor at 0 if
    /// `counter_reset` says so, and returns the reference of the playback,
    /// which starts at the cursor. While the guard is held the request is
    /// refused and nothing changes.
    pub fn begin_play(&mut self, counter_reset: bool) -> (r: Result<Playback, ControlError>)
        ensures
            old(self).is_busy() ==> {
                &&& r == Err::<Playback, ControlError>(ControlError::Busy)
                &&& *final(self) == *old(self)
            },
            !old(self).is_busy() ==> {
                &&& final(self).is_busy()
                &&& !final(self).is_stopping()
                &&& final(self).frames() == old(self).frames()
                &&& final(self).cursor_index() == (if counter_reset {
                    0
                } else {
                    old(self).cursor_index()
                })
                &&& r == Ok::<Playback, ControlError>(
                    play_start(final(self).frames(), final(self).cursor_index()),
                )
            },
    {
        if self.running {
            return Err(ControlError::Busy);
        }
        proof {
            use_type_invariant(&*self);
        }
        self.running = true;
        if counter_reset {
            self.cursor = 0;
        }
        let start = self.cursor;
        let first: u64 = if start < self.store.len() {
            self.store.stamp(start)
        } else {
            0
        };
        Ok(Playback { timeline_origin: first, last_stamp: first, last_send: 0, next: start })
    }

    /// Decides what the playback does next. After a stop was asked for, the
    /// playback is stopped and nothing moves. Otherwise frames that break the
    /// timeline are passed over, the cursor moving past each; the first frame
    /// that does not is returned with its wait, and stays the next frame until
    /// `frame_sent` reports it. At the end of the store the playback is
    /// finished.
    pub fn play_next(&mut self, playback: &mut Playback) -> (action: PlayAction)
        ensures
            final(self).frames() == old(self).frames(),
            final(self).is_busy() == old(self).is_busy(),
            final(self).is_stopping() == old(self).is_stopping(),
            final(playback).timeline_origin == old(playback).timeline_origin,
            final(playback).last_send == old(playback).last_send,
            old(self).is_stopping() ==> {
                &&& action is Stopped
                &&& *final(playback) == *old(playback)
                &&& *final(self) == *old(self)
            },
            !old(self).is_stopping() && old(playback).next >= old(self).frames().len() ==> {
                &&& action is Finished
                &&& *final(playback) == *old(playback)
                &&& *final(self) == *old(self)
            },
            !old(self).is_stopping() && old(playback).next < old(self).frames().len() ==> ({
                let stamps = stamps_of(old(self).frames());
                let start = old(playback).next as int;
                let first = old(playback).last_stamp;
                let found = final(playback).next as int;
                &&& start <= found <= stamps.len()
                &&& all_broken(stamps, start, first, start, found)
                &&& final(playback).last_stamp == baseline(stamps, start, first, found)
                &&& final(self).cursor_index() == (if found > start {
                    found as usize
                } else {
                    old(self).cursor_index()
                })
                &&& old(self).cursor_index() == start ==> final(self).cursor_index() == found
                &&& found == stamps.len() ==> action is Finished
                &&& found < stamps.len() ==> {
                    &&& !broken(stamps, start, first, found)
                    &&& action matches PlayAction::Emit { wait_micros, payload }
                    &&& payload.shows(old(self).frames(), found)
                    &&& wait_micros == wait_for(
                        old(playback).timeline_origin,
                        stamps[found],
                        old(playback).last_send,
                    )
                }
            }),
    {
        if self.stopping {
            return PlayAction::Stopped;
        }
        let ghost stamps = stamps_of(self.frames());
        let ghost start = playback.next as int;
        let ghost first = playback.last_stamp;
        let total = self.store.len();
        while playback.next < total
            invariant
                self.frames() == old(self).frames(),
                self.is_busy() == old(self).is_busy(),
                !self.is_stopping(),
                !old(self).is_stopping(),
                playback.next == start ==> *self == *old(self),
                total == self.frames().len(),
                stamps == stamps_of(self.frames()),
                start == old(playback).next,
                first == old(playback).last_stamp,
                playback.timeline_origin == old(playback).timeline_origin,
                playback.last_send == old(playback).last_send,
                start <= playback.next,
                start < total ==> playback.next <= total,
                start >= total ==> *playback == *old(playback),
                all_broken(stamps, start, first, start, playback.next as int),
                playback.last_stamp == baseline(stamps, start, first, playback.next as int),
                self.cursor_index() == (if playback.next > start {
                    playback.next
                } else {
                    old(self).cursor_index()
                }),
            decreases total - playback.next,
        {
            let index = playback.next;
            let stamp = self.store.stamp(index);
            if stamp < playback.last_stamp {
                proof {
                    use_type_invariant(&*self);
                }
                playback.last_stamp = stamp;
                playback.next = index + 1;
                self.cursor = index + 1;
            } else {
                let wait = wait_micros(playback.timeline_origin, stamp, playback.last_send);
                let payload = self.store.payload_at(index);
                return PlayAction::Emit { wait_micros: wait, payload };
            }
        }
        PlayAction::Finished
    }

    /// Reports that the send of the next frame of the playback began at the
    /// offset `sent_at`: that offset and the frame's timestamp become the
    /// playback's baselines, and the playback and the cursor move past the
    /// frame. At the end of the store nothing changes.
    pub fn frame_sent(&mut self, playback: &mut Playback, sent_at: u64)
        ensures
            final(self).frames() == old(self).frames(),
            final(self).is_busy() == old(self).is_busy(),
            final(self).is_stopping() == old(self).is_stopping(),
            final(playback).timeline_origin == old(playback).timeline_origin,
            old(playback).next >= old(self).frames().len() ==> {
                &&& *final(playback) == *old(playback)
                &&& *final(self) == *old(self)
            },
            old(playback).next < old(self).frames().len() ==> {
                &&& final(playback).next == old(playback).next + 1
                &&& final(playback).last_stamp == old(self).frames()[old(playback).next as int].stamp
                &&& final(playback).last_send == sent_at
                &&& final(self).cursor_index() == old(playback).next + 1
            },
    {
        let index = playback.next;
        if index < self.store.len() {
            proof {
                use_type_invariant(&*self);
            }
            playback.last_stamp = self.store.stamp(index);
            playback.last_send = sent_at;
            playback.next = index + 1;
            self.cursor = index + 1;
        }
    }

    /// Asks the running playback to stop before its next frame. Without a
    /// running playback there is nothing to stop, and nothing changes.
    pub fn stop(&mut self)
        ensures
            final(self).is_stopping() == old(self).is_busy(),
            final(self).is_busy() == old(self).is_busy(),
            final(self).frames() == old(self).frames(),
            final(self).cursor_index() == old(self).cursor_index(),
            !old(self).is_busy() ==> *final(self) == *old(self),
    {
        proof {
            use_type_invariant(&*self);
        }
        if self.running {
            self.stopping = true;
        }
    }

    /// Ends a playback, finished or stopped: gives the run guard back, clears
    /// the stop signal and leaves the cursor where the playback put it.
    pub fn end_play(&mut self)
        ensures
            !final(self).is_busy(),
            !final(self).is_stopping(),
            final(self).frames() == old(self).frames(),
            final(self).cursor_index() == old(self).cursor_index(),
    {
        proof {
            use_type_invariant(&*self);
        }
        self.stopping = false;
        self.running = false;
    }

    /// Shows one frame and moves the cursor by one, forward or backward,
    /// wrapping round both ends of the store. A store of fewer than two
    /// frames is left alone. `counter_reset` is accepted and has no effect.
    /// While the run guard is held the request is refused and nothing changes.
    pub fn step(&mut self, counter_reset: bool, forward: bool) -> (r: Result<
        Option<Payload>,
        ControlError,
    >)
        ensures
            final(self).frames() == old(self).frames(),
            final(self).is_busy() == old(self).is_busy(),
            final(self).is_stopping() == old(self).is_stopping(),
            old(self).is_busy() ==> {
                &&& r matches Err(e)
                &&& e == ControlError::Busy
                &&& *final(self) == *old(self)
            },
            !old(self).is_busy() && old(self).frames().len() < 2 ==> {
                &&& r matches Ok(None)
                &&& *final(self) == *old(self)
            },
            !old(self).is_busy() && old(self).frames().len() >= 2 ==> ({
                let len = old(self).frames().len() as int;
                let cursor = old(self).cursor_index() as int;
                &&& r matches Ok(Some(payload))
                &&& payload.shows(old(self).frames(), step_frame(len, cursor, forward))
                &&& final(self).cursor_index() == step_cursor(len, cursor, forward)
            }),
    {
        if self.running {
            return Err(ControlError::Busy);
        }
        let len = self.store.len();
        if len < 2 {
            return Ok(None);
        }
        proof {
            use_type_invariant(&*self);
        }
        let cursor = self.cursor;
        let index: usize;
        let after: usize;
        if forward {
            index = if cursor == len {
                0
            } else {
                cursor
            };
            after = if index + 1 == len {
                0
            } else {
                index + 1
            };
        } else {
            index = if cursor >= 2 {
                cursor - 2
            } else {
                len - 2 + cursor
            };
            after = if cursor >= 1 {
                cursor - 1
            } else {
                len - 1
            };
        }
        proof {
            lemma_step_wraps(len as int, cursor as int);
        }
        self.cursor = after;
        Ok(Some(self.store.payload_at(index)))
    }

    /// Shows the frame at `index` and puts the cursor behind it, so that a
    /// playback or a step goes on past it. An index outside the store is
    /// passed over in silence. While the run guard is held the request is
    /// refused and nothing changes.
    pub fn seek(&mut self, index: usize) -> (r: Result<Option<Payload>, ControlError>)
        ensures
            final(self).frames() == old(self).frames(),
            final(self).is_busy() == old(self).is_busy(),
            final(self).is_stopping() == old(self).is_stopping(),
            old(self).is_busy() ==> {
                &&& r matches Err(e)
                &&& e == ControlError::Busy
                &&& *final(self) == *old(self)
            },
            !old(self).is_busy() && index >= old(self).frames().len() ==> {
                &&& r matches Ok(None)
                &&& *final(self) == *old(self)
            },
            !old(self).is_busy() && index < old(self).frames().len() ==> {
                &&& r matches Ok(Some(payload))
                &&& payload.shows(old(self).frames(), index as int)
                &&& final(self).cursor_index() == index + 1
            },
    {
        if self.running {
            return Err(ControlError::Busy);
        }
        if index >= self.store.len() {
            return Ok(None);
        }
        proof {
            use_type_invariant(&*self);
        }
        self.cursor = index + 1;
        Ok(Some(self.store.payload_at(index)))
    }
}

/// The closed forms of a step, for a cursor that is an index of the store or
/// stands at its end.
pub proof fn lemma_step_wraps(len: int, cursor: int)
    requires
        len >= 2,
        0 <= cursor <= len,
    ensures
        step_frame(len, cursor, true) == (if cursor == len {
            0
        } else {
            cursor
        }),
        step_cursor(len, cursor, true) == (if cursor + 1 >= len {
            cursor + 1 - len
        } else {
            cursor + 1
        }),
        step_frame(len, cursor, false) == (if cursor >= 2 {
            cursor - 2
        } else {
            len + cursor - 2
        }),
        step_cursor(len, cursor, false) == (if cursor >= 1 {
            cursor - 1
        } else {
            len - 1
        }),
{
    lemma_mod_self_0(len);
    if cursor < len {
        lemma_small_mod(cursor as nat, len as nat);
    }
    if cursor + 1 < len {
        lemma_small_mod((cursor + 1) as nat, len as nat);
    } else {
        lemma_mod_add_multiples_vanish(cursor + 1 - len, len);
        lemma_small_mod((cursor + 1 - len) as nat, len as nat);
    }
    if cursor >= 2 {
        lemma_mod_add_multiples_vanish(cursor - 2, len);
        lemma_small_mod((cursor - 2) as nat, len as nat);
    } else {
        lemma_small_mod((len + cursor - 2) as nat, len as nat);
    }
    if cursor >= 1 {
        lemma_mod_add_multiples_vanish(cursor - 1, len);
        lemma_small_mod((cursor - 1) as nat, len as nat);
    } else {
        lemma_small_mod((len - 1) as nat, len as nat);
    }
}

} // verus!
