use vstd::prelude::*;

use crate::dedup::Dedup;
use crate::text::{decode_spec, decode_text, DecodeError};

verus! {

/// Where the current selection cycle stands.
#[derive(Clone, Copy, Debug, PartialEq, Eq, Structural)]
pub enum Phase {
    /// No pending offer.
    Idle,
    /// An offer was announced but not yet made the selection.
    OfferAnnounced,
    /// The selection was set and its pipe waits to be read.
    SelectionSet,
    /// The pipe was handed out and its bytes are being read.
    Draining,
}

/// The state of a watcher as mathematical values; `P` is the read end of a pipe.
pub struct WatcherView<P> {
    /// The pipe that the current selection is delivered into, not yet read.
    pub pending: Option<P>,
    /// A pipe was handed out and its bytes are not yet handled.
    pub draining: bool,
    /// An offer was announced since the last selection change.
    pub announced: bool,
    /// The last text emitted.
    pub last: Option<Seq<char>>,
    /// The watcher was stopped.
    pub stopped: bool,
}

/// What becomes of the bytes read from a pipe, as mathematical values.
pub enum Verdict {
    /// New text, emitted.
    Emit(Seq<char>),
    /// The last text again, suppressed.
    Repeated,
    /// No bytes.
    Empty,
    /// No text.
    Rejected(DecodeError),
    /// The watcher no longer emits.
    Stopped,
}

/// What became of the bytes read from a pipe.
#[derive(Debug, PartialEq, Eq)]
pub enum Outcome {
    /// New text, to be handed to the consumer.
    Emitted(String),
    /// The same text as the last one emitted: suppressed.
    Repeated,
    /// The pipe held no bytes.
    Empty,
    /// The bytes were no text.
    Rejected(DecodeError),
    /// The watcher was stopped: nothing is emitted any more.
    Stopped,
}

impl View for Outcome {
    type V = Verdict;

    open spec fn view(&self) -> Verdict {
        match self {
            Outcome::Emitted(s) => Verdict::Emit(s@),
            Outcome::Repeated => Verdict::Repeated,
            Outcome::Empty => Verdict::Empty,
            Outcome::Rejected(e) => Verdict::Rejected(*e),
            Outcome::Stopped => Verdict::Stopped,
        }
    }
}

impl<P> WatcherView<P> {
    pub open spec fn phase(self) -> Phase {
        if self.pending.is_some() {
            Phase::SelectionSet
        } else if self.draining {
            Phase::Draining
        } else if self.announced {
            Phase::OfferAnnounced
        } else {
            Phase::Idle
        }
    }

    /// A new offer was announced.
    pub open spec fn offered(self) -> Self {
        if self.stopped {
            self
        } else {
            WatcherView { announced: true, ..self }
        }
    }

    /// The selection was set and `pipe` receives its bytes; an earlier
    /// pending pipe is dropped.
    pub open spec fn selection_set(self, pipe: P) -> Self {
        if self.stopped {
            self
        } else {
            WatcherView { pending: Some(pipe), announced: false, ..self }
        }
    }

    /// The selection was cleared; a pending pipe is dropped.
    pub open spec fn selection_cleared(self) -> Self {
        if self.stopped {
            self
        } else {
            WatcherView { pending: None, announced: false, ..self }
        }
    }

    /// The pending pipe, if any, was handed out to be read.
    pub open spec fn taken(self) -> Self {
        if self.pending.is_some() {
            WatcherView { pending: None, draining: true, ..self }
        } else {
            self
        }
    }

    /// What the bytes read from a pipe come to.
    pub open spec fn verdict(self, bytes: Seq<u8>) -> Verdict {
        if self.stopped {
            Verdict::Stopped
        } else if bytes.len() == 0 {
            Verdict::Empty
        } else {
            match decode_spec(bytes) {
                Err(e) => Verdict::Rejected(e),
                Ok(t) => if self.last == Some(t) {
                    Verdict::Repeated
                } else {
                    Verdict::Emit(t)
                },
            }
        }
    }

    /// The state once the bytes read from a pipe were handled.
    pub open spec fn delivered(self, bytes: Seq<u8>) -> Self {
        match self.verdict(bytes) {
            Verdict::Emit(t) => WatcherView { draining: false, last: Some(t), ..self },
            _ => WatcherView { draining: false, ..self },
        }
    }

    /// The state once reading a pipe failed.
    pub open spec fn read_failed(self) -> Self {
        WatcherView { draining: false, ..self }
    }

    /// The state once the watcher was stopped.
    pub open spec fn halted(self) -> Self {
        WatcherView { pending: None, draining: false, announced: false, stopped: true, ..self }
    }
}

/// The selection watcher: follows the compositor's selection changes, keeps
/// the one pipe that the newest selection is delivered into, and turns the
/// bytes read from it into text that is emitted once.
pub struct Watcher<P> {
    pending: Option<P>,
    draining: bool,
    announced: bool,
    dedup: Dedup,
    stopped: bool,
}

impl<P> View for Watcher<P> {
    type V = WatcherView<P>;

    closed spec fn view(&self) -> WatcherView<P> {
        WatcherView {
            pending: self.pending,
            draining: self.draining,
            announced: self.announced,
            last: self.dedup@,
            stopped: self.stopped,
        }
    }
}

/// The MIME type that selections are requested in.
pub fn text_mime() -> (r: &'static str)
    ensures
        r@ == "text/plain;charset=utf-8"@,
{
    "text/plain;charset=utf-8"
}

impl<P> Watcher<P> {
    /// A running watcher with no pending offer and nothing emitted.
    pub fn new() -> (r: Watcher<P>)
        ensures
            r@ == (WatcherView::<P> {
                pending: None,
                draining: false,
                announced: false,
                last: None,
                stopped: false,
            }),
    {
        Watcher { pending: None, draining: false, announced: false, dedup: Dedup::new(), stopped: false }
    }

    pub fn phase(&self) -> (r: Phase)
        ensures
            r == self@.phase(),
    {
        if self.pending.is_some() {
            Phase::SelectionSet
        } else if self.draining {
            Phase::Draining
        } else if self.announced {
            Phase::OfferAnnounced
        } else {
            Phase::Idle
        }
    }

    pub fn is_stopped(&self) -> (r: bool)
        ensures
            r == self@.stopped,
    {
        self.stopped
    }

    pub fn has_pending(&self) -> (r: bool)
        ensures
            r == self@.pending.is_some(),
    {
        self.pending.is_some()
    }

    /// The compositor announced a new offer.
    pub fn on_data_offer(&mut self)
        ensures
            final(self)@ == old(self)@.offered(),
    {
        if !self.stopped {
            self.announced = true;
        }
    }

    /// The compositor made an offer the selection and delivers its bytes
    /// into the pipe whose read end is `pipe`.
    pub fn on_selection_set(&mut self, pipe: P)
        ensures
            final(self)@ == old(self)@.selection_set(pipe),
    {
        if !self.stopped {
            self.pending = Some(pipe);
            self.announced = false;
        }
    }

    /// The compositor cleared the selection.
    pub fn on_selection_cleared(&mut self)
        ensures
            final(self)@ == old(self)@.selection_cleared(),
    {
        if !self.stopped {
            self.pending = None;
            self.announced = false;
        }
    }

    /// Hands out the pending pipe to be read to its end.
    pub fn take_pending(&mut self) -> (r: Option<P>)
        ensures
            r == old(self)@.pending,
            final(self)@ == old(self)@.taken(),
    {
        let r = self.pending.take();
        if r.is_some() {
            self.draining = true;
        }
        r
    }

    /// Handles the bytes read from a pipe: emits them as text when they are
    /// text and differ from the last text emitted.
    pub fn on_delivered(&mut self, bytes: Vec<u8>) -> (r: Outcome)
        ensures
            r@ == old(self)@.verdict(bytes@),
            final(self)@ == old(self)@.delivered(bytes@),
    {
        self.draining = false;
        if self.stopped {
            return Outcome::Stopped;
        }
        if bytes.len() == 0 {
            return Outcome::Empty;
        }
        match decode_text(bytes) {
            Err(e) => Outcome::Rejected(e),
            Ok(t) => match self.dedup.offer(t) {
                Some(t) => Outcome::Emitted(t),
                None => Outcome::Repeated,
            },
        }
    }

    /// Reading a pipe failed: its content is given up.
    pub fn on_read_failed(&mut self)
        ensures
            final(self)@ == old(self)@.read_failed(),
    {
        self.draining = false;
    }

    /// Stops the watcher: a pending pipe is dropped and nothing is emitted
    /// any more.
    pub fn stop(&mut self)
        ensures
            final(self)@ == old(self)@.halted(),
    {
        self.pending = None;
        self.draining = false;
        self.announced = false;
        self.stopped = true;
    }
}

} // verus!
