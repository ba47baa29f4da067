use vstd::prelude::*;

verus! {

/// The part of a dispatch iteration whose failure ended it.
#[derive(Clone, Copy, Debug, PartialEq, Eq, Structural)]
pub enum Fault {
    /// Handling the buffered protocol messages failed.
    Dispatch,
    /// Writing the queued outgoing messages failed.
    Flush,
    /// Waiting for the socket to become readable failed.
    Wait,
    /// Reading the socket failed otherwise than by would-block.
    Read,
}

/// What the owner of the connection is to do next in one dispatch
/// iteration, or how the iteration ended.
#[derive(Clone, Copy, Debug, PartialEq, Eq, Structural)]
pub enum Stage {
    /// Handle the protocol messages already buffered, without I/O.
    DrainBuffered,
    /// Write the queued outgoing messages.
    Flush,
    /// Announce the intent to read the socket.
    PrepareRead,
    /// Suspend until the socket is readable.
    AwaitReadable,
    /// Read the socket without blocking.
    Read,
    /// Handle the messages that the read brought in.
    DrainRead,
    /// The iteration is over; this many messages were handled.
    Finished(usize),
    /// The iteration failed; the connection is lost.
    Aborted(Fault),
}

/// How a non-blocking read of the socket went.
#[derive(Clone, Copy, Debug, PartialEq, Eq, Structural)]
pub enum ReadResult {
    /// This many bytes were read.
    Bytes(usize),
    /// Nothing could be read yet: readiness was only a hint.
    WouldBlock,
    /// Any other failure.
    Failed,
}

/// What came of doing what a stage asked.
#[derive(Clone, Copy, Debug, PartialEq, Eq, Structural)]
pub enum Event {
    /// This many buffered messages were handled.
    Drained(usize),
    /// The outgoing messages were written.
    Flushed,
    /// The intent to read was announced: `true` when a read is to follow,
    /// `false` when the protocol layer already holds fresh messages.
    ReadPrepared(bool),
    /// The socket became readable.
    Readable,
    /// The read was done.
    ReadDone(ReadResult),
    /// What the stage asked failed.
    Failed,
}

/// The first stage of every dispatch iteration.
pub open spec fn first_stage() -> Stage {
    Stage::DrainBuffered
}

/// Whether the iteration is over.
pub open spec fn is_final(s: Stage) -> bool {
    s is Finished || s is Aborted
}

/// The stage that follows `s` once `e` came of it. An event that does not
/// answer the stage leaves it as it is.
pub open spec fn next_stage(s: Stage, e: Event) -> Stage {
    match (s, e) {
        (Stage::DrainBuffered, Event::Drained(n)) => if n > 0 {
            Stage::Finished(n)
        } else {
            Stage::Flush
        },
        (Stage::DrainBuffered, Event::Failed) => Stage::Aborted(Fault::Dispatch),
        (Stage::Flush, Event::Flushed) => Stage::PrepareRead,
        (Stage::Flush, Event::Failed) => Stage::Aborted(Fault::Flush),
        (Stage::PrepareRead, Event::ReadPrepared(true)) => Stage::AwaitReadable,
        (Stage::PrepareRead, Event::ReadPrepared(false)) => Stage::DrainRead,
        (Stage::AwaitReadable, Event::Readable) => Stage::Read,
        (Stage::AwaitReadable, Event::Failed) => Stage::Aborted(Fault::Wait),
        (Stage::Read, Event::ReadDone(ReadResult::Failed)) => Stage::Aborted(Fault::Read),
        (Stage::Read, Event::ReadDone(_)) => Stage::DrainRead,
        (Stage::Read, Event::Failed) => Stage::Aborted(Fault::Read),
        (Stage::DrainRead, Event::Drained(n)) => Stage::Finished(n),
        (Stage::DrainRead, Event::Failed) => Stage::Aborted(Fault::Dispatch),
        _ => s,
    }
}

/// The first stage of a dispatch iteration.
pub fn start() -> (r: Stage)
    ensures
        r == first_stage(),
{
    Stage::DrainBuffered
}

/// Whether the iteration is over.
pub fn is_done(s: Stage) -> (r: bool)
    ensures
        r == is_final(s),
{
    match s {
        Stage::Finished(_) | Stage::Aborted(_) => true,
        _ => false,
    }
}

/// The stage that follows `s` once `e` came of it.
pub fn advance(s: Stage, e: Event) -> (r: Stage)
    ensures
        r == next_stage(s, e),
{
    match s {
        Stage::DrainBuffered => match e {
            Event::Drained(n) => if n > 0 {
                Stage::Finished(n)
            } else {
                Stage::Flush
            },
            Event::Failed => Stage::Aborted(Fault::Dispatch),
            _ => s,
        },
        Stage::Flush => match e {
            Event::Flushed => Stage::PrepareRead,
            Event::Failed => Stage::Aborted(Fault::Flush),
            _ => s,
        },
        Stage::PrepareRead => match e {
            Event::ReadPrepared(ready) => if ready {
                Stage::AwaitReadable
            } else {
                Stage::DrainRead
            },
            _ => s,
        },
        Stage::AwaitReadable => match e {
            Event::Readable => Stage::Read,
            Event::Failed => Stage::Aborted(Fault::Wait),
            _ => s,
        },
        Stage::Read => match e {
            Event::ReadDone(ReadResult::Failed) | Event::Failed => Stage::Aborted(Fault::Read),
            Event::ReadDone(_) => Stage::DrainRead,
            _ => s,
        },
        Stage::DrainRead => match e {
            Event::Drained(n) => Stage::Finished(n),
            Event::Failed => Stage::Aborted(Fault::Dispatch),
            _ => s,
        },
        _ => s,
    }
}

/// A read that would block is no failure: the iteration goes on to handle
/// what is buffered and ends with what that handled.
pub proof fn lemma_would_block_tolerated(n: usize)
    ensures
        next_stage(Stage::Read, Event::ReadDone(ReadResult::WouldBlock)) == Stage::DrainRead,
        next_stage(
            next_stage(Stage::Read, Event::ReadDone(ReadResult::WouldBlock)),
            Event::Drained(n),
        ) == Stage::Finished(n),
{
}

/// Buffered messages end the iteration before any I/O.
pub proof fn lemma_buffered_first(n: usize)
    requires
        n > 0,
    ensures
        next_stage(first_stage(), Event::Drained(n)) == Stage::Finished(n),
{
}

/// An iteration that is over stays over.
pub proof fn lemma_final_stays(s: Stage, e: Event)
    requires
        is_final(s),
    ensures
        next_stage(s, e) == s,
{
}

} // verus!
