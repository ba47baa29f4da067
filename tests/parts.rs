use mpclipboard_linux::buffer::Buffer;
use mpclipboard_linux::dedup::Dedup;
use mpclipboard_linux::discovery::{classify, same_text, Capability};
use mpclipboard_linux::dispatch::{advance, is_done, start, Event, Fault, ReadResult, Stage};
use mpclipboard_linux::reader::{
    read_text, wants, ClipboardReader, Fetched, LocalClipboard, PasteFailure, ReadError,
};
use mpclipboard_linux::text::{contains_nul, decode_text, DecodeError};
use mpclipboard_linux::timer::{gcd2, lcm2, Timer, TimerBased, TimerError};
use std::ops::ControlFlow;

#[test]
fn decode_exact_values() {
    assert_eq!(decode_text(b"abc".to_vec()), Ok("abc".to_string()));
    assert_eq!(decode_text(vec![0xc3, 0xa9]), Ok("é".to_string()));
    assert_eq!(decode_text(vec![]), Ok(String::new()));
    assert_eq!(decode_text(vec![0xc3]), Err(DecodeError::InvalidUtf8));
    assert_eq!(decode_text(vec![0xed, 0xa0, 0x80]), Err(DecodeError::InvalidUtf8));
    assert_eq!(decode_text(b"a\0".to_vec()), Err(DecodeError::ContainsNul));
}

#[test]
fn nul_search() {
    assert!(contains_nul(&[1, 2, 0]));
    assert!(!contains_nul(&[1, 2, 3]));
    assert!(!contains_nul(&[]));
}

#[test]
fn dedup_against_last_only() {
    let mut d = Dedup::new();
    assert_eq!(d.offer("a".to_string()), Some("a".to_string()));
    assert_eq!(d.offer("a".to_string()), None);
    assert_eq!(d.offer("b".to_string()), Some("b".to_string()));
    assert_eq!(d.offer("a".to_string()), Some("a".to_string()));
    assert!(d.is_repeat(&"a".to_string()));
}

#[test]
fn text_comparison() {
    assert!(same_text("wl_seat", "wl_seat"));
    assert!(!same_text("wl_seat", "wl_seaT"));
    assert!(same_text("", ""));
    assert!(same_text("é", "é"));
    assert!(!same_text("é", "e"));
    assert_eq!(classify("wl_seat"), Some(Capability::Seat));
    assert_eq!(
        classify("zwlr_data_control_manager_v1"),
        Some(Capability::DataControlManager)
    );
    assert_eq!(classify("wl_output"), None);
}

#[test]
fn dispatch_buffered_messages_end_iteration() {
    let s = start();
    assert_eq!(s, Stage::DrainBuffered);
    let s = advance(s, Event::Drained(3));
    assert_eq!(s, Stage::Finished(3));
    assert!(is_done(s));
}

#[test]
fn dispatch_full_iteration() {
    let mut s = start();
    for e in [
        Event::Drained(0),
        Event::Flushed,
        Event::ReadPrepared(true),
        Event::Readable,
        Event::ReadDone(ReadResult::Bytes(64)),
        Event::Drained(2),
    ] {
        assert!(!is_done(s));
        s = advance(s, e);
    }
    assert_eq!(s, Stage::Finished(2));
}

#[test]
fn dispatch_would_block_is_tolerated() {
    let s = advance(Stage::Read, Event::ReadDone(ReadResult::WouldBlock));
    assert_eq!(s, Stage::DrainRead);
    assert_eq!(advance(s, Event::Drained(0)), Stage::Finished(0));
}

#[test]
fn dispatch_no_guard_skips_the_wait() {
    assert_eq!(advance(Stage::PrepareRead, Event::ReadPrepared(false)), Stage::DrainRead);
}

#[test]
fn dispatch_failures() {
    assert_eq!(advance(Stage::DrainBuffered, Event::Failed), Stage::Aborted(Fault::Dispatch));
    assert_eq!(advance(Stage::Flush, Event::Failed), Stage::Aborted(Fault::Flush));
    assert_eq!(advance(Stage::AwaitReadable, Event::Failed), Stage::Aborted(Fault::Wait));
    assert_eq!(
        advance(Stage::Read, Event::ReadDone(ReadResult::Failed)),
        Stage::Aborted(Fault::Read)
    );
    assert_eq!(advance(Stage::DrainRead, Event::Failed), Stage::Aborted(Fault::Dispatch));
    let done = Stage::Aborted(Fault::Flush);
    assert_eq!(advance(done, Event::Drained(1)), done);
    assert_eq!(advance(Stage::Flush, Event::Readable), Stage::Flush);
}

#[test]
fn buffer_keeps_last_items() {
    let mut b: Buffer<3, u32> = Buffer::new();
    for i in 1..=5 {
        b.push(i);
    }
    assert_eq!(b.len(), 3);
    assert_eq!(b.iter().copied().collect::<Vec<_>>(), vec![3, 4, 5]);
}

#[test]
fn buffer_of_zero_keeps_nothing() {
    let mut b: Buffer<0, u32> = Buffer::new();
    b.push(1);
    assert_eq!(b.len(), 0);
}

#[test]
fn mime_types_that_are_text() {
    assert!(wants("text/plain"));
    assert!(wants("text/plain;charset=utf-8"));
    assert!(wants("UTF8_STRING"));
    assert!(wants("TEXT"));
    assert!(wants("STRING"));
    assert!(wants("application/json"));
    assert!(wants("application/javascript"));
    assert!(wants("application/xml"));
    assert!(wants("image/svg+xml"));
    assert!(wants("text/csv"));
    assert!(!wants("image/png"));
    assert!(!wants("application/octet-stream"));
    assert!(!wants("string"));
}

fn offered(mime: &str, bytes: &[u8]) -> Fetched {
    Fetched::Offered { mime: mime.to_string(), bytes: Some(bytes.to_vec()) }
}

#[test]
fn read_text_outcomes() {
    assert_eq!(read_text(Fetched::Failed(PasteFailure::NoSeats)), Ok(None));
    assert_eq!(read_text(Fetched::Failed(PasteFailure::ClipboardEmpty)), Ok(None));
    assert_eq!(read_text(Fetched::Failed(PasteFailure::NoMimeType)), Ok(None));
    assert_eq!(read_text(Fetched::Failed(PasteFailure::Other)), Err(ReadError::Paste));
    assert_eq!(read_text(offered("image/png", b"abc")), Ok(None));
    assert_eq!(
        read_text(Fetched::Offered { mime: "text/plain".to_string(), bytes: None }),
        Err(ReadError::Read)
    );
    assert_eq!(read_text(offered("text/plain", &[0xff])), Err(ReadError::InvalidUtf8));
    assert_eq!(read_text(offered("text/plain", b"a\0b")), Ok(None));
    assert_eq!(read_text(offered("text/plain", b"hi")), Ok(Some("hi".to_string())));
}

#[test]
fn clipboard_reader_dedups() {
    let mut r = ClipboardReader::new();
    assert_eq!(r.read(offered("text/plain", b"x")), Some("x".to_string()));
    assert_eq!(r.read(offered("text/plain", b"x")), None);
    assert_eq!(r.read(Fetched::Failed(PasteFailure::ClipboardEmpty)), None);
    assert_eq!(r.read(offered("text/plain", b"x")), None);
    assert_eq!(r.read(offered("image/png", b"y")), None);
    assert_eq!(r.read(offered("text/plain", b"y")), Some("y".to_string()));
}

#[test]
fn local_clipboard_dedups() {
    let mut c = LocalClipboard::new();
    assert_eq!(c.read(offered("UTF8_STRING", b"p")), Some("p".to_string()));
    assert_eq!(c.read(offered("UTF8_STRING", b"p")), None);
    assert_eq!(c.read(offered("UTF8_STRING", b"q")), Some("q".to_string()));
}

#[test]
fn gcd_and_lcm() {
    assert_eq!(gcd2(12, 18), 6);
    assert_eq!(gcd2(7, 0), 7);
    assert_eq!(lcm2(4, 6), Some(12));
    assert_eq!(lcm2(1, 1), Some(1));
    assert_eq!(lcm2(u64::MAX, u64::MAX - 1), None);
}

struct Counter {
    runs: u32,
    stop_at: u32,
}

impl TimerBased for Counter {
    fn work(&mut self) -> ControlFlow<()> {
        self.runs += 1;
        if self.runs == self.stop_at {
            ControlFlow::Break(())
        } else {
            ControlFlow::Continue(())
        }
    }
}

#[test]
fn timer_needs_a_schedule() {
    let mut t: Timer<Counter> = Timer::new(10);
    assert_eq!(t.start(), Err(TimerError::Empty));
}

#[test]
fn timer_runs_by_period_until_break() {
    let mut t: Timer<Counter> = Timer::new(100);
    t.add(200, Counter { runs: 0, stop_at: 1000 });
    t.add(350, Counter { runs: 0, stop_at: 2 });
    assert_eq!(t.quantum_ms(), 100);
    assert_eq!(t.start(), Ok(()));
    // periods 2 and 3 ticks; both run at tick 0, the second breaks at tick 3
    assert_eq!(t.tick(), ControlFlow::Continue(()));
    assert_eq!(t.tick(), ControlFlow::Continue(()));
    assert_eq!(t.tick(), ControlFlow::Continue(()));
    assert_eq!(t.tick(), ControlFlow::Break(()));
}

#[test]
fn timer_overflowing_leap() {
    let mut t: Timer<Counter> = Timer::new(1);
    t.add(u64::MAX, Counter { runs: 0, stop_at: 1 });
    t.add(u64::MAX - 1, Counter { runs: 0, stop_at: 1 });
    assert_eq!(t.start(), Err(TimerError::Overflow));
}
