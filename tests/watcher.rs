use mpclipboard_linux::discovery::{Capability, Discovery, MissingCapability};
use mpclipboard_linux::text::DecodeError;
use mpclipboard_linux::watcher::{text_mime, Outcome, Phase, Watcher};

fn cycle(w: &mut Watcher<u32>, pipe: u32, bytes: &[u8]) -> Outcome {
    w.on_data_offer();
    w.on_selection_set(pipe);
    assert_eq!(w.take_pending(), Some(pipe));
    w.on_delivered(bytes.to_vec())
}

#[test]
fn end_to_end_scenario() {
    let mut d = Discovery::new();
    assert_eq!(d.on_global(1, "wl_compositor", 4), None);
    assert_eq!(d.finish(), Err(MissingCapability::Seat));

    let mut d = Discovery::new();
    assert_eq!(d.on_global(2, "wl_seat", 7), Some(Capability::Seat));
    assert_eq!(
        d.on_global(3, "zwlr_data_control_manager_v1", 2),
        Some(Capability::DataControlManager)
    );
    let caps = d.finish().unwrap();
    assert_eq!(caps.seat.name, 2);
    assert_eq!(caps.seat.version, 7);
    assert_eq!(caps.manager.name, 3);
    assert!(!d.seat_named());
    d.on_seat_name();
    assert!(d.seat_named());

    let mut w: Watcher<u32> = Watcher::new();
    assert_eq!(cycle(&mut w, 1, b"hello"), Outcome::Emitted("hello".to_string()));
    assert_eq!(cycle(&mut w, 2, b"hello"), Outcome::Repeated);
    assert_eq!(cycle(&mut w, 3, b"world"), Outcome::Emitted("world".to_string()));
}

#[test]
fn missing_manager_fails_discovery() {
    let mut d = Discovery::new();
    d.on_global(5, "wl_seat", 8);
    assert_eq!(d.finish(), Err(MissingCapability::DataControlManager));
}

#[test]
fn later_seat_replaces_earlier() {
    let mut d = Discovery::new();
    d.on_global(5, "wl_seat", 8);
    d.on_global(9, "zwlr_data_control_manager_v1", 1);
    d.on_global(6, "wl_seat", 9);
    assert_eq!(d.finish().unwrap().seat.name, 6);
}

#[test]
fn interface_names_must_match_exactly() {
    let mut d = Discovery::new();
    assert_eq!(d.on_global(1, "wl_seat_", 1), None);
    assert_eq!(d.on_global(2, "wl_sea", 1), None);
    assert_eq!(d.on_global(3, "zwlr_data_control_manager_v2", 1), None);
    assert_eq!(d.on_global(4, "", 1), None);
    assert_eq!(d.finish(), Err(MissingCapability::Seat));
}

#[test]
fn identical_cycles_emit_once() {
    let mut w: Watcher<u32> = Watcher::new();
    assert_eq!(cycle(&mut w, 1, b"same"), Outcome::Emitted("same".to_string()));
    assert_eq!(cycle(&mut w, 2, b"same"), Outcome::Repeated);
}

#[test]
fn repeated_text_after_divergence_is_novel() {
    let mut w: Watcher<u32> = Watcher::new();
    assert_eq!(cycle(&mut w, 1, b"one"), Outcome::Emitted("one".to_string()));
    assert_eq!(cycle(&mut w, 2, b"two"), Outcome::Emitted("two".to_string()));
    assert_eq!(cycle(&mut w, 3, b"one"), Outcome::Emitted("one".to_string()));
}

#[test]
fn superseded_offer_is_dropped() {
    let mut w: Watcher<u32> = Watcher::new();
    w.on_selection_set(10);
    w.on_selection_set(20);
    assert_eq!(w.take_pending(), Some(20));
    assert_eq!(w.take_pending(), None);
    assert_eq!(w.on_delivered(b"second".to_vec()), Outcome::Emitted("second".to_string()));
}

#[test]
fn nul_is_never_emitted() {
    let mut w: Watcher<u32> = Watcher::new();
    assert_eq!(
        cycle(&mut w, 1, b"valid\0text"),
        Outcome::Rejected(DecodeError::ContainsNul)
    );
    assert_eq!(cycle(&mut w, 2, b"\0"), Outcome::Rejected(DecodeError::ContainsNul));
    assert!(!w.is_stopped());
}

#[test]
fn invalid_utf8_then_valid_cycle_emits() {
    let mut w: Watcher<u32> = Watcher::new();
    assert_eq!(
        cycle(&mut w, 1, &[0x68, 0xff, 0x69]),
        Outcome::Rejected(DecodeError::InvalidUtf8)
    );
    assert!(!w.is_stopped());
    assert_eq!(cycle(&mut w, 2, b"fine"), Outcome::Emitted("fine".to_string()));
}

#[test]
fn invalid_utf8_is_reported_before_nul() {
    let mut w: Watcher<u32> = Watcher::new();
    assert_eq!(cycle(&mut w, 1, &[0xff, 0x00]), Outcome::Rejected(DecodeError::InvalidUtf8));
}

#[test]
fn cancellation_drops_pending_and_silences() {
    let mut w: Watcher<u32> = Watcher::new();
    w.on_selection_set(7);
    assert!(w.has_pending());
    w.stop();
    assert!(w.is_stopped());
    assert!(!w.has_pending());
    assert_eq!(w.phase(), Phase::Idle);
    w.on_selection_set(8);
    assert_eq!(w.take_pending(), None);
    assert_eq!(w.on_delivered(b"late".to_vec()), Outcome::Stopped);
}

#[test]
fn empty_pipe_emits_nothing() {
    let mut w: Watcher<u32> = Watcher::new();
    assert_eq!(cycle(&mut w, 1, b""), Outcome::Empty);
    assert_eq!(cycle(&mut w, 2, b"x"), Outcome::Emitted("x".to_string()));
}

#[test]
fn cleared_selection_is_idle() {
    let mut w: Watcher<u32> = Watcher::new();
    w.on_selection_set(1);
    w.on_selection_cleared();
    assert_eq!(w.phase(), Phase::Idle);
    assert_eq!(w.take_pending(), None);
}

#[test]
fn phases_of_a_cycle() {
    let mut w: Watcher<u32> = Watcher::new();
    assert_eq!(w.phase(), Phase::Idle);
    w.on_data_offer();
    assert_eq!(w.phase(), Phase::OfferAnnounced);
    w.on_selection_set(4);
    assert_eq!(w.phase(), Phase::SelectionSet);
    assert_eq!(w.take_pending(), Some(4));
    assert_eq!(w.phase(), Phase::Draining);
    w.on_read_failed();
    assert_eq!(w.phase(), Phase::Idle);
}

#[test]
fn read_failure_keeps_last_text() {
    let mut w: Watcher<u32> = Watcher::new();
    assert_eq!(cycle(&mut w, 1, b"kept"), Outcome::Emitted("kept".to_string()));
    w.on_selection_set(2);
    w.take_pending();
    w.on_read_failed();
    assert_eq!(cycle(&mut w, 3, b"kept"), Outcome::Repeated);
}

#[test]
fn multibyte_text_is_emitted() {
    let mut w: Watcher<u32> = Watcher::new();
    assert_eq!(
        cycle(&mut w, 1, "héllo wörld ✓".as_bytes()),
        Outcome::Emitted("héllo wörld ✓".to_string())
    );
}

#[test]
fn requested_mime_is_plain_utf8_text() {
    assert_eq!(text_mime(), "text/plain;charset=utf-8");
}

#[test]
fn emissions_never_repeat_back_to_back() {
    let mut w: Watcher<u32> = Watcher::new();
    let mut emitted = vec![];
    for (pipe, text) in [b"a", b"a", b"b", b"b", b"a"].iter().enumerate() {
        if let Outcome::Emitted(t) = cycle(&mut w, pipe as u32, *text) {
            emitted.push(t);
        }
    }
    assert_eq!(emitted, vec!["a".to_string(), "b".to_string(), "a".to_string()]);
}
