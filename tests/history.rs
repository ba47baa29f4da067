use mpclipboard_linux::history::{Line, MPClipboardEvent, TrayEvent};

#[test]
fn line_labels() {
    assert_eq!(Line::Received("abc".to_string()).label(), "R abc");
    assert_eq!(Line::Sent("x y".to_string()).label(), "S x y");
    assert_eq!(Line::Sent(String::new()).label(), "S ");
}

#[test]
fn tray_event_labels() {
    assert_eq!(TrayEvent::PushedFromLocal("up".to_string()).label(), "-> up");
    assert_eq!(TrayEvent::ReceivedFromServer("down".to_string()).label(), "<- down");
}

#[test]
fn sync_event_from_parts() {
    assert_eq!(MPClipboardEvent::from_parts(None, None), None);
    assert_eq!(
        MPClipboardEvent::from_parts(Some("t".to_string()), None),
        Some(MPClipboardEvent { text: Some("t".to_string()), connectivity: None })
    );
    assert_eq!(
        MPClipboardEvent::from_parts(None, Some(true)),
        Some(MPClipboardEvent { text: None, connectivity: Some(true) })
    );
}
