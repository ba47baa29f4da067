use vstd::prelude::*;

use vstd::string::StringExecFns;

verus! {

/// One line of the history shown in the tray.
#[derive(Debug, PartialEq, Eq)]
pub enum Line {
    /// Text that came from the remote peer.
    Received(String),
    /// Text that was sent to the remote peer.
    Sent(String),
}

/// What the tray shows for a line: `R` or `S`, a space, then the text.
pub open spec fn line_label(l: Line) -> Seq<char> {
    match l {
        Line::Received(t) => "R "@ + t@,
        Line::Sent(t) => "S "@ + t@,
    }
}

impl Line {
    /// The label of this line in the tray's menu.
    pub fn label(&self) -> (r: String)
        ensures
            r@ == line_label(*self),
    {
        match self {
            Line::Received(t) => String::from_str("R ").concat(t.as_str()),
            Line::Sent(t) => String::from_str("S ").concat(t.as_str()),
        }
    }
}

/// A clipboard event shown in the tray.
#[derive(Debug, PartialEq, Eq)]
pub enum TrayEvent {
    /// Text copied locally and pushed to the peer.
    PushedFromLocal(String),
    /// Text that the server delivered.
    ReceivedFromServer(String),
}

/// What the tray shows for an event: an arrow out or in, a space, then the text.
pub open spec fn event_label(e: TrayEvent) -> Seq<char> {
    match e {
        TrayEvent::PushedFromLocal(t) => "-> "@ + t@,
        TrayEvent::ReceivedFromServer(t) => "<- "@ + t@,
    }
}

impl TrayEvent {
    /// The label of this event in the tray's menu.
    pub fn label(&self) -> (r: String)
        ensures
            r@ == event_label(*self),
    {
        match self {
            TrayEvent::PushedFromLocal(t) => String::from_str("-> ").concat(t.as_str()),
            TrayEvent::ReceivedFromServer(t) => String::from_str("<- ").concat(t.as_str()),
        }
    }
}

/// What the sync engine reported in one poll: new text, a change of
/// connectivity, or both.
#[derive(Debug, PartialEq, Eq)]
pub struct MPClipboardEvent {
    pub text: Option<String>,
    pub connectivity: Option<bool>,
}

impl MPClipboardEvent {
    /// An event from what a poll gave; `None` when it gave nothing.
    pub fn from_parts(text: Option<String>, connectivity: Option<bool>) -> (r: Option<Self>)
        ensures
            (text.is_none() && connectivity.is_none()) <==> r.is_none(),
            r matches Some(e) ==> e.text == text && e.connectivity == connectivity,
    {
        if text.is_none() && connectivity.is_none() {
            None
        } else {
            Some(MPClipboardEvent { text, connectivity })
        }
    }
}

} // verus!
