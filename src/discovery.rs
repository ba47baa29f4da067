use vstd::prelude::*;

use vstd::string::StringSliceAdditionalSpecFns;
use vstd::utf8::encode_utf8_decode_utf8;
use wayland_client::protocol::wl_seat::WlSeat;
use wayland_client::Proxy;
use wayland_protocols_wlr::data_control::v1::client::zwlr_data_control_manager_v1::ZwlrDataControlManagerV1;

verus! {

/// A global object that the compositor advertised: its registry name and
/// the version it offers.
#[derive(Clone, Copy, Debug, PartialEq, Eq, Structural)]
pub struct Global {
    pub name: u32,
    pub version: u32,
}

/// The globals that the watcher needs.
#[derive(Clone, Copy, Debug, PartialEq, Eq, Structural)]
pub enum Capability {
    /// The seat: the owner of input and of the selection.
    Seat,
    /// The data-control manager: the clipboard-control capability.
    DataControlManager,
}

/// A required global that the compositor did not advertise.
#[derive(Clone, Copy, Debug, PartialEq, Eq, Structural)]
pub enum MissingCapability {
    Seat,
    DataControlManager,
}

/// The two globals to bind once discovery is over.
#[derive(Clone, Copy, Debug, PartialEq, Eq, Structural)]
pub struct Capabilities {
    pub seat: Global,
    pub manager: Global,
}

/// Relies on wayland-client's `Proxy::interface` for `WlSeat`, generated from
/// the core protocol: its name is `wl_seat`.
#[verifier::external_body]
fn seat_interface() -> (r: &'static str)
    ensures
        r@ == "wl_seat"@,
{
    WlSeat::interface().name
}

/// Relies on wayland-protocols-wlr's `Proxy::interface` for
/// `ZwlrDataControlManagerV1`, generated from the wlr data-control protocol:
/// its name is `zwlr_data_control_manager_v1`.
#[verifier::external_body]
fn manager_interface() -> (r: &'static str)
    ensures
        r@ == "zwlr_data_control_manager_v1"@,
{
    ZwlrDataControlManagerV1::interface().name
}

/// Which needed capability an advertised interface name stands for.
pub open spec fn capability_of(interface: Seq<char>) -> Option<Capability> {
    if interface == "wl_seat"@ {
        Some(Capability::Seat)
    } else if interface == "zwlr_data_control_manager_v1"@ {
        Some(Capability::DataControlManager)
    } else {
        None
    }
}

/// Whether two strings hold the same characters.
pub fn same_text(a: &str, b: &str) -> (r: bool)
    ensures
        r == (a@ == b@),
{
    let x = a.as_bytes();
    let y = b.as_bytes();
    proof {
        encode_utf8_decode_utf8(a@);
        encode_utf8_decode_utf8(b@);
    }
    if x.len() != y.len() {
        return false;
    }
    let mut i: usize = 0;
    while i < x.len()
        invariant
            x@ == a.spec_bytes(),
            y@ == b.spec_bytes(),
            x@.len() == y@.len(),
            0 <= i <= x@.len(),
            forall|j: int| 0 <= j < i ==> x@[j] == y@[j],
        decreases x@.len() - i,
    {
        if x[i] != y[i] {
            return false;
        }
        i = i + 1;
    }
    assert(x@ =~= y@);
    true
}

/// Which needed capability an advertised interface name stands for.
pub fn classify(interface: &str) -> (r: Option<Capability>)
    ensures
        r == capability_of(interface@),
{
    if same_text(interface, seat_interface()) {
        Some(Capability::Seat)
    } else if same_text(interface, manager_interface()) {
        Some(Capability::DataControlManager)
    } else {
        None
    }
}

/// What discovery has seen so far.
pub struct DiscoveryView {
    pub seat: Option<Global>,
    pub manager: Option<Global>,
    pub seat_named: bool,
}

impl DiscoveryView {
    /// The state once the compositor advertised `interface` as global `g`;
    /// a later seat or manager replaces an earlier one.
    pub open spec fn announced(self, interface: Seq<char>, g: Global) -> Self {
        match capability_of(interface) {
            Some(Capability::Seat) => DiscoveryView { seat: Some(g), ..self },
            Some(Capability::DataControlManager) => DiscoveryView { manager: Some(g), ..self },
            None => self,
        }
    }

    /// The outcome of discovery once the initial burst of globals is over.
    pub open spec fn outcome(self) -> Result<Capabilities, MissingCapability> {
        match (self.seat, self.manager) {
            (None, _) => Err(MissingCapability::Seat),
            (Some(_), None) => Err(MissingCapability::DataControlManager),
            (Some(seat), Some(manager)) => Ok(Capabilities { seat, manager }),
        }
    }
}

/// Collects the globals that the compositor advertises at startup and
/// tells, once they are all in, whether the seat and the data-control
/// manager are there; then waits for the seat's name.
pub struct Discovery {
    seat: Option<Global>,
    manager: Option<Global>,
    seat_named: bool,
}

impl View for Discovery {
    type V = DiscoveryView;

    closed spec fn view(&self) -> DiscoveryView {
        DiscoveryView { seat: self.seat, manager: self.manager, seat_named: self.seat_named }
    }
}

impl Discovery {
    /// Nothing seen yet.
    pub fn new() -> (r: Discovery)
        ensures
            r@ == (DiscoveryView { seat: None, manager: None, seat_named: false }),
    {
        Discovery { seat: None, manager: None, seat_named: false }
    }

    /// The compositor advertised a global; returns the capability it
    /// provides, if it is one of those needed, so that it gets bound.
    pub fn on_global(&mut self, name: u32, interface: &str, version: u32) -> (r: Option<Capability>)
        ensures
            r == capability_of(interface@),
            final(self)@ == old(self)@.announced(interface@, (Global { name, version })),
    {
        let c = classify(interface);
        match c {
            Some(Capability::Seat) => {
                self.seat = Some(Global { name, version });
            },
            Some(Capability::DataControlManager) => {
                self.manager = Some(Global { name, version });
            },
            None => {},
        }
        c
    }

    /// The bound seat told its name.
    pub fn on_seat_name(&mut self)
        ensures
            final(self)@ == (DiscoveryView { seat_named: true, ..old(self)@ }),
    {
        self.seat_named = true;
    }

    /// Whether the seat's name has come.
    pub fn seat_named(&self) -> (r: bool)
        ensures
            r == self@.seat_named,
    {
        self.seat_named
    }

    /// The initial burst of globals is over: the seat and the manager, or
    /// the first of them that is missing.
    pub fn finish(&self) -> (r: Result<Capabilities, MissingCapability>)
        ensures
            r == self@.outcome(),
    {
        match self.seat {
            None => Err(MissingCapability::Seat),
            Some(seat) => match self.manager {
                None => Err(MissingCapability::DataControlManager),
                Some(manager) => Ok(Capabilities { seat, manager }),
            },
        }
    }
}

} // verus!
