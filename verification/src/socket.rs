use vstd::prelude::*;
use vstd::string::StringExecFns;

verus! {

// The controllable power socket: an immutable identity assigned at creation,
// a mutable power state, and a derived instantaneous consumption that is
// only non-zero while the socket is on. The measured reading itself comes
// from a measurement collaborator outside this library; the socket decides
// what of it is reported.

/// A device's power state.
#[derive(Debug, Clone, Copy, PartialEq, Eq, Structural)]
pub enum PowerState {
    OFF,
    ON,
}

/// The mathematical model of a socket: its power state and its identifier.
pub struct SocketModel {
    pub power: PowerState,
    pub id: Seq<char>,
}

/// Relies on xid::new and its display form: a freshly generated identifier,
/// rendered as its 20-character base32-hex text. The value depends on the
/// clock, the machine and a counter, so nothing is assumed beyond its length;
/// the generator expects a system clock not set before the Unix epoch.
#[verifier::external_body]
fn fresh_device_id() -> (r: String)
    ensures
        r@.len() == 20,
{
    xid::new().to_string()
}

/// An AC power socket in the device registry.
#[derive(Debug, Clone)]
pub struct ACSocket {
    state: PowerState,
    id: String,
}

impl View for ACSocket {
    type V = SocketModel;

    closed spec fn view(&self) -> SocketModel {
        SocketModel { power: self.state, id: self.id@ }
    }
}

/// The consumption reported for a socket: exactly zero while it is off, and
/// the measured reading (an IEEE-754 bit pattern) while it is on.
pub open spec fn spec_consumption(m: SocketModel, measured: u32) -> u32 {
    if m.power is ON {
        measured
    } else {
        0
    }
}

/// The text of a power state, as status lines show it.
pub open spec fn spec_power_text(p: PowerState) -> Seq<char> {
    if p is ON {
        "ON"@
    } else {
        "OFF"@
    }
}

/// The state line of a socket: power state and consumption text.
pub open spec fn spec_state_text(p: PowerState, consumption_text: Seq<char>) -> Seq<char> {
    "power = "@ + spec_power_text(p) + ", consumption = "@ + consumption_text
}

/// The full status line of a socket: identity, power state and consumption.
pub open spec fn spec_status_text(m: SocketModel, consumption_text: Seq<char>) -> Seq<char> {
    "id = "@ + m.id + ", "@ + spec_state_text(m.power, consumption_text)
}

impl ACSocket {
    /// A new socket: off, with a freshly generated identifier.
    pub fn new() -> (s: ACSocket)
        ensures
            s@.power is OFF,
            s@.id.len() == 20,
    {
        ACSocket { state: PowerState::OFF, id: fresh_device_id() }
    }

    /// A new socket: off, with the identifier the caller chose. Lets a
    /// deployment or a test use a deterministic identifier sequence.
    pub fn with_id(id: String) -> (s: ACSocket)
        ensures
            s@.power is OFF,
            s@.id == id@,
    {
        ACSocket { state: PowerState::OFF, id }
    }

    /// The socket's identifier.
    pub fn get_id(&self) -> (r: &String)
        ensures
            r@ == self@.id,
    {
        &self.id
    }

    /// The socket's power state.
    pub fn get_power(&self) -> (r: PowerState)
        ensures
            r == self@.power,
    {
        self.state
    }

    /// Sets the power state. Setting the state it already has is not an
    /// error and produces no special signal.
    pub fn switch(&mut self, state: PowerState)
        ensures
            final(self)@.power == state,
            final(self)@.id == old(self)@.id,
    {
        self.state = state;
    }

    /// The consumption to report, given the collaborator's current reading
    /// as an IEEE-754 bit pattern: exactly zero while off, the reading while on.
    pub fn get_consumption(&self, measured: u32) -> (r: u32)
        ensures
            r == spec_consumption(self@, measured),
    {
        match self.state {
            PowerState::OFF => 0,
            PowerState::ON => measured,
        }
    }

    /// The state line: power state and consumption, as text.
    pub fn get_state(&self, consumption_text: &str) -> (r: String)
        ensures
            r@ == spec_state_text(self@.power, consumption_text@),
    {
        let mut out = "power = ".to_owned();
        match self.state {
            PowerState::ON => out.append("ON"),
            PowerState::OFF => out.append("OFF"),
        }
        out.append(", consumption = ");
        out.append(consumption_text);
        proof {
            assert(out@ =~= spec_state_text(self@.power, consumption_text@));
        }
        out
    }

    /// The full status line: identity, power state and consumption, as text.
    pub fn get_status(&self, consumption_text: &str) -> (r: String)
        ensures
            r@ == spec_status_text(self@, consumption_text@),
    {
        let mut out = "id = ".to_owned();
        out.append(self.id.as_str());
        out.append(", ");
        let state = self.get_state(consumption_text);
        out.append(state.as_str());
        proof {
            assert(out@ =~= spec_status_text(self@, consumption_text@));
        }
        out
    }
}

} // verus!
