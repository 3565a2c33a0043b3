use vstd::prelude::*;
use vstd::string::StringExecFns;

use crate::error::ErrorCode;
use crate::socket::{spec_power_text, PowerState};

verus! {

// The temperature sensor: identity (serial and manufacturer) fixed at
// creation, a mutable power state, and derived readings. As with the power
// socket, the raw readings come from the measurement collaborator outside
// this library, as IEEE-754 bit patterns; the sensor decides what of them is
// reported.

/// The bit pattern of the quiet not-a-number value the sensor reports as its
/// temperature while it is off.
pub const F32_NAN_BITS: u32 = 0x7FC00000;

/// The mathematical model of a temperature sensor.
pub struct TSensorModel {
    pub serial: Seq<char>,
    pub manufactor: Seq<char>,
    pub power: PowerState,
}

/// A temperature sensor.
#[derive(Debug, Clone)]
pub struct TSensor {
    serial: String,
    manufactor: String,
    state: PowerState,
}

impl View for TSensor {
    type V = TSensorModel;

    closed spec fn view(&self) -> TSensorModel {
        TSensorModel { serial: self.serial@, manufactor: self.manufactor@, power: self.state }
    }
}

/// The sensor's status line: identity, power state, and both readings.
pub open spec fn spec_tsensor_status(
    m: TSensorModel,
    consumption_text: Seq<char>,
    temperature_text: Seq<char>,
) -> Seq<char> {
    "Temperature sensor: serial = "@ + m.serial + ", manufactor = "@ + m.manufactor
        + ", power state = "@ + spec_power_text(m.power) + ", consumption = "@ + consumption_text
        + ", temperature = "@ + temperature_text + "C"@
}

impl TSensor {
    /// A new sensor: off, with the given identity.
    pub fn new(serial: String, manufactor: String) -> (s: TSensor)
        ensures
            s@.power is OFF,
            s@.serial == serial@,
            s@.manufactor == manufactor@,
    {
        TSensor { serial, manufactor, state: PowerState::OFF }
    }

    /// The sensor's serial number.
    pub fn get_serial(&self) -> (r: &String)
        ensures
            r@ == self@.serial,
    {
        &self.serial
    }

    /// The sensor's manufacturer.
    pub fn get_manufactor(&self) -> (r: &String)
        ensures
            r@ == self@.manufactor,
    {
        &self.manufactor
    }

    /// The sensor's power state; reading it never fails.
    pub fn get_power_state(&self) -> (r: Result<PowerState, ErrorCode>)
        ensures
            r == Ok::<PowerState, ErrorCode>(self@.power),
    {
        Ok(self.state)
    }

    /// Sets the power state and reports the state that now holds; on this
    /// device the switch never fails.
    pub fn set_power_state(&mut self, state: PowerState) -> (r: Result<PowerState, ErrorCode>)
        ensures
            r == Ok::<PowerState, ErrorCode>(state),
            final(self)@.power == state,
            final(self)@.serial == old(self)@.serial,
            final(self)@.manufactor == old(self)@.manufactor,
    {
        self.state = state;
        Ok(self.state)
    }

    /// The sensor's own consumption, given the collaborator's reading as an
    /// IEEE-754 bit pattern: exactly zero while off, the reading while on.
    pub fn get_consumption(&self, measured: u32) -> (r: u32)
        ensures
            self@.power is OFF ==> r == 0,
            self@.power is ON ==> r == measured,
    {
        match self.state {
            PowerState::OFF => 0,
            PowerState::ON => measured,
        }
    }

    /// The temperature, given the collaborator's reading as an IEEE-754 bit
    /// pattern: not a number while the sensor is off, the reading while on.
    pub fn get_temperature(&self, measured: u32) -> (r: u32)
        ensures
            self@.power is OFF ==> r == F32_NAN_BITS,
            self@.power is ON ==> r == measured,
    {
        match self.state {
            PowerState::OFF => F32_NAN_BITS,
            PowerState::ON => measured,
        }
    }

    /// The status line, with the two readings' display texts supplied by the
    /// caller.
    pub fn get_status(&self, consumption_text: &str, temperature_text: &str) -> (r: String)
        ensures
            r@ == spec_tsensor_status(self@, consumption_text@, temperature_text@),
    {
        let mut out = "Temperature sensor: serial = ".to_owned();
        out.append(self.serial.as_str());
        out.append(", manufactor = ");
        out.append(self.manufactor.as_str());
        out.append(", power state = ");
        match self.state {
            PowerState::ON => out.append("ON"),
            PowerState::OFF => out.append("OFF"),
        }
        out.append(", consumption = ");
        out.append(consumption_text);
        out.append(", temperature = ");
        out.append(temperature_text);
        out.append("C");
        proof {
            assert(out@ =~= spec_tsensor_status(self@, consumption_text@, temperature_text@));
        }
        out
    }
}

} // verus!
