//! The hub client: the three sensors of the bridge and their states.
use super::http_client::{Call, ClientModel, HttpClient, Progress, Reply};
use super::schemas::{StateCreateOrUpdate, StateModel};
use crate::retry::{retry_strategy, standard_plan};
use crate::text::{decimal, decimal_digits, digit_char, digit_str, i64_to_string, u64_to_string};
use vstd::prelude::*;
use vstd::string::*;

verus! {

/// The hub client.
pub struct Client {
    http: HttpClient,
}

impl View for Client {
    type V = ClientModel;

    closed spec fn view(&self) -> ClientModel {
        self.http@
    }
}

/// The digits after the point of a number of thousandths from 1 to 999:
/// three digits without the zeros at their end.
pub open spec fn fraction_digits(thousandths: nat) -> Seq<char> {
    let first = digit_char(thousandths / 100);
    let second = digit_char(thousandths / 10 % 10);
    let third = digit_char(thousandths % 10);
    if thousandths % 10 != 0 {
        seq![first, second, third]
    } else if thousandths / 10 % 10 != 0 {
        seq![first, second]
    } else {
        seq![first]
    }
}

/// An energy given in watt-hours, written in kilowatt-hours: the exact
/// decimal number, without zeros at the end of its fraction and without a
/// point where it is whole.
pub open spec fn kwh_text(watt_hours: int) -> Seq<char> {
    let magnitude = if watt_hours < 0 {
        -watt_hours
    } else {
        watt_hours
    };
    let sign = if watt_hours < 0 {
        seq!['-']
    } else {
        Seq::<char>::empty()
    };
    let whole = decimal_digits((magnitude / 1000) as nat);
    if magnitude % 1000 == 0 {
        sign + whole
    } else {
        sign + whole + seq!['.'] + fraction_digits((magnitude % 1000) as nat)
    }
}

/// The state of the power sensor.
pub open spec fn power_state(power: i64) -> StateModel {
    StateModel {
        state: decimal(power as int),
        attributes: Some(
            seq![
                ("unit_of_measurement"@, "W"@),
                ("friendly_name"@, "Solar Power"@),
                ("state_class"@, "measurement"@),
            ],
        ),
    }
}

/// The state of the energy sensor.
pub open spec fn energy_state(energy_today: i64, last_reset: Seq<char>) -> StateModel {
    StateModel {
        state: kwh_text(energy_today as int),
        attributes: Some(
            seq![
                ("unit_of_measurement"@, "kWh"@),
                ("friendly_name"@, "Solar Energy"@),
                ("device_class"@, "energy"@),
                ("state_class"@, "total_increasing"@),
                ("last_reset"@, last_reset),
            ],
        ),
    }
}

/// The state of the status sensor.
pub open spec fn status_state(status: Seq<char>) -> StateModel {
    StateModel { state: status, attributes: Some(seq![("friendly_name"@, "Solar Status"@)]) }
}

/// Writes an energy given in watt-hours in kilowatt-hours.
pub fn write_kwh(watt_hours: i64) -> (text: String)
    ensures
        text@ == kwh_text(watt_hours as int),
{
    let magnitude: u64 = if watt_hours < 0 {
        ((-(watt_hours + 1)) as u64) + 1
    } else {
        watt_hours as u64
    };
    let mut text = if watt_hours < 0 {
        proof {
            reveal_strlit("-");
            assert("-"@ =~= seq!['-']);
        }
        String::from_str("-")
    } else {
        String::new()
    };
    text.append(u64_to_string(magnitude / 1000).as_str());
    let thousandths: u64 = magnitude % 1000;
    if thousandths != 0 {
        let ghost whole = text@;
        proof {
            reveal_strlit(".");
            assert("."@ =~= seq!['.']);
        }
        text.append(".");
        text.append(digit_str(thousandths / 100));
        if thousandths % 100 != 0 {
            text.append(digit_str(thousandths / 10 % 10));
            if thousandths % 10 != 0 {
                text.append(digit_str(thousandths % 10));
            }
        }
        proof {
            assert(text@ =~= whole + seq!['.'] + fraction_digits(thousandths as nat));
        }
    }
    proof {
        assert(text@ =~= kwh_text(watt_hours as int));
    }
    text
}

/// The names of the attributes differ in length, so no two are the same.
proof fn lemma_names_differ()
    ensures
        "unit_of_measurement"@.len() == 19,
        "friendly_name"@.len() == 13,
        "state_class"@.len() == 11,
        "device_class"@.len() == 12,
        "last_reset"@.len() == 10,
{
    reveal_strlit("unit_of_measurement");
    reveal_strlit("friendly_name");
    reveal_strlit("state_class");
    reveal_strlit("device_class");
    reveal_strlit("last_reset");
}

/// An attribute with its value.
fn pair(name: &str, value: &str) -> (r: (String, String))
    ensures
        r.0@ == name@,
        r.1@ == value@,
{
    (name.to_owned(), value.to_owned())
}

impl Client {
    /// Creates a new instance of `Client`.
    pub fn new(token: String) -> (client: Client)
        ensures
            client@ == ClientModel::fresh(token@),
    {
        Client { http: HttpClient::new(token) }
    }

    /// Set the solar energy produced today in the hub, on a plan of the
    /// standard kind. The energy is given in watt-hours; `last_reset` is the
    /// instant at which the day began.
    pub fn set_solar_energy(&mut self, energy_today: i64, last_reset: &str, now: u64) -> (progress:
        Progress)
        ensures
            exists|plan: Seq<u64>|
                standard_plan(plan) && (final(self)@, progress@) == #[trigger] old(self)@.set_state(
                    "sensor.solar_energy"@,
                    energy_state(energy_today, last_reset@),
                    plan,
                    now,
                ),
            progress@.wf(),
    {
        let state = Self::create_solar_energy_state(energy_today, last_reset);
        self.publish("sensor.solar_energy", &state, now)
    }

    /// Set the solar current power in the hub, in watt, on a plan of the
    /// standard kind.
    pub fn set_solar_current_power(&mut self, power: i64, now: u64) -> (progress: Progress)
        ensures
            exists|plan: Seq<u64>|
                standard_plan(plan) && (final(self)@, progress@) == #[trigger] old(self)@.set_state(
                    "sensor.solar_power"@,
                    power_state(power),
                    plan,
                    now,
                ),
            progress@.wf(),
    {
        let state = Self::create_solar_current_power_state(power);
        self.publish("sensor.solar_power", &state, now)
    }

    /// Set the solar current status in the hub, on a plan of the standard
    /// kind.
    pub fn set_solar_status(&mut self, status: &str, now: u64) -> (progress: Progress)
        ensures
            exists|plan: Seq<u64>|
                standard_plan(plan) && (final(self)@, progress@) == #[trigger] old(self)@.set_state(
                    "sensor.solar_status"@,
                    status_state(status@),
                    plan,
                    now,
                ),
            progress@.wf(),
    {
        let state = Self::create_solar_status_state(status);
        self.publish("sensor.solar_status", &state, now)
    }

    /// Publishes `state` for `entity_id`, on a plan of the standard kind.
    fn publish(&mut self, entity_id: &str, state: &StateCreateOrUpdate, now: u64) -> (progress:
        Progress)
        ensures
            exists|plan: Seq<u64>|
                standard_plan(plan) && (final(self)@, progress@) == #[trigger] old(self)@.set_state(
                    entity_id@,
                    state@,
                    plan,
                    now,
                ),
            progress@.wf(),
    {
        let plan = retry_strategy();
        let ghost pauses = plan@;
        let progress = self.http.set_state(entity_id, state, plan, now);
        proof {
            assert((self@, progress@) == old(self)@.set_state(entity_id@, state@, pauses, now));
        }
        progress
    }

    /// Goes on with `call`, whose step came back with `reply` at `now`.
    pub fn resume(&mut self, call: Call, reply: Reply, now: u64) -> (progress: Progress)
        ensures
            (final(self)@, progress@) == old(self)@.resume(call@, reply.posted(), now),
            call@.wf() ==> progress@.wf(),
    {
        self.http.resume(call, reply, now)
    }

    /// Create the state of the power sensor.
    pub fn create_solar_current_power_state(power: i64) -> (state: StateCreateOrUpdate)
        ensures
            state@ == power_state(power),
            state@.wf(),
    {
        let mut attributes: Vec<(String, String)> = Vec::new();
        attributes.push(pair("unit_of_measurement", "W"));
        attributes.push(pair("friendly_name", "Solar Power"));
        attributes.push(pair("state_class", "measurement"));
        let state = StateCreateOrUpdate {
            state: i64_to_string(power),
            attributes: Some(attributes),
        };
        proof {
            assert(state@.attributes->0 =~= power_state(power).attributes->0);
            lemma_names_differ();
        }
        state
    }

    /// Create the state of the energy sensor.
    pub fn create_solar_energy_state(energy_today: i64, last_reset: &str) -> (state:
        StateCreateOrUpdate)
        ensures
            state@ == energy_state(energy_today, last_reset@),
            state@.wf(),
    {
        let mut attributes: Vec<(String, String)> = Vec::new();
        attributes.push(pair("unit_of_measurement", "kWh"));
        attributes.push(pair("friendly_name", "Solar Energy"));
        attributes.push(pair("device_class", "energy"));
        attributes.push(pair("state_class", "total_increasing"));
        attributes.push(pair("last_reset", last_reset));
        let state = StateCreateOrUpdate {
            state: write_kwh(energy_today),
            attributes: Some(attributes),
        };
        proof {
            assert(state@.attributes->0 =~= energy_state(energy_today, last_reset@).attributes->0);
            lemma_names_differ();
        }
        state
    }

    /// Create the state of the status sensor.
    pub fn create_solar_status_state(status: &str) -> (state: StateCreateOrUpdate)
        ensures
            state@ == status_state(status@),
            state@.wf(),
    {
        let mut attributes: Vec<(String, String)> = Vec::new();
        attributes.push(pair("friendly_name", "Solar Status"));
        let state = StateCreateOrUpdate { state: status.to_owned(), attributes: Some(attributes) };
        proof {
            assert(state@.attributes->0 =~= status_state(status@).attributes->0);
        }
        state
    }
}

} // verus!
