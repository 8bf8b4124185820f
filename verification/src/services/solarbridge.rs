//! The synchronization engine: what the bridge last told the hub of each
//! signal, and whether a fresh reading is worth telling.
//!
//! The engine reads and sends nothing itself. Each turn of a loop hands it
//! the reading, learns from it whether to publish, and reports how the
//! publication went.
use crate::day::Day;
use crate::integration::solarlog::InverterStatus;
use vstd::prelude::*;

verus! {

/// What the hub was last told of each signal; `None` where nothing is known
/// to have reached it.
pub struct PollState {
    pub power: Option<i64>,
    pub energy: Option<(Day, i64)>,
    pub status: Option<InverterStatus>,
}

/// What a loop publishes for a reading, given what the hub was last told:
/// the reading, where there is one and it differs; nothing for a failed
/// query and for a reading that the hub has.
pub open spec fn to_publish<T>(last: Option<T>, reading: Option<T>) -> Option<T> {
    match reading {
        Some(value) if last != Some(value) => Some(value),
        _ => None,
    }
}

/// What the hub was last told, after `value` was or was not published: a
/// failed publication leaves the old value, so that the next reading of
/// `value` is published again.
pub open spec fn retained<T>(last: Option<T>, value: T, published: bool) -> Option<T> {
    if published {
        Some(value)
    } else {
        last
    }
}

/// What the hub was last told after one turn of a loop, in which `reading`
/// came in and a publication, where one was made, ended as `hub_accepts`
/// says.
pub open spec fn after_turn<T>(last: Option<T>, reading: Option<T>, hub_accepts: bool) -> Option<
    T,
> {
    match to_publish(last, reading) {
        Some(value) => retained(last, value, hub_accepts),
        None => last,
    }
}

/// How many publications one turn of a loop makes.
pub open spec fn publications<T>(last: Option<T>, reading: Option<T>) -> nat {
    if to_publish(last, reading) is Some {
        1
    } else {
        0
    }
}

/// The reading of a query, if it did not fail.
pub open spec fn reading_of<T, E>(result: Result<T, E>) -> Option<T> {
    match result {
        Ok(value) => Some(value),
        Err(_) => None,
    }
}

/// The synchronization engine.
pub struct SolarBridgeBackgroundService {
    sync_power_interval: u64,
    sync_energy_interval: u64,
    sync_status_interval: u64,
    last: PollState,
}

/// The engine, as mathematical values.
pub struct EngineModel {
    /// The period of the power loop, in milliseconds.
    pub sync_power_interval: u64,
    /// The period of the energy loop, in milliseconds.
    pub sync_energy_interval: u64,
    /// The period of the status loop, in milliseconds.
    pub sync_status_interval: u64,
    pub last: PollState,
}

impl View for SolarBridgeBackgroundService {
    type V = EngineModel;

    closed spec fn view(&self) -> EngineModel {
        EngineModel {
            sync_power_interval: self.sync_power_interval,
            sync_energy_interval: self.sync_energy_interval,
            sync_status_interval: self.sync_status_interval,
            last: self.last,
        }
    }
}

impl SolarBridgeBackgroundService {
    /// Creates a new engine with the periods of its three loops, in
    /// milliseconds. Nothing is known of the hub yet.
    pub fn new(sync_power_interval: u64, sync_energy_interval: u64, sync_status_interval: u64) -> (service:
        SolarBridgeBackgroundService)
        ensures
            service@ == (EngineModel {
                sync_power_interval,
                sync_energy_interval,
                sync_status_interval,
                last: PollState { power: None, energy: None, status: None },
            }),
    {
        SolarBridgeBackgroundService {
            sync_power_interval,
            sync_energy_interval,
            sync_status_interval,
            last: PollState { power: None, energy: None, status: None },
        }
    }

    /// The period of the power loop, in milliseconds.
    pub fn sync_power_interval(&self) -> (millis: u64)
        ensures
            millis == self@.sync_power_interval,
    {
        self.sync_power_interval
    }

    /// The period of the energy loop, in milliseconds.
    pub fn sync_energy_interval(&self) -> (millis: u64)
        ensures
            millis == self@.sync_energy_interval,
    {
        self.sync_energy_interval
    }

    /// The period of the status loop, in milliseconds.
    pub fn sync_status_interval(&self) -> (millis: u64)
        ensures
            millis == self@.sync_status_interval,
    {
        self.sync_status_interval
    }

    /// The power that the hub was last told.
    pub fn last_power(&self) -> (last: Option<i64>)
        ensures
            last == self@.last.power,
    {
        self.last.power
    }

    /// The day and its energy that the hub was last told.
    pub fn last_energy(&self) -> (last: Option<(Day, i64)>)
        ensures
            last == self@.last.energy,
    {
        self.last.energy
    }

    /// The status that the hub was last told.
    pub fn last_status(&self) -> (last: Option<InverterStatus>)
        ensures
            last == self@.last.status,
    {
        self.last.status
    }

    /// Decides on a reading of the power: the power to publish, if the
    /// query gave one and the hub was last told another.
    pub fn sync_solar_power<E>(&self, reading: &Result<i64, E>) -> (publish: Option<i64>)
        ensures
            publish == to_publish(self@.last.power, reading_of(*reading)),
    {
        match reading {
            Err(_) => None,
            Ok(power) => match self.last.power {
                Some(last) if last == *power => None,
                _ => Some(*power),
            },
        }
    }

    /// Decides on a reading of the energy of `day`: the day and its energy
    /// to publish, if the query gave one and the hub was last told another
    /// energy or another day.
    pub fn sync_solar_energy<E>(&self, day: Day, reading: &Result<i64, E>) -> (publish: Option<
        (Day, i64),
    >)
        ensures
            publish == to_publish(
                self@.last.energy,
                match reading_of(*reading) {
                    Some(energy) => Some((day, energy)),
                    None => None,
                },
            ),
    {
        match reading {
            Err(_) => None,
            Ok(energy) => match self.last.energy {
                Some((last_day, last_energy)) if last_day == day && last_energy == *energy => None,
                _ => Some((day, *energy)),
            },
        }
    }

    /// Decides on a reading of the status: the status to publish, if the
    /// query gave one and the hub was last told another.
    pub fn sync_solar_status<E>(&self, reading: &Result<InverterStatus, E>) -> (publish: Option<
        InverterStatus,
    >)
        ensures
            publish == to_publish(self@.last.status, reading_of(*reading)),
    {
        match reading {
            Err(_) => None,
            Ok(status) => match self.last.status {
                Some(last) if last == *status => None,
                _ => Some(*status),
            },
        }
    }

    /// Takes note of how the publication of `power` ended.
    pub fn power_published(&mut self, power: i64, published: bool)
        ensures
            final(self)@ == (EngineModel {
                last: PollState {
                    power: retained(old(self)@.last.power, power, published),
                    ..old(self)@.last
                },
                ..old(self)@
            }),
    {
        if published {
            self.last.power = Some(power);
        }
    }

    /// Takes note of how the publication of the energy of a day ended.
    pub fn energy_published(&mut self, energy: (Day, i64), published: bool)
        ensures
            final(self)@ == (EngineModel {
                last: PollState {
                    energy: retained(old(self)@.last.energy, energy, published),
                    ..old(self)@.last
                },
                ..old(self)@
            }),
    {
        if published {
            self.last.energy = Some(energy);
        }
    }

    /// Takes note of how the publication of `status` ended.
    pub fn status_published(&mut self, status: InverterStatus, published: bool)
        ensures
            final(self)@ == (EngineModel {
                last: PollState {
                    status: retained(old(self)@.last.status, status, published),
                    ..old(self)@.last
                },
                ..old(self)@
            }),
    {
        if published {
            self.last.status = Some(status);
        }
    }
}

/// Two turns in a row with the same reading make one publication between
/// them, where the hub was not told that value before and accepts it the
/// first time; the hub then has the value.
pub proof fn lemma_same_reading_published_once<T>(last: Option<T>, value: T, hub_accepts_again: bool)
    requires
        last != Some(value),
    ensures
        publications(last, Some(value)) + publications(
            after_turn(last, Some(value), true),
            Some(value),
        ) == 1,
        after_turn(after_turn(last, Some(value), true), Some(value), hub_accepts_again) == Some(
            value,
        ),
{
}

/// A reading that the hub was last told makes no publication and leaves
/// what it was told; any other reading makes exactly one.
pub proof fn lemma_change_detection<T>(told: T, reading: T, hub_accepts: bool)
    ensures
        reading == told ==> publications(Some(told), Some(reading)) == 0 && after_turn(
            Some(told),
            Some(reading),
            hub_accepts,
        ) == Some(told),
        reading != told ==> publications(Some(told), Some(reading)) == 1 && to_publish(
            Some(told),
            Some(reading),
        ) == Some(reading),
{
}

/// The energy of another day is published even where the number is the
/// same: exactly one publication follows.
pub proof fn lemma_new_day_is_published(day: Day, next: Day, energy: i64)
    requires
        next != day,
    ensures
        publications(Some((day, energy)), Some((next, energy))) == 1,
        to_publish(Some((day, energy)), Some((next, energy))) == Some((next, energy)),
{
}

/// A query that failed makes no publication and leaves what the hub was
/// told; a publication that failed leaves it too, so the same reading is
/// published again in the next turn.
pub proof fn lemma_failures_keep_state<T>(last: Option<T>, value: T, hub_accepts: bool)
    ensures
        publications(last, None::<T>) == 0,
        after_turn(last, None::<T>, hub_accepts) == last,
        after_turn(last, Some(value), false) == last,
        last != Some(value) ==> publications(after_turn(last, Some(value), false), Some(value))
            == 1,
{
}

} // verus!
