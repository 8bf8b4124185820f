//! The engine with its periods built in.
use super::solarbridge::{EngineModel, PollState, SolarBridgeBackgroundService};
use vstd::prelude::*;

verus! {

/// The synchronization engine with the periods fixed: the power is polled
/// every second, the energy and the status every minute.
pub struct SolarService {
    pub bridge: SolarBridgeBackgroundService,
}

impl SolarService {
    /// Creates a new instance of `SolarService`.
    pub fn new() -> (service: SolarService)
        ensures
            service.bridge@ == (EngineModel {
                sync_power_interval: 1000,
                sync_energy_interval: 60000,
                sync_status_interval: 60000,
                last: PollState { power: None, energy: None, status: None },
            }),
    {
        SolarService { bridge: SolarBridgeBackgroundService::new(1000, 60000, 60000) }
    }
}

} // verus!
