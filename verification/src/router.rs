//! Routing of decoded telemetry events to engine transitions.

use vstd::prelude::*;

use crate::engine::{
    spec_finish, spec_initial, spec_set_global, spec_set_local, spec_set_penalty, spec_set_roster,
    EngineView, FlagManager,
};
use crate::flags::{Flag, GlobalFlag, LocalFlag};

verus! {

/// The condition a per-vehicle status event reports for the observed car.
#[derive(Debug, Clone, Copy, PartialEq, Eq)]
pub enum VehicleFlag {
    /// The reported value is invalid or unknown: log-only, no state change.
    Unknown,
    /// No condition: the local flag is cleared.
    NoFlag,
    Green,
    Blue,
    Yellow,
    /// A red condition reported per-vehicle raises the session-wide red flag.
    Red,
}

/// A decoded telemetry event, as the engine sees it.
#[derive(Debug, PartialEq, Eq)]
pub enum TelemetryEvent {
    /// A participant roster: one car identifier per car slot.
    Roster(Vec<u8>),
    /// A safety-car event, parameterized by its (mode, phase) pair. Both
    /// values are documented to lie in `0 ..= 3`; anything outside is a
    /// contract violation of the upstream decoder.
    SafetyCar { mode: u8, phase: u8 },
    /// A penalty was issued to the driver at the given index.
    Penalty { vehicle_index: usize },
    ChequeredFlag,
    RedFlag,
    SessionStart,
    SessionEnd,
    /// A classification (results) event: a session boundary.
    Classification,
    /// A per-vehicle status report for the observed car.
    CarStatus(VehicleFlag),
    /// Any event kind the engine ignores.
    Other,
}

/// The safety-car decision table over the documented (mode, phase) domain:
/// the global-flag value the event calls for, where `None` clears it.
pub open spec fn spec_safety_car_flag(mode: u8, phase: u8) -> Option<GlobalFlag> {
    if mode == 0 || phase == 2 || phase == 3 {
        None
    } else if mode == 2 {
        Some(GlobalFlag::Vsc)
    } else {
        Some(GlobalFlag::Sc)
    }
}

/// Whether an event lies within the upstream decoder's documented ranges.
pub open spec fn spec_event_in_domain(event: TelemetryEvent) -> bool {
    event matches TelemetryEvent::SafetyCar { mode, phase } ==> mode <= 3 && phase <= 3
}

/// The safety-car decision table: which global-flag value a (mode, phase)
/// pair calls for. Mode: 0 none, 1 full safety car, 2 virtual safety car,
/// 3 formation lap. Phase: 0 deployed, 1 returning, 2 returned, 3 resume.
/// "No safety car" and the ending/ended phases clear the flag; a full
/// safety car or formation lap being deployed raises `Sc`; a virtual
/// safety car being deployed raises `Vsc`.
pub fn safety_car_flag(mode: u8, phase: u8) -> (r: Option<GlobalFlag>)
    requires
        mode <= 3,
        phase <= 3,
    ensures
        r == spec_safety_car_flag(mode, phase),
{
    match (mode, phase) {
        (0, _) | (_, 2) | (_, 3) => None,
        (1, 0) | (1, 1) | (3, 0) | (3, 1) => Some(GlobalFlag::Sc),
        (2, 0) | (2, 1) => Some(GlobalFlag::Vsc),
        _ => unreached(),
    }
}

/// The engine transition an event maps to: the state after it is handled,
/// and what is emitted.
pub open spec fn spec_handle_event(s: EngineView, event: TelemetryEvent, now: u64) -> (
    EngineView,
    Option<Option<Flag>>,
) {
    match event {
        TelemetryEvent::Roster(numbers) => (spec_set_roster(s, numbers@), None),
        TelemetryEvent::SafetyCar { mode, phase } => spec_set_global(
            s,
            spec_safety_car_flag(mode, phase),
            now,
        ),
        TelemetryEvent::Penalty { vehicle_index } => spec_set_penalty(s, vehicle_index, now),
        TelemetryEvent::ChequeredFlag => spec_finish(s),
        TelemetryEvent::RedFlag => spec_set_global(s, Some(GlobalFlag::Red), now),
        TelemetryEvent::SessionStart => (spec_initial(), None),
        TelemetryEvent::SessionEnd => (spec_initial(), None),
        TelemetryEvent::Classification => (spec_initial(), None),
        TelemetryEvent::CarStatus(v) => match v {
            VehicleFlag::Unknown => (s, None),
            VehicleFlag::NoFlag => spec_set_local(s, None, now),
            VehicleFlag::Green => spec_set_local(s, Some(LocalFlag::Green), now),
            VehicleFlag::Blue => spec_set_local(s, Some(LocalFlag::Blue), now),
            VehicleFlag::Yellow => spec_set_local(s, Some(LocalFlag::Yellow), now),
            VehicleFlag::Red => spec_set_global(s, Some(GlobalFlag::Red), now),
        },
        TelemetryEvent::Other => (s, None),
    }
}

impl FlagManager {
    /// Applies one decoded telemetry event: session boundaries reset the
    /// engine, roster events replace the roster, safety-car and red-flag
    /// events drive the global flag, per-vehicle status drives the local
    /// flag, and penalty and chequered-flag events raise their overlays.
    /// Everything else is ignored.
    pub fn handle_event(&mut self, event: TelemetryEvent, now_ms: u64) -> (r: Option<Option<Flag>>)
        requires
            spec_event_in_domain(event),
        ensures
            final(self)@ == spec_handle_event(old(self)@, event, now_ms).0,
            r == spec_handle_event(old(self)@, event, now_ms).1,
    {
        match event {
            TelemetryEvent::Roster(numbers) => {
                self.set_roster(numbers);
                None
            },
            TelemetryEvent::SafetyCar { mode, phase } => self.set_global_flag_value(
                safety_car_flag(mode, phase),
                now_ms,
            ),
            TelemetryEvent::Penalty { vehicle_index } => self.set_penalty(vehicle_index, now_ms),
            TelemetryEvent::ChequeredFlag => self.finish(),
            TelemetryEvent::RedFlag => self.set_global_flag(GlobalFlag::Red, now_ms),
            TelemetryEvent::SessionStart => {
                self.reset();
                None
            },
            TelemetryEvent::SessionEnd => {
                self.reset();
                None
            },
            TelemetryEvent::Classification => {
                self.reset();
                None
            },
            TelemetryEvent::CarStatus(v) => match v {
                VehicleFlag::Unknown => None,
                VehicleFlag::NoFlag => self.reset_local_flag(now_ms),
                VehicleFlag::Green => self.set_local_flag(LocalFlag::Green, now_ms),
                VehicleFlag::Blue => self.set_local_flag(LocalFlag::Blue, now_ms),
                VehicleFlag::Yellow => self.set_local_flag(LocalFlag::Yellow, now_ms),
                VehicleFlag::Red => self.set_global_flag(GlobalFlag::Red, now_ms),
            },
            TelemetryEvent::Other => None,
        }
    }
}

} // verus!
