use flag_engine::engine::FlagManager;
use flag_engine::flags::{Flag, GlobalFlag, LocalFlag};
use flag_engine::router::{safety_car_flag, TelemetryEvent, VehicleFlag};

#[test]
fn safety_car_table_all_pairs() {
    for mode in 0u8..=3 {
        for phase in 0u8..=3 {
            let expected = if mode == 0 || phase >= 2 {
                None
            } else if mode == 2 {
                Some(GlobalFlag::Vsc)
            } else {
                Some(GlobalFlag::Sc)
            };
            assert_eq!(safety_car_flag(mode, phase), expected);
        }
    }
}

#[test]
fn roster_event_replaces_roster_silently() {
    let mut m = FlagManager::new();
    assert_eq!(m.handle_event(TelemetryEvent::Roster(vec![44, 16, 1]), 0), None);
    assert_eq!(m.driver_numbers, vec![44, 16, 1]);
    assert_eq!(m.handle_event(TelemetryEvent::Roster(vec![63]), 1), None);
    assert_eq!(m.driver_numbers, vec![63]);
}

#[test]
fn session_boundaries_reset_the_engine() {
    for boundary in [
        TelemetryEvent::SessionStart,
        TelemetryEvent::SessionEnd,
        TelemetryEvent::Classification,
    ] {
        let mut m = FlagManager::new();
        m.set_global_flag(GlobalFlag::Red, 0);
        m.set_local_flag(LocalFlag::Blue, 1);
        assert_eq!(m.handle_event(boundary, 2), None);
        assert_eq!(m.global_flag, None);
        assert_eq!(m.local_flag, None);
    }
}

#[test]
fn red_flag_event_raises_the_global_red() {
    let mut m = FlagManager::new();
    assert_eq!(
        m.handle_event(TelemetryEvent::RedFlag, 0),
        Some(Some(Flag::Global(GlobalFlag::Red)))
    );
    assert_eq!(m.global_flag, Some(GlobalFlag::Red));
}

#[test]
fn chequered_flag_event_finishes_the_race() {
    let mut m = FlagManager::new();
    assert_eq!(
        m.handle_event(TelemetryEvent::ChequeredFlag, 0),
        Some(Some(Flag::Finish))
    );
    assert!(m.race_finished);
}

#[test]
fn penalty_event_shows_the_notice() {
    let mut m = FlagManager::new();
    assert_eq!(
        m.handle_event(TelemetryEvent::Penalty { vehicle_index: 9 }, 42),
        Some(Some(Flag::Penalty(9)))
    );
    assert_eq!(m.showing_penalty_since, Some(42));
}

#[test]
fn car_status_drives_the_local_flag() {
    let mut m = FlagManager::new();
    assert_eq!(
        m.handle_event(TelemetryEvent::CarStatus(VehicleFlag::Yellow), 0),
        Some(Some(Flag::Local(LocalFlag::Yellow)))
    );
    assert_eq!(
        m.handle_event(TelemetryEvent::CarStatus(VehicleFlag::Green), 1),
        Some(Some(Flag::Local(LocalFlag::Green)))
    );
    assert_eq!(
        m.handle_event(TelemetryEvent::CarStatus(VehicleFlag::Blue), 2),
        Some(Some(Flag::Local(LocalFlag::Blue)))
    );
    assert_eq!(
        m.handle_event(TelemetryEvent::CarStatus(VehicleFlag::NoFlag), 3),
        Some(None)
    );
}

#[test]
fn car_status_red_raises_the_global_red() {
    let mut m = FlagManager::new();
    assert_eq!(
        m.handle_event(TelemetryEvent::CarStatus(VehicleFlag::Red), 0),
        Some(Some(Flag::Global(GlobalFlag::Red)))
    );
    assert_eq!(m.global_flag, Some(GlobalFlag::Red));
}

#[test]
fn car_status_unknown_changes_nothing() {
    let mut m = FlagManager::new();
    m.set_local_flag(LocalFlag::Green, 0);
    assert_eq!(
        m.handle_event(TelemetryEvent::CarStatus(VehicleFlag::Unknown), 1),
        None
    );
    assert_eq!(m.local_flag, Some(LocalFlag::Green));
}

#[test]
fn safety_car_events_drive_the_global_flag() {
    let mut m = FlagManager::new();
    assert_eq!(
        m.handle_event(TelemetryEvent::SafetyCar { mode: 1, phase: 0 }, 0),
        Some(Some(Flag::Global(GlobalFlag::Sc)))
    );
    assert_eq!(
        m.handle_event(TelemetryEvent::SafetyCar { mode: 2, phase: 0 }, 1),
        Some(Some(Flag::Global(GlobalFlag::Vsc)))
    );
    // The safety car returning to the pits clears the flag; with no local
    // state to reveal, the explicit clear value is emitted.
    assert_eq!(
        m.handle_event(TelemetryEvent::SafetyCar { mode: 2, phase: 2 }, 2),
        Some(None)
    );
}

#[test]
fn other_events_are_ignored() {
    let mut m = FlagManager::new();
    assert_eq!(m.handle_event(TelemetryEvent::Other, 0), None);
    assert_eq!(m.global_flag, None);
}
