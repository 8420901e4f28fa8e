use qbit_killswitch::state::{AppState, IpAddress};

#[test]
fn label_names_each_state() {
    assert_eq!(AppState::Starting.label(), "STARTING");
    assert_eq!(AppState::Nominal.label(), "NOMINAL");
    assert_eq!(AppState::Degraded.label(), "DEGRADED");
    assert_eq!(AppState::Paused.label(), "PAUSED");
    assert_eq!(AppState::Recovery.label(), "RECOVERING");
}

#[test]
fn rgb_gives_each_state_its_colour() {
    assert_eq!(AppState::Starting.rgb(), (150, 150, 150));
    assert_eq!(AppState::Nominal.rgb(), (40, 200, 40));
    assert_eq!(AppState::Degraded.rgb(), (240, 195, 0));
    assert_eq!(AppState::Paused.rgb(), (220, 40, 40));
    assert_eq!(AppState::Recovery.rgb(), (0, 210, 210));
}

#[test]
fn ip_addresses_compare_by_family_and_value() {
    assert_eq!(IpAddress::V4(0x0a000001), IpAddress::V4(0x0a000001));
    assert_ne!(IpAddress::V4(1), IpAddress::V4(2));
    assert_ne!(IpAddress::V4(1), IpAddress::V6(1));
}
