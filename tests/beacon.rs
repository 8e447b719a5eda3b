use bve_autopilot::beacon::{BeaconData, BeaconType};
use bve_autopilot::quantity::Distance;

#[test]
fn test_beacon_type_conversion() {
    assert_eq!(BeaconType::from_int(0), BeaconType::TascStop);
    assert_eq!(BeaconType::from_int(3), BeaconType::Signal);
    assert_eq!(BeaconType::from_int(999), BeaconType::Unknown(999));
}

#[test]
fn test_beacon_data() {
    let beacon = BeaconData::new(0, 3, Distance::from_meters(150), 80);
    assert_eq!(beacon.beacon_type, 0);
    assert_eq!(beacon.get_type(), BeaconType::TascStop);
    assert_eq!(beacon.distance, Distance::from_meters(150));
}

#[test]
fn beacon_codes_round_trip() {
    let named = [
        (0, BeaconType::TascStop),
        (1, BeaconType::SpeedLimit),
        (2, BeaconType::Gradient),
        (3, BeaconType::Signal),
        (4, BeaconType::AtoTiming),
        (5, BeaconType::OrpPattern),
    ];
    for (code, t) in named {
        assert_eq!(BeaconType::from_int(code), t);
        assert_eq!(t.to_int(), code);
    }
    assert_eq!(BeaconType::from_int(-7), BeaconType::Unknown(-7));
    assert_eq!(BeaconType::Unknown(6).to_int(), 6);
}

#[test]
fn beacon_data_fields_and_default() {
    let beacon = BeaconData::new(2, 4, Distance::from_millimeters(-2500), 17);
    assert_eq!(beacon.signal, 4);
    assert_eq!(beacon.optional, 17);
    assert_eq!(beacon.distance.as_millimeters(), -2500);
    assert_eq!(beacon.get_type(), BeaconType::Gradient);
    let d = BeaconData::default();
    assert_eq!(d.beacon_type, 0);
    assert_eq!(d.distance, Distance::from_millimeters(0));
}
