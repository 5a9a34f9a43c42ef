use wizrd::constants::{multilevel_source, AIR_QUALITY_SOURCE, TRAFFIC_SOURCE};
use wizrd::infrastructure_class::InfrastructureClass;
use wizrd::text::{bool_str, concat2, decimal_string, str_eq};
use wizrd::vehicle_kind::VehicleKind;

#[test]
fn multilevel_source_levels() {
    assert_eq!(multilevel_source(TRAFFIC_SOURCE, 1), "traffic_low");
    assert_eq!(multilevel_source(TRAFFIC_SOURCE, 2), "traffic_medium");
    assert_eq!(multilevel_source(TRAFFIC_SOURCE, 3), "traffic_high");
    assert_eq!(multilevel_source(AIR_QUALITY_SOURCE, 1), "pm2_low");
    assert_eq!(multilevel_source(AIR_QUALITY_SOURCE, 2), "pm2_medium");
    assert_eq!(multilevel_source(AIR_QUALITY_SOURCE, 3), "pm2_high");
}

#[test]
fn multilevel_source_other_levels_and_sources() {
    assert_eq!(multilevel_source("pm2", 0), "pm2");
    assert_eq!(multilevel_source("pm2", 4), "pm2");
    assert_eq!(multilevel_source("traffic", -1), "traffic");
    assert_eq!(multilevel_source("comf_n", 2), "comf_n");
    assert_eq!(multilevel_source("", 1), "");
}

#[test]
fn leveled_name_starts_with_source() {
    for level in -2..6 {
        for source in ["traffic", "pm2", "walk_n"] {
            assert!(multilevel_source(source, level).starts_with(source));
        }
    }
}

#[test]
fn infrastructure_class_from_highway() {
    assert_eq!(InfrastructureClass::from("cycleway"), InfrastructureClass::Cycling);
    assert_eq!(InfrastructureClass::from("cycle_crossing"), InfrastructureClass::Cycling);
    assert_eq!(InfrastructureClass::from("footpath"), InfrastructureClass::Pedestrian);
    assert_eq!(InfrastructureClass::from("foot_crossing"), InfrastructureClass::Pedestrian);
    assert_eq!(InfrastructureClass::from("tertiary_link"), InfrastructureClass::Road);
    assert_eq!(InfrastructureClass::from("primary"), InfrastructureClass::Road);
    assert_eq!(InfrastructureClass::from("steps"), InfrastructureClass::Steps);
    assert_eq!(InfrastructureClass::from("residential"), InfrastructureClass::Mixed);
    assert_eq!(InfrastructureClass::from("motorway"), InfrastructureClass::Mixed);
    assert_eq!(InfrastructureClass::from(""), InfrastructureClass::Mixed);
    assert_eq!(InfrastructureClass::from("Steps"), InfrastructureClass::Mixed);
}

#[test]
fn infrastructure_class_names() {
    assert_eq!(InfrastructureClass::Cycling.as_str(), "cycling");
    assert_eq!(InfrastructureClass::Mixed.as_str(), "mixed");
    assert_eq!(InfrastructureClass::Pedestrian.as_str(), "pedestrian");
    assert_eq!(InfrastructureClass::Road.as_str(), "road");
    assert_eq!(InfrastructureClass::Steps.as_str(), "steps");
}

#[test]
fn infrastructure_class_round_trip() {
    for class in [
        InfrastructureClass::Cycling,
        InfrastructureClass::Mixed,
        InfrastructureClass::Pedestrian,
        InfrastructureClass::Road,
        InfrastructureClass::Steps,
    ] {
        assert_eq!(InfrastructureClass::from(class.as_str()), class);
    }
}

#[test]
fn vehicle_kind_names() {
    assert_eq!(VehicleKind::Pedestrian.as_str(), "pedestrian");
    assert_eq!(VehicleKind::Bike.as_str(), "bike");
    assert_eq!(VehicleKind::Ebike.as_str(), "ebike");
    assert_eq!(VehicleKind::Scooter.as_str(), "scooter");
}

#[test]
fn vehicle_kind_from_name() {
    assert_eq!(VehicleKind::from("bike"), VehicleKind::Bike);
    assert_eq!(VehicleKind::from("ebike"), VehicleKind::Ebike);
    assert_eq!(VehicleKind::from("scooter"), VehicleKind::Scooter);
    assert_eq!(VehicleKind::from("none"), VehicleKind::Pedestrian);
}

#[test]
fn vehicle_kind_round_trip_but_walking() {
    for kind in [VehicleKind::Bike, VehicleKind::Ebike, VehicleKind::Scooter] {
        assert_eq!(VehicleKind::from(kind.as_str()), kind);
    }
    assert_ne!(VehicleKind::Pedestrian.as_str(), "none");
}

#[test]
fn text_helpers() {
    assert!(str_eq("abc", "abc"));
    assert!(!str_eq("abc", "abd"));
    assert!(!str_eq("abc", "ab"));
    assert!(str_eq("", ""));
    assert!(str_eq("ÈªëÈ£é", "ÈªëÈ£é"));
    assert_eq!(concat2("pm2", "_low"), "pm2_low");
    assert_eq!(bool_str(true), "true");
    assert_eq!(bool_str(false), "false");
}

#[test]
fn decimal_text_of_integers() {
    for v in [0i64, 7, 10, 42, 120, -1, -120, 1234567890, i64::MAX, i64::MIN] {
        assert_eq!(decimal_string(v), format!("{}", v));
    }
}
