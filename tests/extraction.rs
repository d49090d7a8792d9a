use dart_positions::feed::{
    collect_records, get_dart_route, FeedEntity, Position, TripDescriptor, VehiclePosition,
    VehicleRecord,
};

fn position(latitude: f32, longitude: f32) -> Position {
    Position::from_bits(latitude.to_bits(), longitude.to_bits())
}

fn entity(route: Option<&str>, trip: bool, pos: Option<Position>) -> FeedEntity {
    let trip = if trip {
        Some(TripDescriptor { route_id: route.map(|r| r.to_string()) })
    } else {
        None
    };
    FeedEntity { vehicle: Some(VehiclePosition { trip, position: pos }) }
}

#[test]
fn missing_vehicle_yields_no_record() {
    assert_eq!(get_dart_route(&FeedEntity { vehicle: None }), None);
}

#[test]
fn missing_trip_yields_no_record() {
    let e = entity(None, false, Some(position(32.78, -96.8)));
    assert_eq!(get_dart_route(&e), None);
}

#[test]
fn missing_route_id_yields_no_record() {
    let e = entity(None, true, Some(position(32.78, -96.8)));
    assert_eq!(get_dart_route(&e), None);
}

#[test]
fn missing_position_yields_no_record() {
    let e = entity(Some("583"), true, None);
    assert_eq!(get_dart_route(&e), None);
}

#[test]
fn full_entity_yields_exact_record() {
    let e = entity(Some("583"), true, Some(position(32.7767, -96.797)));
    let r = get_dart_route(&e).unwrap();
    assert_eq!(r.route, "583");
    assert_eq!(f32::from_bits(r.position.latitude_bits), 32.7767f32);
    assert_eq!(f32::from_bits(r.position.longitude_bits), -96.797f32);
}

#[test]
fn extraction_keeps_unusual_float_bits() {
    let odd = Position::from_bits(f32::NAN.to_bits() | 1, (-0.0f32).to_bits());
    let e = entity(Some(""), true, Some(odd));
    let r = get_dart_route(&e).unwrap();
    assert_eq!(r.route, "");
    assert_eq!(r.position, odd);
}

#[test]
fn collect_records_keeps_order_and_skips_incomplete() {
    let entities = vec![
        entity(Some("1"), true, Some(position(1.0, 2.0))),
        FeedEntity { vehicle: None },
        entity(Some("2"), true, None),
        entity(Some("3"), true, Some(position(3.0, 4.0))),
        entity(None, true, Some(position(5.0, 6.0))),
    ];
    let records = collect_records(&entities);
    assert_eq!(
        records,
        vec![
            VehicleRecord { route: "1".to_string(), position: position(1.0, 2.0) },
            VehicleRecord { route: "3".to_string(), position: position(3.0, 4.0) },
        ]
    );
}

#[test]
fn collect_records_of_no_entities_is_empty() {
    assert!(collect_records(&Vec::new()).is_empty());
}
