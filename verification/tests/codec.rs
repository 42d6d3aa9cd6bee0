use vessel_telemetry::coordinates::{decode_route, encode_route, Coordinates};
use vessel_telemetry::json::{Json, Member};
use vessel_telemetry::number::Real;

fn num(x: f64) -> Real {
    Real::from_bits(x.to_bits())
}

fn object(members: Vec<(&str, Json)>) -> Json {
    Json::Object(
        members.into_iter().map(|(key, value)| Member { key: key.to_string(), value }).collect(),
    )
}

fn point(latitude: f64, longitude: f64) -> Coordinates {
    Coordinates::new(num(latitude), num(longitude))
}

#[test]
fn round_trip_of_a_coordinate() {
    let c = point(52.0, -1.0);
    assert_eq!(Coordinates::decode(&c.encode()), Some(c));
}

#[test]
fn round_trip_keeps_the_sign_of_zero() {
    let c = point(-0.0, 0.0);
    let back = Coordinates::decode(&c.encode()).unwrap();
    assert_eq!(back.latitude.to_bits(), (-0.0f64).to_bits());
    assert_eq!(back.longitude.to_bits(), 0.0f64.to_bits());
}

#[test]
fn encoding_is_an_object_of_latitude_and_longitude() {
    let doc = point(52.0, -1.0).encode();
    assert_eq!(
        doc,
        object(vec![("latitude", Json::Number(num(52.0))), ("longitude", Json::Number(num(-1.0)))])
    );
}

#[test]
fn encoding_writes_null_for_what_is_not_finite() {
    let doc = point(f64::NAN, f64::INFINITY).encode();
    assert_eq!(doc, object(vec![("latitude", Json::Null), ("longitude", Json::Null)]));
    assert_eq!(Coordinates::decode(&doc), None);
    assert!(!point(f64::NAN, 1.0).is_valid());
    assert!(!point(1.0, f64::NEG_INFINITY).is_valid());
    assert!(point(1.0, -1.0).is_valid());
}

#[test]
fn finite_is_read_off_the_exponent() {
    assert!(num(0.0).is_finite());
    assert!(num(f64::MAX).is_finite());
    assert!(num(f64::MIN_POSITIVE / 2.0).is_finite());
    assert!(!num(f64::INFINITY).is_finite());
    assert!(!num(f64::NEG_INFINITY).is_finite());
    assert!(!num(f64::NAN).is_finite());
}

#[test]
fn decoding_accepts_the_short_names() {
    let doc = object(vec![("lat", Json::Number(num(1.5))), ("lng", Json::Number(num(2.5)))]);
    assert_eq!(Coordinates::decode(&doc), Some(point(1.5, 2.5)));
    let mixed = object(vec![("lng", Json::Number(num(2.5))), ("latitude", Json::Number(num(1.5)))]);
    assert_eq!(Coordinates::decode(&mixed), Some(point(1.5, 2.5)));
}

#[test]
fn decoding_passes_over_other_members() {
    let doc = object(vec![
        ("altitude", Json::Number(num(9.0))),
        ("latitude", Json::Number(num(1.5))),
        ("note", Json::Text("buoy".to_string())),
        ("longitude", Json::Number(num(2.5))),
    ]);
    assert_eq!(Coordinates::decode(&doc), Some(point(1.5, 2.5)));
}

#[test]
fn decoding_accepts_an_array_of_two_numbers() {
    let doc = Json::Array(vec![Json::Number(num(1.5)), Json::Number(num(2.5))]);
    assert_eq!(Coordinates::decode(&doc), Some(point(1.5, 2.5)));
    let short = Json::Array(vec![Json::Number(num(1.5))]);
    assert_eq!(Coordinates::decode(&short), None);
    let long = Json::Array(vec![
        Json::Number(num(1.5)),
        Json::Number(num(2.5)),
        Json::Number(num(3.5)),
    ]);
    assert_eq!(Coordinates::decode(&long), None);
}

#[test]
fn decoding_refuses_a_missing_field() {
    let doc = object(vec![("latitude", Json::Number(num(1.5)))]);
    assert_eq!(Coordinates::decode(&doc), None);
    assert_eq!(Coordinates::decode(&object(vec![])), None);
}

#[test]
fn decoding_refuses_a_field_given_twice() {
    let doc = object(vec![
        ("latitude", Json::Number(num(1.5))),
        ("lat", Json::Number(num(1.5))),
        ("longitude", Json::Number(num(2.5))),
    ]);
    assert_eq!(Coordinates::decode(&doc), None);
}

#[test]
fn decoding_refuses_what_is_not_a_number() {
    let doc =
        object(vec![("latitude", Json::Text("1.5".to_string())), ("longitude", Json::Number(num(2.5)))]);
    assert_eq!(Coordinates::decode(&doc), None);
    let null = object(vec![("latitude", Json::Null), ("longitude", Json::Number(num(2.5)))]);
    assert_eq!(Coordinates::decode(&null), None);
}

#[test]
fn decoding_refuses_other_documents() {
    assert_eq!(Coordinates::decode(&Json::Null), None);
    assert_eq!(Coordinates::decode(&Json::Bool(true)), None);
    assert_eq!(Coordinates::decode(&Json::Number(num(1.0))), None);
    assert_eq!(Coordinates::decode(&Json::Text("52,-1".to_string())), None);
}

#[test]
fn round_trip_of_a_route() {
    let route = vec![point(52.0, -1.0), point(52.1, -1.1)];
    let doc = encode_route(&route);
    assert_eq!(doc, Json::Array(vec![route[0].encode(), route[1].encode()]));
    assert_eq!(decode_route(&doc), Some(route));
}

#[test]
fn round_trip_of_the_empty_route() {
    let doc = encode_route(&vec![]);
    assert_eq!(doc, Json::Array(vec![]));
    assert_eq!(decode_route(&doc), Some(vec![]));
}

#[test]
fn one_bad_point_fails_the_route() {
    let doc = Json::Array(vec![
        point(52.0, -1.0).encode(),
        object(vec![("latitude", Json::Number(num(1.0)))]),
        point(52.1, -1.1).encode(),
    ]);
    assert_eq!(decode_route(&doc), None);
    assert_eq!(decode_route(&point(52.0, -1.0).encode()), None);
}

#[test]
fn a_copy_of_a_document_is_the_same_document() {
    let doc = Json::Array(vec![
        point(52.0, -1.0).encode(),
        Json::Null,
        Json::Bool(false),
        Json::Text("x".to_string()),
    ]);
    assert_eq!(doc.clone(), doc);
}
