use vessel_telemetry::api::data::{
    get_csv, get_data, get_json, post_data, DataQuery, DataValuesOutput, FormatType, Layer,
};
use vessel_telemetry::api::gps::{add_gps, get_gps, get_gps_response, GPSQuery, GPSValues};
use vessel_telemetry::api::paths::{
    get_path, get_path_response, get_paths, register_path, register_path_as,
    register_path_response, PathDataCoords, PathResponse, PathValues,
};
use vessel_telemetry::api::trips::{
    get_trips, start_trip, start_trip_as, start_trip_response, TripResponse, TripValues,
};
use vessel_telemetry::clock::{OffsetDateTime, UtcOffset};
use vessel_telemetry::coordinates::Coordinates;
use vessel_telemetry::error::Error;
use vessel_telemetry::export::Cell;
use vessel_telemetry::ident::Uuid;
use vessel_telemetry::json::{Json, Member};
use vessel_telemetry::memory::{DataRow, MemoryStorage};
use vessel_telemetry::number::Real;
use vessel_telemetry::storage::{Rows, Statement, StorageError};

fn num(x: f64) -> Real {
    Real::from_bits(x.to_bits())
}

fn point(latitude: f64, longitude: f64) -> Coordinates {
    Coordinates::new(num(latitude), num(longitude))
}

fn object(members: Vec<(&str, Json)>) -> Json {
    Json::Object(
        members.into_iter().map(|(key, value)| Member { key: key.to_string(), value }).collect(),
    )
}

fn at(seconds: i64) -> OffsetDateTime {
    OffsetDateTime::from_unix_timestamp(seconds, 0)
}

fn harbor_loop() -> Json {
    object(vec![
        ("name", Json::Text("Harbor Loop".to_string())),
        ("path", Json::Array(vec![point(52.0, -1.0).encode(), point(52.1, -1.1).encode()])),
    ])
}

fn trip_body(path: Uuid) -> Json {
    let text = uuid::Uuid::from_u128(path.as_u128()).to_string();
    object(vec![("path", Json::Text(text))])
}

fn reading_body(temperature: f64, layer: &str, trip: Uuid) -> Json {
    object(vec![
        ("temperature", Json::Number(num(temperature))),
        ("location", point(52.0, -1.0).encode()),
        ("depth", Json::Number(num(3.0))),
        ("layer", Json::Text(layer.to_string())),
        ("trip", Json::Text(uuid::Uuid::from_u128(trip.as_u128()).to_string())),
    ])
}

/// A storage with one path and one trip on it.
fn with_one_trip() -> (MemoryStorage, Uuid, Uuid) {
    let mut storage = MemoryStorage::new();
    let path = Uuid::from_u128(1);
    let trip = Uuid::from_u128(2);
    assert_eq!(
        storage.execute(register_path_as(&harbor_loop(), path).unwrap(), at(0)),
        Ok(Rows::Inserted)
    );
    assert_eq!(
        storage.execute(start_trip_as(&trip_body(path), trip).unwrap(), at(10)),
        Ok(Rows::Inserted)
    );
    (storage, path, trip)
}

#[test]
fn harbor_loop_is_registered_and_read_back() {
    let mut storage = MemoryStorage::new();
    let statement = register_path(&harbor_loop()).unwrap();
    let uuid = match &statement {
        Statement::InsertPath { uuid, .. } => *uuid,
        other => panic!("{:?}", other),
    };
    let outcome = storage.execute(statement, at(0)).map(|_| ());
    assert_eq!(register_path_response(uuid, outcome), Ok(PathResponse { uuid }));
    let row = match storage.execute(get_path(uuid), at(1)) {
        Ok(Rows::Path(row)) => Ok(row),
        Ok(other) => panic!("{:?}", other),
        Err(e) => Err(e),
    };
    assert_eq!(
        get_path_response(row),
        Ok(PathDataCoords {
            name: "Harbor Loop".to_string(),
            path: vec![point(52.0, -1.0), point(52.1, -1.1)],
        })
    );
    assert_eq!(
        storage.execute(get_paths(), at(2)),
        Ok(Rows::Paths(vec![PathValues { name: "Harbor Loop".to_string(), uuid }]))
    );
}

#[test]
fn path_that_was_never_registered_is_missing() {
    let (mut storage, _, _) = with_one_trip();
    let outcome = match storage.execute(get_path(Uuid::from_u128(77)), at(1)) {
        Ok(Rows::Path(row)) => Ok(row),
        Ok(other) => panic!("{:?}", other),
        Err(e) => Err(e),
    };
    assert_eq!(outcome, Err(StorageError::MissingReference));
    assert_eq!(get_path_response(outcome), Err(Error::NotFoundReference));
}

#[test]
fn trip_on_a_missing_path_fails_and_writes_nothing() {
    let (mut storage, _, _) = with_one_trip();
    let (untouched, _, _) = with_one_trip();
    let statement = start_trip(&trip_body(Uuid::from_u128(404))).unwrap();
    let uuid = match &statement {
        Statement::InsertTrip { uuid, .. } => *uuid,
        other => panic!("{:?}", other),
    };
    let outcome = storage.execute(statement, at(20)).map(|_| ());
    assert_eq!(outcome, Err(StorageError::MissingReference));
    assert_eq!(start_trip_response(uuid, outcome), Err(Error::NotFoundReference));
    assert_eq!(storage, untouched);
}

#[test]
fn trip_on_an_existing_path_is_started_now() {
    let (mut storage, path, trip) = with_one_trip();
    let second = Uuid::from_u128(3);
    let outcome = storage.execute(start_trip_as(&trip_body(path), second).unwrap(), at(30));
    assert_eq!(start_trip_response(second, outcome.map(|_| ())), Ok(TripResponse { uuid: second }));
    assert_eq!(
        storage.execute(get_trips(), at(40)),
        Ok(Rows::Trips(vec![
            TripValues { uuid: trip, time: at(10), path },
            TripValues { uuid: second, time: at(30), path },
        ]))
    );
}

#[test]
fn identifier_that_is_taken_is_refused() {
    let (mut storage, path, trip) = with_one_trip();
    let (untouched, _, _) = with_one_trip();
    assert_eq!(
        storage.execute(register_path_as(&harbor_loop(), path).unwrap(), at(50)),
        Err(StorageError::Unavailable)
    );
    assert_eq!(
        storage.execute(start_trip_as(&trip_body(path), trip).unwrap(), at(50)),
        Err(StorageError::Unavailable)
    );
    assert_eq!(storage, untouched);
}

#[test]
fn reading_with_an_unknown_layer_reaches_no_storage() {
    let (storage, _, trip) = with_one_trip();
    let (untouched, _, _) = with_one_trip();
    assert_eq!(post_data(&reading_body(12.5, "lake bottom", trip)), Err(Error::Validation));
    assert_eq!(storage, untouched);
}

#[test]
fn reading_of_a_missing_trip_is_refused() {
    let (mut storage, _, _) = with_one_trip();
    let (untouched, _, _) = with_one_trip();
    let statement = post_data(&reading_body(12.5, "surface", Uuid::from_u128(404))).unwrap();
    assert_eq!(storage.execute(statement, at(20)), Err(StorageError::MissingReference));
    assert_eq!(storage, untouched);
}

#[test]
fn readings_are_listed_by_trip_in_the_order_of_insertion() {
    let (mut storage, path, trip) = with_one_trip();
    let other = Uuid::from_u128(3);
    storage.execute(start_trip_as(&trip_body(path), other).unwrap(), at(11)).unwrap();
    for (seconds, temperature, layer, of) in [
        (30, 12.5, "surface", trip),
        (20, 9.0, "middle", other),
        (25, 11.0, "sea bed", trip),
    ] {
        let statement = post_data(&reading_body(temperature, layer, of)).unwrap();
        assert_eq!(storage.execute(statement, at(seconds)), Ok(Rows::Inserted));
    }
    let query = DataQuery::parse(None, None).unwrap();
    let rows = match storage.execute(get_data(&query, trip), at(40)) {
        Ok(Rows::Data(rows)) => rows,
        other => panic!("{:?}", other),
    };
    assert_eq!(
        get_json(rows),
        Ok(vec![
            DataValuesOutput {
                temperature: num(12.5),
                location: point(52.0, -1.0),
                depth: num(3.0),
                layer: Layer::Surface,
                time: at(30),
            },
            DataValuesOutput {
                temperature: num(11.0),
                location: point(52.0, -1.0),
                depth: num(3.0),
                layer: Layer::SeaBed,
                time: at(25),
            },
        ])
    );
    let none = match storage.execute(get_data(&query, Uuid::from_u128(404)), at(40)) {
        Ok(Rows::Data(rows)) => rows,
        other => panic!("{:?}", other),
    };
    assert_eq!(get_json(none), Ok(vec![]));
}

#[test]
fn csv_joins_each_reading_with_the_name_of_its_path() {
    let (mut storage, _, trip) = with_one_trip();
    let statement = post_data(&reading_body(12.5, "sea bed", trip)).unwrap();
    storage.execute(statement, at(86_399)).unwrap();
    let query = DataQuery::parse(Some("csv"), Some("-1")).unwrap();
    assert_eq!(query.format, FormatType::CSV);
    let rows = match storage.execute(get_data(&query, trip), at(90_000)) {
        Ok(Rows::DataRecords(rows)) => rows,
        other => panic!("{:?}", other),
    };
    let document = get_csv(rows, query.offset).unwrap();
    assert_eq!(document.records.len(), 2);
    assert_eq!(
        document.records[1],
        vec![
            Cell::Number(num(12.5)),
            Cell::Number(num(52.0)),
            Cell::Number(num(-1.0)),
            Cell::Number(num(3.0)),
            Cell::Text("sea bed".to_string()),
            Cell::Text("Harbor Loop".to_string()),
            Cell::Text("01/01/1970 22:59:59 -01".to_string()),
        ]
    );
}

#[test]
fn csv_of_a_trip_without_readings_is_the_header_alone() {
    let (mut storage, _, trip) = with_one_trip();
    let query = DataQuery::parse(Some("CSV"), None).unwrap();
    for of in [trip, Uuid::from_u128(404)] {
        let rows = match storage.execute(get_data(&query, of), at(90_000)) {
            Ok(Rows::DataRecords(rows)) => rows,
            other => panic!("{:?}", other),
        };
        let document = get_csv(rows, UtcOffset::utc()).unwrap();
        assert_eq!(document.records.len(), 1);
        assert_eq!(document.records[0][5], Cell::Text("trip".to_string()));
    }
}

fn history(storage: &mut MemoryStorage, count: Option<i64>) -> Result<Vec<i64>, Error> {
    let rows = match storage.execute(get_gps(&GPSQuery::new(count)), at(1_000_000)) {
        Ok(Rows::History(rows)) => rows,
        Ok(other) => panic!("{:?}", other),
        Err(e) => return Err(e.report()),
    };
    get_gps_response(rows).map(|positions| positions.iter().map(|p| p.time.seconds).collect())
}

#[test]
fn history_without_a_count_is_the_100_newest() {
    let mut storage = MemoryStorage::new();
    for seconds in 0..150 {
        let statement = add_gps(&point(52.0, -1.0).encode()).unwrap();
        assert_eq!(storage.execute(statement, at(seconds)), Ok(Rows::Inserted));
    }
    let expected: Vec<i64> = (50..150).rev().collect();
    assert_eq!(history(&mut storage, None), Ok(expected));
}

#[test]
fn history_with_a_count_is_that_many_of_the_newest() {
    let mut storage = MemoryStorage::new();
    for seconds in [5, 1, 9, 3, 7] {
        let statement = add_gps(&point(52.0, -1.0).encode()).unwrap();
        storage.execute(statement, at(seconds)).unwrap();
    }
    assert_eq!(history(&mut storage, Some(0)), Ok(vec![]));
    assert_eq!(history(&mut storage, Some(3)), Ok(vec![9, 7, 5]));
    assert_eq!(history(&mut storage, Some(5)), Ok(vec![9, 7, 5, 3, 1]));
    assert_eq!(history(&mut storage, Some(i64::MAX)), Ok(vec![9, 7, 5, 3, 1]));
    assert_eq!(history(&mut storage, None), Ok(vec![9, 7, 5, 3, 1]));
}

#[test]
fn history_with_a_negative_count_fails() {
    let mut storage = MemoryStorage::new();
    assert_eq!(storage.select_history(-1), Err(StorageError::Unavailable));
    assert_eq!(history(&mut storage, Some(-1)), Err(Error::Storage));
}

#[test]
fn history_is_kept_in_the_order_of_its_instants() {
    let mut storage = MemoryStorage::new();
    storage.insert_history(point(1.0, 1.0).encode(), at(20));
    storage.insert_history(point(2.0, 2.0).encode(), at(10));
    storage.insert_history(point(3.0, 3.0).encode(), at(20));
    storage.insert_history(point(4.0, 4.0).encode(), OffsetDateTime::from_unix_timestamp(10, 1));
    assert_eq!(
        storage.history,
        vec![
            GPSValues { location: point(2.0, 2.0).encode(), time: at(10) },
            GPSValues {
                location: point(4.0, 4.0).encode(),
                time: OffsetDateTime::from_unix_timestamp(10, 1),
            },
            GPSValues { location: point(1.0, 1.0).encode(), time: at(20) },
            GPSValues { location: point(3.0, 3.0).encode(), time: at(20) },
        ]
    );
}

#[test]
fn rows_are_found_by_their_identifiers() {
    let (mut storage, path, trip) = with_one_trip();
    assert_eq!(storage.find_path(path), Some(0));
    assert_eq!(storage.find_path(trip), None);
    assert_eq!(storage.find_trip(trip), Some(0));
    assert_eq!(storage.find_trip(path), None);
    let row = DataRow {
        temperature: num(1.0),
        location: Json::Null,
        depth: num(2.0),
        layer: Layer::Middle,
        trip,
        time: at(5),
    };
    assert_eq!(storage.insert_data(row), Ok(()));
    assert_eq!(storage.select_data(trip).len(), 1);
    assert_eq!(storage.select_data_records(trip)[0].name, "Harbor Loop");
    assert_eq!(get_json(storage.select_data(trip)), Err(Error::Decode));
}
