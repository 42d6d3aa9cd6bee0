use vessel_telemetry::api::data::{
    get_csv, get_data, get_json, header, post_data, DataInput, DataQuery, DataRecord,
    DataRecordOutput, DataValues, DataValuesOutput, FormatType, Layer,
};
use vessel_telemetry::clock::{OffsetDateTime, UtcOffset};
use vessel_telemetry::coordinates::Coordinates;
use vessel_telemetry::error::Error;
use vessel_telemetry::export::Cell;
use vessel_telemetry::ident::Uuid;
use vessel_telemetry::json::{Json, Member};
use vessel_telemetry::number::Real;
use vessel_telemetry::storage::Statement;

const TRIP: &str = "67e55044-10b1-426f-9247-bb680e5fe0c8";

fn num(x: f64) -> Real {
    Real::from_bits(x.to_bits())
}

fn number(x: f64) -> Json {
    Json::Number(num(x))
}

fn text(s: &str) -> Json {
    Json::Text(s.to_string())
}

fn object(members: Vec<(&str, Json)>) -> Json {
    Json::Object(
        members.into_iter().map(|(key, value)| Member { key: key.to_string(), value }).collect(),
    )
}

fn point(latitude: f64, longitude: f64) -> Coordinates {
    Coordinates::new(num(latitude), num(longitude))
}

fn offset(hours: i8) -> UtcOffset {
    UtcOffset::from_hours(hours).unwrap()
}

fn trip() -> Uuid {
    Uuid::parse_str(TRIP).unwrap()
}

fn record(temperature: f64, location: Json, name: &str, layer: Layer, seconds: i64) -> DataRecord {
    DataRecord {
        temperature: num(temperature),
        location,
        depth: num(3.5),
        name: name.to_string(),
        layer,
        time: OffsetDateTime::from_unix_timestamp(seconds, 0),
    }
}

fn header_cells() -> Vec<Cell> {
    ["temperature", "latitude", "longitude", "depth", "layer", "trip", "time"]
        .iter()
        .map(|name| Cell::Text(name.to_string()))
        .collect()
}

fn body(layer: Json) -> Json {
    object(vec![
        ("temperature", number(12.5)),
        ("location", object(vec![("lat", number(52.0)), ("lng", number(-1.0))])),
        ("depth", number(3.0)),
        ("layer", layer),
        ("trip", text(TRIP)),
    ])
}

#[test]
fn csv_is_selected_in_any_case() {
    for value in ["csv", "CSV", "CsV", "Csv", "cSv", "csV", "CSv", "cSV"] {
        assert_eq!(FormatType::parse(value), FormatType::CSV);
    }
}

#[test]
fn anything_else_selects_json() {
    for value in ["", "json", "JSON", "xml", "csv ", " csv", "csvx", "cs", "c\u{017f}v", "tsv"] {
        assert_eq!(FormatType::parse(value), FormatType::JSON);
    }
    assert_eq!(FormatType::default(), FormatType::JSON);
}

#[test]
fn query_defaults_to_json_at_utc() {
    let query = DataQuery::parse(None, None).unwrap();
    assert_eq!(query.format, FormatType::JSON);
    assert_eq!(query.offset, UtcOffset::utc());
    assert_eq!(DataQuery::offset_default(), UtcOffset::utc());
}

#[test]
fn query_reads_format_and_offset() {
    let query = DataQuery::parse(Some("CsV"), Some("-7")).unwrap();
    assert_eq!(query.format, FormatType::CSV);
    assert_eq!(query.offset, offset(-7));
    let plain = DataQuery::parse(Some("yaml"), Some("+08")).unwrap();
    assert_eq!(plain.format, FormatType::JSON);
    assert_eq!(plain.offset, offset(8));
}

#[test]
fn query_with_an_unreadable_offset_is_refused() {
    assert_eq!(DataQuery::parse(Some("csv"), Some("east")), Err(Error::Validation));
    assert_eq!(DataQuery::parse(None, Some("")), Err(Error::Validation));
    assert_eq!(DataQuery::parse(None, Some("30")), Err(Error::Validation));
}

#[test]
fn layers_have_three_labels() {
    assert_eq!(Layer::Surface.label(), "surface");
    assert_eq!(Layer::Middle.label(), "middle");
    assert_eq!(Layer::SeaBed.label(), "sea bed");
    for layer in [Layer::Surface, Layer::Middle, Layer::SeaBed] {
        assert_eq!(Layer::parse(layer.label()), Some(layer));
    }
}

#[test]
fn other_layers_are_refused() {
    for value in ["lake bottom", "", "Surface", "SURFACE", "seabed", "sea_bed", "sea bed ", "SeaBed"] {
        assert_eq!(Layer::parse(value), None);
    }
}

#[test]
fn request_reads_readings_for_json_and_records_for_csv() {
    let json = DataQuery { format: FormatType::JSON, offset: offset(3) };
    assert_eq!(get_data(&json, trip()), Statement::SelectData { trip: trip() });
    let csv = DataQuery { format: FormatType::CSV, offset: offset(3) };
    assert_eq!(get_data(&csv, trip()), Statement::SelectDataRecords { trip: trip() });
}

#[test]
fn json_projects_every_row_in_order() {
    let rows = vec![
        DataValues {
            temperature: num(12.5),
            location: point(52.0, -1.0).encode(),
            depth: num(3.0),
            layer: Layer::Surface,
            time: OffsetDateTime::from_unix_timestamp(10, 5),
        },
        DataValues {
            temperature: num(11.0),
            location: Json::Array(vec![number(52.1), number(-1.1)]),
            depth: num(30.0),
            layer: Layer::SeaBed,
            time: OffsetDateTime::from_unix_timestamp(20, 0),
        },
    ];
    let readings = get_json(rows).unwrap();
    assert_eq!(
        readings,
        vec![
            DataValuesOutput {
                temperature: num(12.5),
                location: point(52.0, -1.0),
                depth: num(3.0),
                layer: Layer::Surface,
                time: OffsetDateTime::from_unix_timestamp(10, 5),
            },
            DataValuesOutput {
                temperature: num(11.0),
                location: point(52.1, -1.1),
                depth: num(30.0),
                layer: Layer::SeaBed,
                time: OffsetDateTime::from_unix_timestamp(20, 0),
            },
        ]
    );
}

#[test]
fn json_of_no_rows_is_empty() {
    assert_eq!(get_json(vec![]), Ok(vec![]));
}

#[test]
fn json_fails_as_a_whole_on_one_bad_location() {
    let rows = vec![
        DataValues {
            temperature: num(12.5),
            location: point(52.0, -1.0).encode(),
            depth: num(3.0),
            layer: Layer::Surface,
            time: OffsetDateTime::from_unix_timestamp(10, 0),
        },
        DataValues {
            temperature: num(11.0),
            location: text("somewhere"),
            depth: num(30.0),
            layer: Layer::Middle,
            time: OffsetDateTime::from_unix_timestamp(20, 0),
        },
    ];
    assert_eq!(get_json(rows), Err(Error::Decode));
}

#[test]
fn projection_of_one_row() {
    let row = DataValues {
        temperature: num(1.0),
        location: point(2.0, 3.0).encode(),
        depth: num(4.0),
        layer: Layer::Middle,
        time: OffsetDateTime::from_unix_timestamp(5, 6),
    };
    assert_eq!(
        DataValuesOutput::try_from(row),
        Ok(DataValuesOutput {
            temperature: num(1.0),
            location: point(2.0, 3.0),
            depth: num(4.0),
            layer: Layer::Middle,
            time: OffsetDateTime::from_unix_timestamp(5, 6),
        })
    );
    let bad = DataValues {
        temperature: num(1.0),
        location: Json::Null,
        depth: num(4.0),
        layer: Layer::Middle,
        time: OffsetDateTime::from_unix_timestamp(5, 6),
    };
    assert_eq!(DataValuesOutput::try_from(bad), Err(Error::Decode));
}

#[test]
fn record_is_flattened() {
    let row = record(12.5, point(52.0, -1.0).encode(), "Harbor Loop", Layer::SeaBed, 0);
    assert_eq!(
        DataRecordOutput::try_from(row),
        Ok(DataRecordOutput {
            temperature: num(12.5),
            latitude: num(52.0),
            longitude: num(-1.0),
            depth: num(3.5),
            name: "Harbor Loop".to_string(),
            layer: Layer::SeaBed,
            time: OffsetDateTime::from_unix_timestamp(0, 0),
        })
    );
    let bad = record(12.5, Json::Bool(false), "Harbor Loop", Layer::SeaBed, 0);
    assert_eq!(DataRecordOutput::try_from(bad), Err(Error::Decode));
}

#[test]
fn record_is_laid_out_in_the_columns_of_the_header() {
    let out = DataRecordOutput {
        temperature: num(12.5),
        latitude: num(52.0),
        longitude: num(-1.0),
        depth: num(3.5),
        name: "Harbor Loop".to_string(),
        layer: Layer::SeaBed,
        time: OffsetDateTime::from_unix_timestamp(0, 0).to_offset(offset(2)),
    };
    assert_eq!(
        out.into_record(),
        Ok(vec![
            Cell::Number(num(12.5)),
            Cell::Number(num(52.0)),
            Cell::Number(num(-1.0)),
            Cell::Number(num(3.5)),
            Cell::Text("sea bed".to_string()),
            Cell::Text("Harbor Loop".to_string()),
            Cell::Text("01/01/1970 02:00:00 +02".to_string()),
        ])
    );
    assert_eq!(header(), header_cells());
}

#[test]
fn csv_of_no_rows_is_the_header_alone() {
    for hours in [-25i8, -5, 0, 5, 25] {
        let document = get_csv(vec![], offset(hours)).unwrap();
        assert_eq!(document.records, vec![header_cells()]);
    }
}

#[test]
fn csv_holds_the_header_and_one_record_for_each_row() {
    let rows = vec![
        record(12.5, point(52.0, -1.0).encode(), "Harbor Loop", Layer::Surface, 0),
        record(11.0, point(52.1, -1.1).encode(), "Harbor, Loop", Layer::SeaBed, 86_399),
    ];
    let document = get_csv(rows, offset(5)).unwrap();
    assert_eq!(
        document.records,
        vec![
            header_cells(),
            vec![
                Cell::Number(num(12.5)),
                Cell::Number(num(52.0)),
                Cell::Number(num(-1.0)),
                Cell::Number(num(3.5)),
                Cell::Text("surface".to_string()),
                Cell::Text("Harbor Loop".to_string()),
                Cell::Text("01/01/1970 05:00:00 +05".to_string()),
            ],
            vec![
                Cell::Number(num(11.0)),
                Cell::Number(num(52.1)),
                Cell::Number(num(-1.1)),
                Cell::Number(num(3.5)),
                Cell::Text("sea bed".to_string()),
                Cell::Text("Harbor, Loop".to_string()),
                Cell::Text("02/01/1970 04:59:59 +05".to_string()),
            ],
        ]
    );
}

#[test]
fn csv_offset_moves_the_timestamp_alone() {
    let rows = |seconds: i64| {
        vec![record(12.5, point(52.0, -1.0).encode(), "Harbor Loop", Layer::Middle, seconds)]
    };
    let at_utc = get_csv(rows(1_709_251_199), UtcOffset::utc()).unwrap().records;
    let west = get_csv(rows(1_709_251_199), offset(-3)).unwrap().records;
    let east = get_csv(rows(1_709_251_199), offset(1)).unwrap().records;
    assert_eq!(at_utc[1][6], Cell::Text("29/02/2024 23:59:59 +00".to_string()));
    assert_eq!(west[1][6], Cell::Text("29/02/2024 20:59:59 -03".to_string()));
    assert_eq!(east[1][6], Cell::Text("01/03/2024 00:59:59 +01".to_string()));
    assert_eq!(at_utc[0], west[0]);
    assert_eq!(at_utc[0], east[0]);
    assert_eq!(at_utc[1][..6], west[1][..6]);
    assert_eq!(at_utc[1][..6], east[1][..6]);
    let moved = get_csv(rows(1_709_251_199 - 3 * 3600), UtcOffset::utc()).unwrap().records;
    assert_eq!(moved[1][6], Cell::Text("29/02/2024 20:59:59 +00".to_string()));
}

#[test]
fn csv_fails_as_a_whole_on_one_bad_location() {
    let rows = vec![
        record(12.5, point(52.0, -1.0).encode(), "Harbor Loop", Layer::Surface, 0),
        record(11.0, object(vec![("latitude", number(1.0))]), "Harbor Loop", Layer::Surface, 1),
        record(10.0, point(52.2, -1.2).encode(), "Harbor Loop", Layer::Surface, 2),
    ];
    assert_eq!(get_csv(rows, offset(0)), Err(Error::Decode));
}

#[test]
fn csv_fails_on_an_instant_without_a_date() {
    let rows = vec![record(12.5, point(52.0, -1.0).encode(), "Harbor Loop", Layer::Surface, i64::MAX)];
    assert_eq!(get_csv(rows, offset(0)), Err(Error::Decode));
    let last = vec![record(1.0, point(1.0, 1.0).encode(), "Harbor Loop", Layer::Surface, 253_402_300_799)];
    assert_eq!(get_csv(last, offset(1)), Err(Error::Decode));
}

#[test]
fn posted_reading_is_inserted_with_its_location_encoded() {
    let statement = post_data(&body(text("sea bed"))).unwrap();
    assert_eq!(
        statement,
        Statement::InsertData {
            temperature: num(12.5),
            location: point(52.0, -1.0).encode(),
            depth: num(3.0),
            layer: Layer::SeaBed,
            trip: trip(),
        }
    );
}

#[test]
fn posted_reading_is_read_from_an_array_too() {
    let array = Json::Array(vec![
        number(12.5),
        Json::Array(vec![number(52.0), number(-1.0)]),
        number(3.0),
        text("middle"),
        text(TRIP),
    ]);
    assert_eq!(
        DataInput::decode(&array),
        Some(DataInput {
            temperature: num(12.5),
            location: point(52.0, -1.0),
            depth: num(3.0),
            layer: Layer::Middle,
            trip: trip(),
        })
    );
}

#[test]
fn post_with_an_unknown_layer_is_rejected() {
    assert_eq!(post_data(&body(text("lake bottom"))), Err(Error::Validation));
    assert_eq!(post_data(&body(text("Surface"))), Err(Error::Validation));
    assert_eq!(post_data(&body(number(1.0))), Err(Error::Validation));
    assert_eq!(post_data(&body(Json::Null)), Err(Error::Validation));
}

#[test]
fn post_with_a_malformed_body_is_rejected() {
    assert_eq!(post_data(&Json::Null), Err(Error::Validation));
    assert_eq!(post_data(&object(vec![])), Err(Error::Validation));
    let no_trip = object(vec![
        ("temperature", number(12.5)),
        ("location", point(52.0, -1.0).encode()),
        ("depth", number(3.0)),
        ("layer", text("middle")),
    ]);
    assert_eq!(post_data(&no_trip), Err(Error::Validation));
    let bad_trip = object(vec![
        ("temperature", number(12.5)),
        ("location", point(52.0, -1.0).encode()),
        ("depth", number(3.0)),
        ("layer", text("middle")),
        ("trip", text("the first one")),
    ]);
    assert_eq!(post_data(&bad_trip), Err(Error::Validation));
    let bad_place = object(vec![
        ("temperature", number(12.5)),
        ("location", object(vec![("lat", number(52.0))])),
        ("depth", number(3.0)),
        ("layer", text("middle")),
        ("trip", text(TRIP)),
    ]);
    assert_eq!(post_data(&bad_place), Err(Error::Validation));
    let text_depth = object(vec![
        ("temperature", number(12.5)),
        ("location", point(52.0, -1.0).encode()),
        ("depth", text("3.0")),
        ("layer", text("middle")),
        ("trip", text(TRIP)),
    ]);
    assert_eq!(post_data(&text_depth), Err(Error::Validation));
}
