//! Collected data: the readings of a trip.

use vstd::prelude::*;
use crate::api::{Method, Operation, RouteView, ServiceConfig};
use crate::clock::{format_timestamp, timestamp_text, utc_reading, OffsetDateTime, UtcOffset};
use crate::coordinates::Coordinates;
use crate::error::Error;
use crate::export::{record_view, Cell, CellValue, CsvDocument};
use crate::ident::Uuid;
use crate::json::{array_view, object_view, find_field, member, same_text, Json, JsonTree};
use crate::number::Real;
use crate::storage::Statement;

verus! {

/// The type of format to respond with.
#[derive(Clone, Copy, Debug, PartialEq, Eq, Structural)]
pub enum FormatType {
    /// The response would be in CSV format.
    CSV,
    /// The response would be in JSON format.
    JSON,
}

/// Whether a character is the given lower-case letter, in either case.
pub open spec fn is_letter(c: char, lower: char, upper: char) -> bool {
    c == lower || c == upper
}

impl FormatType {
    /// The format that a query asks for: CSV where it says `csv`, in
    /// whatever mix of cases; JSON where it says anything else, or nothing.
    pub open spec fn selected(text: Option<Seq<char>>) -> FormatType {
        match text {
            Some(s) => if s.len() == 3 && is_letter(s[0], 'c', 'C') && is_letter(s[1], 's', 'S')
                && is_letter(s[2], 'v', 'V') {
                FormatType::CSV
            } else {
                FormatType::JSON
            },
            None => FormatType::JSON,
        }
    }

    /// Reads the format off the value of the query parameter.
    pub fn parse(text: &str) -> (format: FormatType)
        ensures
            format == FormatType::selected(Some(text@)),
    {
        if text.unicode_len() != 3 {
            return FormatType::JSON;
        }
        let c = text.get_char(0);
        let s = text.get_char(1);
        let v = text.get_char(2);
        if (c == 'c' || c == 'C') && (s == 's' || s == 'S') && (v == 'v' || v == 'V') {
            FormatType::CSV
        } else {
            FormatType::JSON
        }
    }
}

impl Default for FormatType {
    /// FormatType defaults to JSON.
    fn default() -> (format: FormatType)
        ensures
            format == FormatType::JSON,
            format == FormatType::selected(None),
    {
        FormatType::JSON
    }
}

/// The query specification for getting data.
#[derive(Clone, Copy, Debug, PartialEq, Eq, Structural)]
pub struct DataQuery {
    /// The query to specify the format.
    pub format: FormatType,
    /// The query to specify the timezone offset for exported CSV.
    pub offset: UtcOffset,
}

impl DataQuery {
    pub fn offset_default() -> (offset: UtcOffset)
        ensures
            offset.hours == 0,
    {
        UtcOffset::utc()
    }

    /// The offset that a query asks for: UTC where it names none.
    pub open spec fn offset_selected(text: Option<Seq<char>>) -> Option<int> {
        match text {
            Some(s) => crate::clock::written_offset(s),
            None => Some(0),
        }
    }

    /// Reads a query off the values of its two parameters, each of which
    /// may be absent. A format that is not recognised is no error; an
    /// offset that cannot be read is one.
    pub fn parse(format: Option<&str>, offset: Option<&str>) -> (query: Result<DataQuery, Error>)
        ensures
            match query {
                Ok(q) => {
                    &&& q.format == FormatType::selected(
                        match format {
                            Some(s) => Some(s@),
                            None => None,
                        },
                    )
                    &&& DataQuery::offset_selected(
                        match offset {
                            Some(s) => Some(s@),
                            None => None,
                        },
                    ) == Some(q.offset.hours as int)
                    &&& q.offset.wf()
                },
                Err(e) => {
                    &&& e == Error::Validation
                    &&& offset matches Some(s)
                    &&& crate::clock::written_offset(s@) is None
                },
            },
    {
        let format = match format {
            Some(text) => FormatType::parse(text),
            None => FormatType::default(),
        };
        let offset = match offset {
            Some(text) => match UtcOffset::parse(text) {
                Some(offset) => offset,
                None => {
                    return Err(Error::Validation);
                },
            },
            None => DataQuery::offset_default(),
        };
        Ok(DataQuery { format, offset })
    }
}

/// Enumerations for all the water body layers/levels.
#[derive(Clone, Copy, Debug, PartialEq, Eq, Structural)]
pub enum Layer {
    /// The surface of the water body.
    Surface,
    /// The middle of the water body.
    Middle,
    /// The sea bed of the water body.
    SeaBed,
}

impl Layer {
    /// The label under which a layer is exchanged and stored.
    pub open spec fn label_text(self) -> Seq<char> {
        match self {
            Layer::Surface => "surface"@,
            Layer::Middle => "middle"@,
            Layer::SeaBed => "sea bed"@,
        }
    }

    /// The layer that a text names. Only the three labels name one.
    pub open spec fn named(text: Seq<char>) -> Option<Layer> {
        if text == "surface"@ {
            Some(Layer::Surface)
        } else if text == "middle"@ {
            Some(Layer::Middle)
        } else if text == "sea bed"@ {
            Some(Layer::SeaBed)
        } else {
            None
        }
    }

    pub fn label(&self) -> (label: &'static str)
        ensures
            label@ == self.label_text(),
    {
        match self {
            Layer::Surface => "surface",
            Layer::Middle => "middle",
            Layer::SeaBed => "sea bed",
        }
    }

    /// Reads a layer off its label. Any other text is refused.
    pub fn parse(text: &str) -> (layer: Option<Layer>)
        ensures
            layer == Layer::named(text@),
    {
        if same_text(text, "surface") {
            Some(Layer::Surface)
        } else if same_text(text, "middle") {
            Some(Layer::Middle)
        } else if same_text(text, "sea bed") {
            Some(Layer::SeaBed)
        } else {
            None
        }
    }
}

/// A layer is read back from its own label.
pub proof fn layer_label_round_trip(layer: Layer)
    ensures
        Layer::named(layer.label_text()) == Some(layer),
{
    reveal_strlit("surface");
    reveal_strlit("middle");
    reveal_strlit("sea bed");
    assert("surface"@.len() == 7);
    assert("middle"@.len() == 6);
    assert("sea bed"@[0] == 's' && "sea bed"@[1] == 'e');
    assert("surface"@[1] == 'u');
}

/// A reading, as storage holds it.
#[derive(Debug, PartialEq)]
pub struct DataValues {
    /// The temperature measured.
    pub temperature: Real,
    /// The location the data is measured.
    pub location: Json,
    /// The depth the data is measured.
    pub depth: Real,
    /// The layer the data is measured.
    pub layer: Layer,
    /// The time the data is measured.
    pub time: OffsetDateTime,
}

/// A reading, as it is served.
#[derive(Clone, Copy, Debug, PartialEq, Eq, Structural)]
pub struct DataValuesOutput {
    /// The temperature measured.
    pub temperature: Real,
    /// The location the data is measured.
    pub location: Coordinates,
    /// The depth the data is measured.
    pub depth: Real,
    /// The layer the data is measured.
    pub layer: Layer,
    /// The time the data is measured.
    pub time: OffsetDateTime,
}

impl DataValuesOutput {
    /// The reading that a stored row shows: the row itself, with its
    /// location decoded. A row whose location holds no coordinate shows
    /// none.
    pub open spec fn projected(row: DataValues) -> Option<DataValuesOutput> {
        match Coordinates::decoded(row.location@) {
            Some(location) => Some(
                DataValuesOutput {
                    temperature: row.temperature,
                    location,
                    depth: row.depth,
                    layer: row.layer,
                    time: row.time,
                },
            ),
            None => None,
        }
    }

    /// Projects a stored row.
    pub fn project(row: &DataValues) -> (r: Result<DataValuesOutput, Error>)
        ensures
            match r {
                Ok(out) => DataValuesOutput::projected(*row) == Some(out),
                Err(e) => e == Error::Decode && DataValuesOutput::projected(*row) is None,
            },
    {
        match Coordinates::decode(&row.location) {
            Some(location) => Ok(
                DataValuesOutput {
                    temperature: row.temperature,
                    location,
                    depth: row.depth,
                    layer: row.layer,
                    time: row.time,
                },
            ),
            None => Err(Error::Decode),
        }
    }

    /// Projects a stored row, taking it.
    pub fn try_from(value: DataValues) -> (r: Result<DataValuesOutput, Error>)
        ensures
            match r {
                Ok(out) => DataValuesOutput::projected(value) == Some(out),
                Err(e) => e == Error::Decode && DataValuesOutput::projected(value) is None,
            },
    {
        DataValuesOutput::project(&value)
    }
}

/// A reading with the name of its path, as storage holds it.
#[derive(Debug, PartialEq)]
pub struct DataRecord {
    /// The temperature measured.
    pub temperature: Real,
    /// The location the data is measured.
    pub location: Json,
    /// The depth the data is measured.
    pub depth: Real,
    /// The name of the path the data is collected on
    pub name: String,
    /// The layer the data is measured.
    pub layer: Layer,
    /// The time the data is measured.
    pub time: OffsetDateTime,
}

/// A reading with the name of its path, as one record of the CSV export.
#[derive(Debug, PartialEq)]
pub struct DataRecordOutput {
    /// The temperature measured.
    pub temperature: Real,
    /// The latitude the data is measured.
    pub latitude: Real,
    /// The longitude the data is measured.
    pub longitude: Real,
    /// The depth the data is measured.
    pub depth: Real,
    /// The name of the path the data is collected on
    pub name: String,
    /// The layer the data is measured.
    pub layer: Layer,
    /// The time the data is measured.
    pub time: OffsetDateTime,
}

/// The names of the columns of the export, in their order.
pub open spec fn header_record() -> Seq<CellValue> {
    seq![
        CellValue::Text("temperature"@),
        CellValue::Text("latitude"@),
        CellValue::Text("longitude"@),
        CellValue::Text("depth"@),
        CellValue::Text("layer"@),
        CellValue::Text("trip"@),
        CellValue::Text("time"@),
    ]
}

/// The record that the export holds for a stored row at an offset: the
/// four measurements, the label of the layer, the name of the path, and the
/// date and time that a clock set to the offset shows at the row's instant.
/// There is none where the location holds no coordinate, or the instant has
/// no date at that offset.
pub open spec fn exported_record(row: DataRecord, offset: UtcOffset) -> Option<Seq<CellValue>> {
    match (Coordinates::decoded(row.location@), row.time.at_offset(offset).reading()) {
        (Some(location), Some(reading)) => Some(
            seq![
                CellValue::Number(row.temperature),
                CellValue::Number(location.latitude),
                CellValue::Number(location.longitude),
                CellValue::Number(row.depth),
                CellValue::Text(row.layer.label_text()),
                CellValue::Text(row.name@),
                CellValue::Text(timestamp_text(reading, offset.hours as int)),
            ],
        ),
        _ => None,
    }
}

/// The export of the rows of a trip: the header, then one record for each
/// row, in the order of the rows. One row without a record fails the whole
/// export.
pub open spec fn exported(rows: Seq<DataRecord>, offset: UtcOffset) -> Option<Seq<Seq<CellValue>>> {
    if forall|i: int| 0 <= i < rows.len() ==> (#[trigger] exported_record(rows[i], offset)) is Some {
        Some(
            seq![header_record()] + Seq::new(
                rows.len(),
                |i: int| exported_record(rows[i], offset).unwrap(),
            ),
        )
    } else {
        None
    }
}

impl DataRecordOutput {
    /// The record that a stored row shows: the row itself, with its
    /// location decoded into its two numbers.
    pub open spec fn projects(row: DataRecord, out: DataRecordOutput) -> bool {
        &&& Coordinates::decoded(row.location@) == Some(
            Coordinates { latitude: out.latitude, longitude: out.longitude },
        )
        &&& out.temperature == row.temperature
        &&& out.depth == row.depth
        &&& out.name@ == row.name@
        &&& out.layer == row.layer
        &&& out.time == row.time
    }

    /// Projects a stored row.
    pub fn project(row: &DataRecord) -> (r: Result<DataRecordOutput, Error>)
        ensures
            match r {
                Ok(out) => DataRecordOutput::projects(*row, out),
                Err(e) => e == Error::Decode && Coordinates::decoded(row.location@) is None,
            },
    {
        match Coordinates::decode(&row.location) {
            Some(location) => Ok(
                DataRecordOutput {
                    temperature: row.temperature,
                    latitude: location.latitude,
                    longitude: location.longitude,
                    depth: row.depth,
                    name: row.name.clone(),
                    layer: row.layer,
                    time: row.time,
                },
            ),
            None => Err(Error::Decode),
        }
    }

    /// Projects a stored row, taking it.
    pub fn try_from(value: DataRecord) -> (r: Result<DataRecordOutput, Error>)
        ensures
            match r {
                Ok(out) => DataRecordOutput::projects(value, out),
                Err(e) => e == Error::Decode && Coordinates::decoded(value.location@) is None,
            },
    {
        DataRecordOutput::project(&value)
    }

    /// What the cells of this record hold, where its instant has a date.
    pub open spec fn cells(self) -> Option<Seq<CellValue>> {
        match self.time.reading() {
            Some(reading) => Some(
                seq![
                    CellValue::Number(self.temperature),
                    CellValue::Number(self.latitude),
                    CellValue::Number(self.longitude),
                    CellValue::Number(self.depth),
                    CellValue::Text(self.layer.label_text()),
                    CellValue::Text(self.name@),
                    CellValue::Text(timestamp_text(reading, self.time.offset.hours as int)),
                ],
            ),
            None => None,
        }
    }

    /// Lays the record out in the columns of the export.
    pub fn into_record(self) -> (r: Result<Vec<Cell>, Error>)
        ensures
            match r {
                Ok(record) => self.cells() == Some(record_view(record@)),
                Err(e) => e == Error::Decode && self.cells() is None,
            },
    {
        let reading = match self.time.civil() {
            Some(reading) => reading,
            None => {
                return Err(Error::Decode);
            },
        };
        let mut record: Vec<Cell> = Vec::new();
        record.push(Cell::Number(self.temperature));
        record.push(Cell::Number(self.latitude));
        record.push(Cell::Number(self.longitude));
        record.push(Cell::Number(self.depth));
        record.push(Cell::text(self.layer.label()));
        record.push(Cell::Text(self.name));
        record.push(Cell::Text(format_timestamp(&reading, self.time.offset)));
        proof {
            assert(record_view(record@) =~= self.cells().unwrap());
        }
        Ok(record)
    }
}

/// The header of the export.
pub fn header() -> (record: Vec<Cell>)
    ensures
        record_view(record@) == header_record(),
{
    let mut record: Vec<Cell> = Vec::new();
    record.push(Cell::text("temperature"));
    record.push(Cell::text("latitude"));
    record.push(Cell::text("longitude"));
    record.push(Cell::text("depth"));
    record.push(Cell::text("layer"));
    record.push(Cell::text("trip"));
    record.push(Cell::text("time"));
    proof {
        assert(record_view(record@) =~= header_record());
    }
    record
}

/// Which rows a request for the data of a trip reads: the readings
/// themselves for JSON, the readings with the names of their paths for CSV.
pub fn get_data(query: &DataQuery, trip: Uuid) -> (statement: Statement)
    ensures
        statement == (match query.format {
            FormatType::CSV => Statement::SelectDataRecords { trip },
            FormatType::JSON => Statement::SelectData { trip },
        }),
{
    match query.format {
        FormatType::CSV => Statement::SelectDataRecords { trip },
        FormatType::JSON => Statement::SelectData { trip },
    }
}

/// The readings that the rows of a trip show, in the order of the rows.
/// One row that shows none fails the whole.
pub open spec fn projected_readings(rows: Seq<DataValues>) -> Option<Seq<DataValuesOutput>> {
    if forall|i: int| 0 <= i < rows.len() ==> (#[trigger] DataValuesOutput::projected(rows[i])) is Some {
        Some(Seq::new(rows.len(), |i: int| DataValuesOutput::projected(rows[i]).unwrap()))
    } else {
        None
    }
}

/// Answers a request for the data of a trip as JSON, from the rows read.
pub fn get_json(rows: Vec<DataValues>) -> (r: Result<Vec<DataValuesOutput>, Error>)
    ensures
        match r {
            Ok(readings) => projected_readings(rows@) == Some(readings@),
            Err(e) => e == Error::Decode && projected_readings(rows@) is None,
        },
{
    let mut readings: Vec<DataValuesOutput> = Vec::new();
    let mut i: usize = 0;
    while i < rows.len()
        invariant
            i <= rows.len(),
            readings@.len() == i,
            forall|k: int|
                0 <= k < i ==> (#[trigger] DataValuesOutput::projected(rows@[k])) == Some(
                    readings@[k],
                ),
        decreases rows.len() - i,
    {
        match DataValuesOutput::project(&rows[i]) {
            Ok(reading) => {
                readings.push(reading);
            },
            Err(e) => {
                assert(DataValuesOutput::projected(rows@[i as int]) is None);
                return Err(e);
            },
        }
        i = i + 1;
    }
    proof {
        assert(readings@ =~= Seq::new(
            rows@.len(),
            |i: int| DataValuesOutput::projected(rows@[i]).unwrap(),
        ));
    }
    Ok(readings)
}

/// The input data format for inserting data
#[derive(Clone, Copy, Debug, PartialEq, Eq, Structural)]
pub struct DataInput {
    /// The temperature measured.
    pub temperature: Real,
    /// The location the data is measured.
    pub location: Coordinates,
    /// The depth the data is measured.
    pub depth: Real,
    /// The layer the data is measured.
    pub layer: Layer,
    /// The trip the data is collected in.
    pub trip: Uuid,
}

impl DataInput {
    /// The input that five documents make up: two numbers, a coordinate,
    /// the label of a layer and the text of an identifier.
    pub open spec fn from_parts(
        temperature: JsonTree,
        location: JsonTree,
        depth: JsonTree,
        layer: JsonTree,
        trip: JsonTree,
    ) -> Option<DataInput> {
        match (temperature, Coordinates::decoded(location), depth, layer, trip) {
            (JsonTree::Number(t), Some(place), JsonTree::Number(d), JsonTree::Text(l), JsonTree::Text(u)) => {
                match (Layer::named(l), Uuid::written(u)) {
                    (Some(layer), Some(trip)) => Some(
                        DataInput { temperature: t, location: place, depth: d, layer, trip },
                    ),
                    _ => None,
                }
            },
            _ => None,
        }
    }

    /// The input that the body of a request holds: an object that gives
    /// each of `temperature`, `location`, `depth`, `layer` and `trip` once,
    /// or an array of the five in this order.
    pub open spec fn decoded(body: JsonTree) -> Option<DataInput> {
        match body {
            JsonTree::Object(members) => {
                match (
                    member(members, "temperature"@),
                    member(members, "location"@),
                    member(members, "depth"@),
                    member(members, "layer"@),
                    member(members, "trip"@),
                ) {
                    (Some(t), Some(p), Some(d), Some(l), Some(u)) => DataInput::from_parts(
                        t,
                        p,
                        d,
                        l,
                        u,
                    ),
                    _ => None,
                }
            },
            JsonTree::Array(items) => {
                if items.len() == 5 {
                    DataInput::from_parts(items[0], items[1], items[2], items[3], items[4])
                } else {
                    None
                }
            },
            _ => None,
        }
    }

    fn assemble(temperature: &Json, location: &Json, depth: &Json, layer: &Json, trip: &Json) -> (r:
        Option<DataInput>)
        ensures
            r == DataInput::from_parts(temperature@, location@, depth@, layer@, trip@),
    {
        let t = match temperature {
            Json::Number(t) => *t,
            _ => {
                return None;
            },
        };
        let place = match Coordinates::decode(location) {
            Some(place) => place,
            None => {
                return None;
            },
        };
        let d = match depth {
            Json::Number(d) => *d,
            _ => {
                return None;
            },
        };
        let layer = match layer {
            Json::Text(l) => match Layer::parse(l.as_str()) {
                Some(layer) => layer,
                None => {
                    return None;
                },
            },
            _ => {
                return None;
            },
        };
        let trip = match trip {
            Json::Text(u) => match Uuid::parse_str(u.as_str()) {
                Some(trip) => trip,
                None => {
                    return None;
                },
            },
            _ => {
                return None;
            },
        };
        Some(DataInput { temperature: t, location: place, depth: d, layer, trip })
    }

    /// Reads the input off the body of a request.
    pub fn decode(body: &Json) -> (r: Option<DataInput>)
        ensures
            r == DataInput::decoded(body@),
    {
        match body {
            Json::Object(members) => {
                proof {
                    object_view(*members);
                }
                let t = find_field(members, "temperature", "temperature");
                let p = find_field(members, "location", "location");
                let d = find_field(members, "depth", "depth");
                let l = find_field(members, "layer", "layer");
                let u = find_field(members, "trip", "trip");
                match (t, p, d, l, u) {
                    (Some(t), Some(p), Some(d), Some(l), Some(u)) => DataInput::assemble(
                        t,
                        p,
                        d,
                        l,
                        u,
                    ),
                    _ => None,
                }
            },
            Json::Array(items) => {
                proof {
                    array_view(*items);
                }
                if items.len() == 5 {
                    DataInput::assemble(&items[0], &items[1], &items[2], &items[3], &items[4])
                } else {
                    None
                }
            },
            _ => None,
        }
    }
}

/// The row that a request to add a reading inserts: the input, with its
/// location encoded. A body that holds no input is refused, and nothing is
/// inserted.
pub fn post_data(body: &Json) -> (r: Result<Statement, Error>)
    ensures
        match r {
            Ok(statement) => {
                &&& DataInput::decoded(body@) matches Some(input)
                &&& statement matches Statement::InsertData {
                    temperature,
                    location,
                    depth,
                    layer,
                    trip,
                }
                &&& temperature == input.temperature
                &&& location@ == input.location.encoded()
                &&& depth == input.depth
                &&& layer == input.layer
                &&& trip == input.trip
            },
            Err(e) => e == Error::Validation && DataInput::decoded(body@) is None,
        },
{
    match DataInput::decode(body) {
        Some(input) => Ok(
            Statement::InsertData {
                temperature: input.temperature,
                location: input.location.encode(),
                depth: input.depth,
                layer: input.layer,
                trip: input.trip,
            },
        ),
        None => Err(Error::Validation),
    }
}

/// Answers a request for the data of a trip as CSV, from the rows read.
pub fn get_csv(rows: Vec<DataRecord>, offset: UtcOffset) -> (r: Result<CsvDocument, Error>)
    ensures
        match r {
            Ok(document) => exported(rows@, offset) == Some(document@),
            Err(e) => e == Error::Decode && exported(rows@, offset) is None,
        },
{
    let mut records: Vec<Vec<Cell>> = Vec::new();
    records.push(header());
    let mut i: usize = 0;
    while i < rows.len()
        invariant
            i <= rows.len(),
            records@.len() == i + 1,
            record_view(records@[0]@) == header_record(),
            forall|k: int|
                0 <= k < i ==> (#[trigger] exported_record(rows@[k], offset)) == Some(
                    record_view(records@[k + 1]@),
                ),
        decreases rows.len() - i,
    {
        let mut item = match DataRecordOutput::project(&rows[i]) {
            Ok(item) => item,
            Err(e) => {
                assert(exported_record(rows@[i as int], offset) is None);
                return Err(e);
            },
        };
        item.time = item.time.to_offset(offset);
        match item.into_record() {
            Ok(record) => {
                records.push(record);
            },
            Err(e) => {
                assert(exported_record(rows@[i as int], offset) is None);
                return Err(e);
            },
        }
        i = i + 1;
    }
    let document = CsvDocument { records };
    proof {
        assert(document@ =~= seq![header_record()] + Seq::new(
            rows@.len(),
            |i: int| exported_record(rows@[i], offset).unwrap(),
        ));
    }
    Ok(document)
}

/// The routes of the data resource below a prefix.
pub open spec fn data_routes(prefix: Seq<char>) -> Seq<RouteView> {
    seq![
        RouteView {
            method: Method::Get,
            scope: prefix + "/data"@,
            pattern: "/{uuid}"@,
            operation: Operation::GetData,
        },
        RouteView {
            method: Method::Post,
            scope: prefix + "/data"@,
            pattern: ""@,
            operation: Operation::PostData,
        },
    ]
}

/// Configuration function for the data API resources.
pub fn data_cfg(cfg: &mut ServiceConfig)
    ensures
        final(cfg).prefix@ == old(cfg).prefix@,
        final(cfg).table() == old(cfg).table() + data_routes(old(cfg).prefix@),
{
    cfg.route("/data", Method::Get, "/{uuid}", Operation::GetData);
    cfg.route("/data", Method::Post, "", Operation::PostData);
    proof {
        assert(cfg.table() =~= old(cfg).table() + data_routes(old(cfg).prefix@));
    }
}


/// Only `csv`, in whatever mix of cases, selects the CSV export: every other
/// value of the parameter, and its absence, select JSON.
pub proof fn format_selection(text: Option<Seq<char>>)
    ensures
        FormatType::selected(text) == FormatType::CSV <==> (text matches Some(s) && s.len() == 3 && (s[0]
            == 'c' || s[0] == 'C') && (s[1] == 's' || s[1] == 'S') && (s[2] == 'v' || s[2] == 'V')),
        FormatType::selected(text) != FormatType::CSV ==> FormatType::selected(text)
            == FormatType::JSON,
        FormatType::selected(None) == FormatType::JSON,
        FormatType::selected(Some("csv"@)) == FormatType::CSV,
        FormatType::selected(Some("CSV"@)) == FormatType::CSV,
        FormatType::selected(Some("CsV"@)) == FormatType::CSV,
        FormatType::selected(Some("json"@)) == FormatType::JSON,
        FormatType::selected(Some(""@)) == FormatType::JSON,
{
    reveal_strlit("csv");
    reveal_strlit("CSV");
    reveal_strlit("CsV");
    reveal_strlit("json");
    reveal_strlit("");
}

/// The document in which the body of a request names the layer.
pub open spec fn layer_document(body: JsonTree) -> Option<JsonTree> {
    match body {
        JsonTree::Object(members) => member(members, "layer"@),
        JsonTree::Array(items) => if items.len() == 5 {
            Some(items[3])
        } else {
            None
        },
        _ => None,
    }
}

/// A body whose layer is not one of the three labels holds no input: the
/// request is refused.
pub proof fn layer_outside_the_enumeration_is_refused(body: JsonTree)
    requires
        !(layer_document(body) matches Some(JsonTree::Text(l)) && (l == "surface"@ || l == "middle"@
            || l == "sea bed"@)),
    ensures
        DataInput::decoded(body) is None,
{
}

/// The export of no rows is the header alone.
pub proof fn empty_export_is_the_header(offset: UtcOffset)
    ensures
        exported(Seq::<DataRecord>::empty(), offset) == Some(seq![header_record()]),
{
    assert(seq![header_record()] + Seq::new(
        0,
        |i: int| exported_record(Seq::<DataRecord>::empty()[i], offset).unwrap(),
    ) =~= seq![header_record()]);
}

/// The export holds the header and one record for each row.
pub proof fn export_keeps_every_row(rows: Seq<DataRecord>, offset: UtcOffset)
    requires
        exported(rows, offset) is Some,
    ensures
        exported(rows, offset).unwrap().len() == rows.len() + 1,
        exported(rows, offset).unwrap()[0] == header_record(),
        forall|i: int|
            0 <= i < rows.len() ==> Some(#[trigger] exported(rows, offset).unwrap()[i + 1])
                == exported_record(rows[i], offset),
{
}

/// The offset of an export moves the timestamp and nothing else. The
/// timestamp of a record shows what a clock set to UTC shows as many hours
/// after the stored instant as the offset says, followed by the offset; the
/// six cells before it are the same at every offset.
pub proof fn offset_shifts_the_timestamp_alone(row: DataRecord, offset: UtcOffset, other: UtcOffset)
    requires
        exported_record(row, offset) is Some,
        exported_record(row, other) is Some,
    ensures
        exported_record(row, offset).unwrap().len() == 7,
        exported_record(row, other).unwrap().len() == 7,
        forall|i: int|
            0 <= i < 6 ==> exported_record(row, offset).unwrap()[i] == exported_record(
                row,
                other,
            ).unwrap()[i],
        utc_reading(row.time.seconds + 3600 * offset.hours) is Some,
        exported_record(row, offset).unwrap()[6] == CellValue::Text(
            timestamp_text(
                utc_reading(row.time.seconds + 3600 * offset.hours).unwrap(),
                offset.hours as int,
            ),
        ),
{
}

} // verus!
