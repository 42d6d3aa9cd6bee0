//! The history of positions.

use vstd::prelude::*;
use crate::api::{Method, Operation, RouteView, ServiceConfig};
use crate::clock::{earlier, OffsetDateTime};
use crate::coordinates::Coordinates;
use crate::error::Error;
use crate::json::Json;
use crate::storage::Statement;

verus! {

/// The query specification for getting gps data.
#[derive(Clone, Copy, Debug, PartialEq, Eq, Structural)]
pub struct GPSQuery {
    /// The amount of data to get.
    pub count: i64,
}

impl GPSQuery {
    /// Defaults count to 100 coordinates.
    pub fn count_default() -> (count: i64)
        ensures
            count == 100,
    {
        100
    }

    /// The number of positions that a query asks for: 100 where it names
    /// none.
    pub open spec fn count_selected(count: Option<i64>) -> i64 {
        match count {
            Some(n) => n,
            None => 100,
        }
    }

    /// The query with the given count, which may be absent.
    pub fn new(count: Option<i64>) -> (query: GPSQuery)
        ensures
            query.count == GPSQuery::count_selected(count),
    {
        match count {
            Some(count) => GPSQuery { count },
            None => GPSQuery { count: GPSQuery::count_default() },
        }
    }
}

/// A position, as storage holds it.
#[derive(Debug, PartialEq)]
pub struct GPSValues {
    /// The coordinate of the data.
    pub location: Json,
    /// The when the data is recorded.
    pub time: OffsetDateTime,
}

/// A position, as it is served.
#[derive(Clone, Copy, Debug, PartialEq, Eq, Structural)]
pub struct GPSOutput {
    /// The coordinate of the data.
    pub location: Coordinates,
    /// The when the data is recorded.
    pub time: OffsetDateTime,
}

impl GPSOutput {
    /// The position that a stored row shows: the row itself, with its
    /// location decoded. A row whose location holds no coordinate shows
    /// none.
    pub open spec fn projected(row: GPSValues) -> Option<GPSOutput> {
        match Coordinates::decoded(row.location@) {
            Some(location) => Some(GPSOutput { location, time: row.time }),
            None => None,
        }
    }

    /// Projects a stored row.
    pub fn project(row: &GPSValues) -> (r: Result<GPSOutput, Error>)
        ensures
            match r {
                Ok(out) => GPSOutput::projected(*row) == Some(out),
                Err(e) => e == Error::Decode && GPSOutput::projected(*row) is None,
            },
    {
        match Coordinates::decode(&row.location) {
            Some(location) => Ok(GPSOutput { location, time: row.time }),
            None => Err(Error::Decode),
        }
    }

    /// Projects a stored row, taking it.
    pub fn try_from(value: GPSValues) -> (r: Result<GPSOutput, Error>)
        ensures
            match r {
                Ok(out) => GPSOutput::projected(value) == Some(out),
                Err(e) => e == Error::Decode && GPSOutput::projected(value) is None,
            },
    {
        GPSOutput::project(&value)
    }
}

/// Which rows a request for the history reads: the most recent ones,
/// as many as the query asks for.
pub fn get_gps(query: &GPSQuery) -> (statement: Statement)
    ensures
        statement == (Statement::SelectHistory { count: query.count }),
{
    Statement::SelectHistory { count: query.count }
}

/// The positions that the rows of the history show, in the order of the
/// rows. One row that shows none fails the whole.
pub open spec fn projected_positions(rows: Seq<GPSValues>) -> Option<Seq<GPSOutput>> {
    if forall|i: int| 0 <= i < rows.len() ==> (#[trigger] GPSOutput::projected(rows[i])) is Some {
        Some(Seq::new(rows.len(), |i: int| GPSOutput::projected(rows[i]).unwrap()))
    } else {
        None
    }
}

/// Answers a request for the history, from the rows read.
pub fn get_gps_response(rows: Vec<GPSValues>) -> (r: Result<Vec<GPSOutput>, Error>)
    ensures
        match r {
            Ok(positions) => projected_positions(rows@) == Some(positions@),
            Err(e) => e == Error::Decode && projected_positions(rows@) is None,
        },
{
    let mut positions: Vec<GPSOutput> = Vec::new();
    let mut i: usize = 0;
    while i < rows.len()
        invariant
            i <= rows.len(),
            positions@.len() == i,
            forall|k: int|
                0 <= k < i ==> (#[trigger] GPSOutput::projected(rows@[k])) == Some(positions@[k]),
        decreases rows.len() - i,
    {
        match GPSOutput::project(&rows[i]) {
            Ok(position) => {
                positions.push(position);
            },
            Err(e) => {
                assert(GPSOutput::projected(rows@[i as int]) is None);
                return Err(e);
            },
        }
        i = i + 1;
    }
    proof {
        assert(positions@ =~= Seq::new(
            rows@.len(),
            |i: int| GPSOutput::projected(rows@[i]).unwrap(),
        ));
    }
    Ok(positions)
}

/// The row that a request to add a position inserts: the coordinate that
/// the body holds, encoded. A body that holds none is refused, and nothing
/// is inserted.
pub fn add_gps(body: &Json) -> (r: Result<Statement, Error>)
    ensures
        match r {
            Ok(statement) => {
                &&& Coordinates::decoded(body@) matches Some(place)
                &&& statement matches Statement::InsertHistory { location }
                &&& location@ == place.encoded()
            },
            Err(e) => e == Error::Validation && Coordinates::decoded(body@) is None,
        },
{
    match Coordinates::decode(body) {
        Some(place) => Ok(Statement::InsertHistory { location: place.encode() }),
        None => Err(Error::Validation),
    }
}

/// The routes of the gps resource below a prefix.
pub open spec fn gps_routes(prefix: Seq<char>) -> Seq<RouteView> {
    seq![
        RouteView {
            method: Method::Get,
            scope: prefix + "/gps"@,
            pattern: ""@,
            operation: Operation::GetGps,
        },
        RouteView {
            method: Method::Post,
            scope: prefix + "/gps"@,
            pattern: ""@,
            operation: Operation::AddGps,
        },
    ]
}

/// Configuration function for the gps API resources.
pub fn gps_cfg(cfg: &mut ServiceConfig)
    ensures
        final(cfg).prefix@ == old(cfg).prefix@,
        final(cfg).table() == old(cfg).table() + gps_routes(old(cfg).prefix@),
{
    cfg.route("/gps", Method::Get, "", Operation::GetGps);
    cfg.route("/gps", Method::Post, "", Operation::AddGps);
    proof {
        assert(cfg.table() =~= old(cfg).table() + gps_routes(old(cfg).prefix@));
    }
}


/// What storage owes to a request for the `count` most recent positions:
/// at most `count` rows, none of them earlier than one that follows it.
pub open spec fn answers_history(rows: Seq<GPSValues>, count: i64) -> bool {
    &&& rows.len() <= count
    &&& forall|i: int, j: int| 0 <= i < j < rows.len() ==> !earlier(rows[i].time, rows[j].time)
}

/// The list of positions is as long as storage made it and in the order in
/// which storage gave it: where storage answers as it owes, at most as many
/// positions as were asked for, at most 100 where no count was given, none
/// where the count is 0, and the newest first.
pub proof fn history_is_bounded_and_newest_first(count: Option<i64>, rows: Seq<GPSValues>)
    requires
        answers_history(rows, GPSQuery::count_selected(count)),
        projected_positions(rows) is Some,
    ensures
        projected_positions(rows).unwrap().len() == rows.len(),
        projected_positions(rows).unwrap().len() <= GPSQuery::count_selected(count),
        count is None ==> projected_positions(rows).unwrap().len() <= 100,
        count == Some(0i64) ==> projected_positions(rows).unwrap().len() == 0,
        forall|i: int|
            0 <= i < rows.len() ==> (#[trigger] projected_positions(rows).unwrap()[i]).time
                == rows[i].time,
        forall|i: int, j: int|
            0 <= i < j < rows.len() ==> !earlier(
                projected_positions(rows).unwrap()[i].time,
                projected_positions(rows).unwrap()[j].time,
            ),
{
}

} // verus!
