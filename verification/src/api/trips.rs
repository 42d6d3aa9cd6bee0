//! The trips.

use vstd::prelude::*;
use crate::api::{Method, Operation, RouteView, ServiceConfig};
use crate::clock::OffsetDateTime;
use crate::error::Error;
use crate::ident::Uuid;
use crate::json::{array_view, object_view, find_field, member, Json, JsonTree};
use crate::storage::{Statement, StorageError};

verus! {

/// The data format for trips data.
#[derive(Clone, Copy, Debug, PartialEq, Eq, Structural)]
pub struct TripValues {
    /// The UUID of the trip.
    pub uuid: Uuid,
    /// When the trip started.
    pub time: OffsetDateTime,
    /// The path the trip is following.
    pub path: Uuid,
}

/// Which rows a request for the list of trips reads.
pub fn get_trips() -> (statement: Statement)
    ensures
        statement == Statement::SelectTrips,
{
    Statement::SelectTrips
}

/// The reponse message for starting a new trip.
#[derive(Clone, Copy, Debug, PartialEq, Eq, Structural)]
pub struct TripResponse {
    /// The UUID of the new trip.
    pub uuid: Uuid,
}

/// The input data format for inserting trip.
#[derive(Clone, Copy, Debug, PartialEq, Eq, Structural)]
pub struct TripInput {
    /// The path the trip is following.
    pub path: Uuid,
}

impl TripInput {
    /// The input that one document makes up: the text of an identifier.
    pub open spec fn from_part(path: JsonTree) -> Option<TripInput> {
        match path {
            JsonTree::Text(p) => match Uuid::written(p) {
                Some(path) => Some(TripInput { path }),
                None => None,
            },
            _ => None,
        }
    }

    /// The input that the body of a request holds: an object that gives
    /// `path` once, or an array of that one item.
    pub open spec fn decoded(body: JsonTree) -> Option<TripInput> {
        match body {
            JsonTree::Object(members) => {
                match member(members, "path"@) {
                    Some(p) => TripInput::from_part(p),
                    None => None,
                }
            },
            JsonTree::Array(items) => {
                if items.len() == 1 {
                    TripInput::from_part(items[0])
                } else {
                    None
                }
            },
            _ => None,
        }
    }

    fn assemble(path: &Json) -> (r: Option<TripInput>)
        ensures
            r == TripInput::from_part(path@),
    {
        match path {
            Json::Text(p) => match Uuid::parse_str(p.as_str()) {
                Some(path) => Some(TripInput { path }),
                None => None,
            },
            _ => None,
        }
    }

    /// Reads the input off the body of a request.
    pub fn decode(body: &Json) -> (r: Option<TripInput>)
        ensures
            r == TripInput::decoded(body@),
    {
        match body {
            Json::Object(members) => {
                proof {
                    object_view(*members);
                }
                match find_field(members, "path", "path") {
                    Some(p) => TripInput::assemble(p),
                    None => None,
                }
            },
            Json::Array(items) => {
                proof {
                    array_view(*items);
                }
                if items.len() == 1 {
                    TripInput::assemble(&items[0])
                } else {
                    None
                }
            },
            _ => None,
        }
    }
}

/// What starting a trip under a given identifier asks of storage.
pub open spec fn starts(body: JsonTree, uuid: Uuid) -> Result<Statement, Error> {
    match TripInput::decoded(body) {
        Some(input) => Ok(Statement::InsertTrip { uuid, path: input.path }),
        None => Err(Error::Validation),
    }
}

/// The row that a request to start a trip inserts under the given
/// identifier. A body that names no path is refused, and nothing is
/// inserted.
pub fn start_trip_as(body: &Json, uuid: Uuid) -> (r: Result<Statement, Error>)
    ensures
        r == starts(body@, uuid),
{
    match TripInput::decode(body) {
        Some(input) => Ok(Statement::InsertTrip { uuid, path: input.path }),
        None => Err(Error::Validation),
    }
}

/// The row that a request to start a trip inserts, under a new identifier.
pub fn start_trip(body: &Json) -> (r: Result<Statement, Error>)
    ensures
        exists|uuid: Uuid| uuid.random() && r == starts(body@, uuid),
{
    let uuid = Uuid::new_v4();
    start_trip_as(body, uuid)
}

/// Answers a request to start a trip, once storage has answered: the
/// identifier of the new trip; or, where the path of the trip does not
/// exist, that it does not; or the failure of storage.
pub fn start_trip_response(uuid: Uuid, outcome: Result<(), StorageError>) -> (r: Result<
    TripResponse,
    Error,
>)
    ensures
        r == (match outcome {
            Ok(_) => Ok(TripResponse { uuid }),
            Err(failure) => Err(failure.reported()),
        }),
{
    match outcome {
        Ok(_) => Ok(TripResponse { uuid }),
        Err(failure) => Err(failure.report()),
    }
}

/// The routes of the trips resource below a prefix.
pub open spec fn trips_routes(prefix: Seq<char>) -> Seq<RouteView> {
    seq![
        RouteView {
            method: Method::Get,
            scope: prefix + "/trips"@,
            pattern: ""@,
            operation: Operation::GetTrips,
        },
        RouteView {
            method: Method::Post,
            scope: prefix + "/trips"@,
            pattern: ""@,
            operation: Operation::StartTrip,
        },
    ]
}

/// Configuration function for the trips API resources.
pub fn trips_cfg(cfg: &mut ServiceConfig)
    ensures
        final(cfg).prefix@ == old(cfg).prefix@,
        final(cfg).table() == old(cfg).table() + trips_routes(old(cfg).prefix@),
{
    cfg.route("/trips", Method::Get, "", Operation::GetTrips);
    cfg.route("/trips", Method::Post, "", Operation::StartTrip);
    proof {
        assert(cfg.table() =~= old(cfg).table() + trips_routes(old(cfg).prefix@));
    }
}

} // verus!
