//! The paths that trips follow.

use vstd::prelude::*;
use crate::api::{Method, Operation, RouteView, ServiceConfig};
use crate::coordinates::{
    decode_route, decoded_route, decoded_route_is_valid, encode_route, encoded_route,
    route_round_trip, Coordinates,
};
use crate::error::Error;
use crate::ident::Uuid;
use crate::json::{array_view, object_view, find_field, member, Json, JsonTree};
use crate::storage::{Statement, StorageError};

verus! {

/// The data format for paths data.
#[derive(Debug, PartialEq)]
pub struct PathValues {
    /// The name of the path.
    pub name: String,
    /// The UUID of the path.
    pub uuid: Uuid,
}

/// The data format for path data, as storage holds it.
#[derive(Debug, PartialEq)]
pub struct PathData {
    /// The name of the path.
    pub name: String,
    /// The the points on the path.
    pub path: Json,
}

/// The data format for path data, as it is served.
#[derive(Debug, PartialEq)]
pub struct PathDataCoords {
    /// The name of the path.
    pub name: String,
    /// The the points on the path.
    pub path: Vec<Coordinates>,
}

impl PathDataCoords {
    /// `out` is what a stored row shows: its name, and the route that its
    /// document holds.
    pub open spec fn projects(row: PathData, out: PathDataCoords) -> bool {
        out.name@ == row.name@ && decoded_route(row.path@) == Some(out.path@)
    }

    /// Projects a stored row. One point that cannot be decoded fails the
    /// whole row.
    pub fn try_from(value: PathData) -> (r: Result<PathDataCoords, Error>)
        ensures
            match r {
                Ok(out) => PathDataCoords::projects(value, out),
                Err(e) => e == Error::Decode && decoded_route(value.path@) is None,
            },
    {
        match decode_route(&value.path) {
            Some(path) => Ok(PathDataCoords { name: value.name, path }),
            None => Err(Error::Decode),
        }
    }
}

/// Which rows a request for the list of paths reads.
pub fn get_paths() -> (statement: Statement)
    ensures
        statement == Statement::SelectPaths,
{
    Statement::SelectPaths
}

/// Which row a request for one path reads.
pub fn get_path(uuid: Uuid) -> (statement: Statement)
    ensures
        statement == (Statement::SelectPath { uuid }),
{
    Statement::SelectPath { uuid }
}

/// Answers a request for one path, from what storage gave: the path with
/// its route decoded, or the failure of storage as the caller is to see it.
pub fn get_path_response(outcome: Result<PathData, StorageError>) -> (r: Result<
    PathDataCoords,
    Error,
>)
    ensures
        match outcome {
            Ok(row) => match r {
                Ok(out) => PathDataCoords::projects(row, out),
                Err(e) => e == Error::Decode && decoded_route(row.path@) is None,
            },
            Err(failure) => r is Err && r->Err_0 == failure.reported(),
        },
{
    match outcome {
        Ok(row) => PathDataCoords::try_from(row),
        Err(failure) => Err(failure.report()),
    }
}

/// The reponse message for registering a new path.
#[derive(Clone, Copy, Debug, PartialEq, Eq, Structural)]
pub struct PathResponse {
    /// The UUID of the new path.
    pub uuid: Uuid,
}

/// The input data format for inserting path.
#[derive(Debug, PartialEq)]
pub struct PathInput {
    /// The name of the path.
    pub name: String,
    /// The list of coordinates to follow.
    pub path: Vec<Coordinates>,
}

impl PathInput {
    /// The name and the route that two documents make up: a text, and an
    /// array of coordinates.
    pub open spec fn from_parts(name: JsonTree, path: JsonTree) -> Option<(Seq<char>, Seq<Coordinates>)> {
        match (name, decoded_route(path)) {
            (JsonTree::Text(n), Some(route)) => Some((n, route)),
            _ => None,
        }
    }

    /// The name and the route that the body of a request holds: an object
    /// that gives each of `name` and `path` once, or an array of the two in
    /// this order.
    pub open spec fn decoded(body: JsonTree) -> Option<(Seq<char>, Seq<Coordinates>)> {
        match body {
            JsonTree::Object(members) => {
                match (member(members, "name"@), member(members, "path"@)) {
                    (Some(n), Some(p)) => PathInput::from_parts(n, p),
                    _ => None,
                }
            },
            JsonTree::Array(items) => {
                if items.len() == 2 {
                    PathInput::from_parts(items[0], items[1])
                } else {
                    None
                }
            },
            _ => None,
        }
    }

    fn assemble(name: &Json, path: &Json) -> (r: Option<PathInput>)
        ensures
            match r {
                Some(input) => PathInput::from_parts(name@, path@) == Some(
                    (input.name@, input.path@),
                ),
                None => PathInput::from_parts(name@, path@) is None,
            },
    {
        match name {
            Json::Text(n) => match decode_route(path) {
                Some(route) => Some(PathInput { name: n.clone(), path: route }),
                None => None,
            },
            _ => None,
        }
    }

    /// Reads the input off the body of a request.
    pub fn decode(body: &Json) -> (r: Option<PathInput>)
        ensures
            match r {
                Some(input) => PathInput::decoded(body@) == Some((input.name@, input.path@)),
                None => PathInput::decoded(body@) is None,
            },
    {
        match body {
            Json::Object(members) => {
                proof {
                    object_view(*members);
                }
                let n = find_field(members, "name", "name");
                let p = find_field(members, "path", "path");
                match (n, p) {
                    (Some(n), Some(p)) => PathInput::assemble(n, p),
                    _ => None,
                }
            },
            Json::Array(items) => {
                proof {
                    array_view(*items);
                }
                if items.len() == 2 {
                    PathInput::assemble(&items[0], &items[1])
                } else {
                    None
                }
            },
            _ => None,
        }
    }
}

/// What registering a path under a given identifier asks of storage: `r`
/// is the request, or the refusal, for that body and that identifier.
pub open spec fn registers(body: JsonTree, uuid: Uuid, r: Result<Statement, Error>) -> bool {
    match r {
        Ok(statement) => {
            &&& PathInput::decoded(body) matches Some((name, route))
            &&& statement matches Statement::InsertPath { name: stored_name, path, uuid: stored_uuid }
            &&& stored_name@ == name
            &&& path@ == encoded_route(route)
            &&& stored_uuid == uuid
        },
        Err(e) => e == Error::Validation && PathInput::decoded(body) is None,
    }
}

/// The row that a request to register a path inserts under the given
/// identifier: the name, and every point of the route encoded. A body that
/// holds no name and route is refused, and nothing is inserted.
pub fn register_path_as(body: &Json, uuid: Uuid) -> (r: Result<Statement, Error>)
    ensures
        registers(body@, uuid, r),
{
    match PathInput::decode(body) {
        Some(input) => Ok(
            Statement::InsertPath { path: encode_route(&input.path), name: input.name, uuid },
        ),
        None => Err(Error::Validation),
    }
}

/// The row that a request to register a path inserts, under a new
/// identifier.
pub fn register_path(body: &Json) -> (r: Result<Statement, Error>)
    ensures
        exists|uuid: Uuid| uuid.random() && registers(body@, uuid, r),
{
    let uuid = Uuid::new_v4();
    register_path_as(body, uuid)
}

/// Answers a request to register a path, once storage has answered: the
/// identifier under which the path was inserted, or the failure of storage
/// as the caller is to see it.
pub fn register_path_response(uuid: Uuid, outcome: Result<(), StorageError>) -> (r: Result<
    PathResponse,
    Error,
>)
    ensures
        r == (match outcome {
            Ok(_) => Ok(PathResponse { uuid }),
            Err(failure) => Err(failure.reported()),
        }),
{
    match outcome {
        Ok(_) => Ok(PathResponse { uuid }),
        Err(failure) => Err(failure.report()),
    }
}

/// A path that was registered is read back as it was given: where storage
/// keeps the name and the document of the row that registering inserted,
/// the row shows the name and the route of the request, point for point.
pub proof fn registered_path_reads_back(body: JsonTree, uuid: Uuid, statement: Statement, row: PathData)
    requires
        registers(body, uuid, Ok(statement)),
        statement matches Statement::InsertPath { name, path, .. } && row.name@ == name@ && row.path@
            == path@,
    ensures
        PathInput::decoded(body) matches Some((name, route)) && row.name@ == name && decoded_route(
            row.path@,
        ) == Some(route),
{
    let route = PathInput::decoded(body).unwrap().1;
    let doc = match body {
        JsonTree::Object(members) => member(members, "path"@).unwrap(),
        JsonTree::Array(items) => items[1],
        _ => arbitrary(),
    };
    assert(decoded_route(doc) == Some(route));
    decoded_route_is_valid(doc);
    route_round_trip(route);
}

/// The routes of the paths resource below a prefix.
pub open spec fn paths_routes(prefix: Seq<char>) -> Seq<RouteView> {
    seq![
        RouteView {
            method: Method::Get,
            scope: prefix + "/paths"@,
            pattern: ""@,
            operation: Operation::GetPaths,
        },
        RouteView {
            method: Method::Post,
            scope: prefix + "/paths"@,
            pattern: ""@,
            operation: Operation::RegisterPath,
        },
        RouteView {
            method: Method::Get,
            scope: prefix + "/paths"@,
            pattern: "{uuid}"@,
            operation: Operation::GetPath,
        },
    ]
}

/// Configuration function for the paths API resources.
pub fn paths_cfg(cfg: &mut ServiceConfig)
    ensures
        final(cfg).prefix@ == old(cfg).prefix@,
        final(cfg).table() == old(cfg).table() + paths_routes(old(cfg).prefix@),
{
    cfg.route("/paths", Method::Get, "", Operation::GetPaths);
    cfg.route("/paths", Method::Post, "", Operation::RegisterPath);
    cfg.route("/paths", Method::Get, "{uuid}", Operation::GetPath);
    proof {
        assert(cfg.table() =~= old(cfg).table() + paths_routes(old(cfg).prefix@));
    }
}

} // verus!
