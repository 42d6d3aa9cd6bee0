//! What the service asks of storage.
//!
//! Every operation of the service makes one request to storage: it reads the
//! rows of one query, or it inserts one row. The service decides which; what
//! storage answers is handed back to it.

use vstd::prelude::*;
use crate::api::data::{DataRecord, DataValues, Layer};
use crate::api::gps::GPSValues;
use crate::api::paths::{PathData, PathValues};
use crate::api::trips::TripValues;
use crate::error::Error;
use crate::ident::Uuid;
use crate::json::Json;
use crate::number::Real;

verus! {

/// One request to storage.
#[derive(Debug, PartialEq)]
#[allow(inconsistent_fields)]
pub enum Statement {
    /// The readings of a trip, in the order in which they were inserted.
    SelectData { trip: Uuid },
    /// The readings of a trip, each with the name of the path that the trip
    /// follows, in the order in which they were inserted.
    SelectDataRecords { trip: Uuid },
    /// A new reading, taken now.
    InsertData { temperature: Real, location: Json, depth: Real, layer: Layer, trip: Uuid },
    /// The `count` most recent positions, newest first.
    SelectHistory { count: i64 },
    /// A new position, taken now.
    InsertHistory { location: Json },
    /// The name and the identifier of every path.
    SelectPaths,
    /// The name and the route of one path.
    SelectPath { uuid: Uuid },
    /// A new path.
    InsertPath { name: String, path: Json, uuid: Uuid },
    /// Every trip.
    SelectTrips,
    /// A new trip, started now.
    InsertTrip { uuid: Uuid, path: Uuid },
}

impl Statement {
    /// The text of the query that storage is to run. Its parameters are the
    /// fields of the statement, in the order in which they are declared.
    pub open spec fn query_text(self) -> Seq<char> {
        match self {
            Statement::SelectData { .. } => "SELECT data.temperature, data.location, data.depth, data.layer, data.time FROM data WHERE data.trip = $1"@,
            Statement::SelectDataRecords { .. } => "SELECT data.temperature, data.location, data.depth, data.layer, data.time, paths.name FROM data JOIN trips ON trips.uuid = data.trip JOIN paths ON trips.path = paths.uuid WHERE data.trip = $1"@,
            Statement::InsertData { .. } => "INSERT INTO data (temperature, location, depth, layer, trip, time) VALUES ($1, $2, $3, $4, $5, CURRENT_TIMESTAMP)"@,
            Statement::SelectHistory { .. } => "SELECT location, time FROM history ORDER BY time DESC LIMIT $1"@,
            Statement::InsertHistory { .. } => "INSERT INTO history (location, time) VALUES ($1, CURRENT_TIMESTAMP)"@,
            Statement::SelectPaths => "SELECT name, uuid FROM paths"@,
            Statement::SelectPath { .. } => "SELECT name, path FROM paths WHERE uuid = $1"@,
            Statement::InsertPath { .. } => "INSERT INTO paths (name, path, uuid) VALUES ($1, $2, $3)"@,
            Statement::SelectTrips => "SELECT uuid, time, path FROM trips"@,
            Statement::InsertTrip { .. } => "INSERT INTO trips (uuid, time, path) VALUES ($1, CURRENT_TIMESTAMP, $2)"@,
        }
    }

    pub fn query(&self) -> (text: &'static str)
        ensures
            text@ == self.query_text(),
    {
        match self {
            Statement::SelectData { .. } => "SELECT data.temperature, data.location, data.depth, data.layer, data.time FROM data WHERE data.trip = $1",
            Statement::SelectDataRecords { .. } => "SELECT data.temperature, data.location, data.depth, data.layer, data.time, paths.name FROM data JOIN trips ON trips.uuid = data.trip JOIN paths ON trips.path = paths.uuid WHERE data.trip = $1",
            Statement::InsertData { .. } => "INSERT INTO data (temperature, location, depth, layer, trip, time) VALUES ($1, $2, $3, $4, $5, CURRENT_TIMESTAMP)",
            Statement::SelectHistory { .. } => "SELECT location, time FROM history ORDER BY time DESC LIMIT $1",
            Statement::InsertHistory { .. } => "INSERT INTO history (location, time) VALUES ($1, CURRENT_TIMESTAMP)",
            Statement::SelectPaths => "SELECT name, uuid FROM paths",
            Statement::SelectPath { .. } => "SELECT name, path FROM paths WHERE uuid = $1",
            Statement::InsertPath { .. } => "INSERT INTO paths (name, path, uuid) VALUES ($1, $2, $3)",
            Statement::SelectTrips => "SELECT uuid, time, path FROM trips",
            Statement::InsertTrip { .. } => "INSERT INTO trips (uuid, time, path) VALUES ($1, CURRENT_TIMESTAMP, $2)",
        }
    }
}

/// What storage gives for a statement.
#[derive(Debug, PartialEq)]
pub enum Rows {
    /// The rows of [`Statement::SelectData`].
    Data(Vec<DataValues>),
    /// The rows of [`Statement::SelectDataRecords`].
    DataRecords(Vec<DataRecord>),
    /// The rows of [`Statement::SelectHistory`].
    History(Vec<GPSValues>),
    /// The rows of [`Statement::SelectPaths`].
    Paths(Vec<PathValues>),
    /// The row of [`Statement::SelectPath`].
    Path(PathData),
    /// The rows of [`Statement::SelectTrips`].
    Trips(Vec<TripValues>),
    /// Nothing: a row was inserted.
    Inserted,
}

/// The failure of a request to storage.
#[derive(Clone, Copy, Debug, PartialEq, Eq, Structural)]
pub enum StorageError {
    /// The row that was to be inserted refers to a row that does not exist,
    /// or the one row that was asked for does not exist.
    MissingReference,
    /// Storage could not be reached, or could not run the request.
    Unavailable,
}

impl StorageError {
    /// What the caller of the service is told of a failure of storage: a
    /// missing reference is the caller's fault, anything else the server's.
    pub open spec fn reported(self) -> Error {
        match self {
            StorageError::MissingReference => Error::NotFoundReference,
            StorageError::Unavailable => Error::Storage,
        }
    }

    pub fn report(self) -> (e: Error)
        ensures
            e == self.reported(),
    {
        match self {
            StorageError::MissingReference => Error::NotFoundReference,
            StorageError::Unavailable => Error::Storage,
        }
    }
}

/// What the caller is told once storage has answered: the answer itself,
/// or the failure as the caller is to see it.
pub open spec fn answered<T>(outcome: Result<T, StorageError>) -> Result<T, Error> {
    match outcome {
        Ok(answer) => Ok(answer),
        Err(e) => Err(e.reported()),
    }
}

/// Hands the answer of storage on to the caller.
pub fn answer<T>(outcome: Result<T, StorageError>) -> (r: Result<T, Error>)
    ensures
        r == answered(outcome),
{
    match outcome {
        Ok(answer) => Ok(answer),
        Err(e) => Err(e.report()),
    }
}

} // verus!
