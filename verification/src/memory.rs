//! Storage in memory.
//!
//! The four tables as plain rows, and what each request to storage does to
//! them and answers from them. Trips refer to paths and readings to trips;
//! the history is kept in the order of its instants.

use vstd::prelude::*;
use crate::api::data::{DataRecord, DataValues, Layer};
use crate::api::gps::{answers_history, GPSValues};
use crate::api::paths::{PathData, PathValues};
use crate::api::trips::TripValues;
use crate::clock::{earlier, is_earlier, OffsetDateTime};
use crate::ident::Uuid;
use crate::json::Json;
use crate::number::Real;
use crate::storage::{Rows, Statement, StorageError};

verus! {

/// A row of the table of paths.
#[derive(Debug, PartialEq)]
pub struct PathRow {
    pub uuid: Uuid,
    pub name: String,
    pub path: Json,
}

/// A row of the table of readings.
#[derive(Debug, PartialEq)]
pub struct DataRow {
    pub temperature: Real,
    pub location: Json,
    pub depth: Real,
    pub layer: Layer,
    pub trip: Uuid,
    pub time: OffsetDateTime,
}

/// The tables.
#[derive(Debug, PartialEq)]
pub struct MemoryStorage {
    pub paths: Vec<PathRow>,
    pub trips: Vec<TripValues>,
    pub data: Vec<DataRow>,
    pub history: Vec<GPSValues>,
}

/// Whether a path of the given identifier is among the rows.
pub open spec fn has_path(paths: Seq<PathRow>, uuid: Uuid) -> bool {
    exists|i: int| 0 <= i < paths.len() && (#[trigger] paths[i]).uuid == uuid
}

/// Whether a trip of the given identifier is among the rows.
pub open spec fn has_trip(trips: Seq<TripValues>, uuid: Uuid) -> bool {
    exists|i: int| 0 <= i < trips.len() && (#[trigger] trips[i]).uuid == uuid
}

/// Whether the rows are in the order of their instants, the earliest first.
pub open spec fn in_order(history: Seq<GPSValues>) -> bool {
    forall|i: int, j: int| 0 <= i < j < history.len() ==> !earlier(history[j].time, history[i].time)
}

/// The rows of a trip, in their order.
pub open spec fn data_of(data: Seq<DataRow>, trip: Uuid) -> Seq<DataRow>
    decreases data.len(),
{
    if data.len() == 0 {
        Seq::empty()
    } else {
        let before = data_of(data.drop_last(), trip);
        if data.last().trip == trip {
            before.push(data.last())
        } else {
            before
        }
    }
}

/// `out` is the reading of a row.
pub open spec fn shows_reading(row: DataRow, out: DataValues) -> bool {
    &&& out.temperature == row.temperature
    &&& out.location@ == row.location@
    &&& out.depth == row.depth
    &&& out.layer == row.layer
    &&& out.time == row.time
}

/// `out` is the reading of a row, with the name of its path.
pub open spec fn shows_record(row: DataRow, name: Seq<char>, out: DataRecord) -> bool {
    &&& out.temperature == row.temperature
    &&& out.location@ == row.location@
    &&& out.depth == row.depth
    &&& out.name@ == name
    &&& out.layer == row.layer
    &&& out.time == row.time
}

/// `out` is the position of a row.
pub open spec fn same_position(row: GPSValues, out: GPSValues) -> bool {
    out.location@ == row.location@ && out.time == row.time
}

/// Where every reading belongs to a trip that exists, a trip that does not
/// exist has no readings.
proof fn no_data_without_trip(storage: MemoryStorage, trip: Uuid, n: int)
    requires
        storage.wf(),
        !has_trip(storage.trips@, trip),
        0 <= n <= storage.data@.len(),
    ensures
        data_of(storage.data@.take(n), trip).len() == 0,
    decreases n,
{
    if n > 0 {
        no_data_without_trip(storage, trip, n - 1);
        assert(storage.data@.take(n).drop_last() == storage.data@.take(n - 1));
        assert(storage.data@.take(n).last() == storage.data@[n - 1]);
        assert(has_trip(storage.trips@, storage.data@[n - 1].trip));
    }
}

/// Whether an insertion was made, whatever else the answer holds.
pub open spec fn inserted(r: Result<Rows, StorageError>) -> Result<(), StorageError> {
    match r {
        Ok(_) => Ok(()),
        Err(e) => Err(e),
    }
}

impl MemoryStorage {
    /// The tables are well formed when no two paths and no two trips share
    /// an identifier, every trip follows a path that exists, every reading
    /// belongs to a trip that exists, and the history is in order.
    pub open spec fn wf(self) -> bool {
        &&& forall|i: int, j: int|
            0 <= i < j < self.paths@.len() ==> self.paths@[i].uuid != self.paths@[j].uuid
        &&& forall|i: int, j: int|
            0 <= i < j < self.trips@.len() ==> self.trips@[i].uuid != self.trips@[j].uuid
        &&& forall|i: int|
            0 <= i < self.trips@.len() ==> has_path(self.paths@, (#[trigger] self.trips@[i]).path)
        &&& forall|i: int|
            0 <= i < self.data@.len() ==> has_trip(self.trips@, (#[trigger] self.data@[i]).trip)
        &&& in_order(self.history@)
    }

    /// Whether two states hold the same rows.
    pub open spec fn same_rows(self, other: MemoryStorage) -> bool {
        &&& self.paths@ == other.paths@
        &&& self.trips@ == other.trips@
        &&& self.data@ == other.data@
        &&& self.history@ == other.history@
    }

    /// What inserting a path does: the row is added after the others,
    /// unless its identifier is taken; then nothing is written.
    pub open spec fn inserts_path(
        self,
        row: PathRow,
        after: MemoryStorage,
        r: Result<(), StorageError>,
    ) -> bool {
        &&& after.trips@ == self.trips@
        &&& after.data@ == self.data@
        &&& after.history@ == self.history@
        &&& match r {
            Ok(_) => !has_path(self.paths@, row.uuid) && after.paths@ == self.paths@.push(row),
            Err(e) => e == StorageError::Unavailable && has_path(self.paths@, row.uuid)
                && after.paths@ == self.paths@,
        }
    }

    /// What inserting a trip does: the row is added after the others,
    /// unless its path does not exist or its identifier is taken; then
    /// nothing is written, and a path that does not exist is reported as a
    /// missing reference.
    pub open spec fn inserts_trip(
        self,
        row: TripValues,
        after: MemoryStorage,
        r: Result<(), StorageError>,
    ) -> bool {
        &&& after.paths@ == self.paths@
        &&& after.data@ == self.data@
        &&& after.history@ == self.history@
        &&& match r {
            Ok(_) => has_path(self.paths@, row.path) && !has_trip(self.trips@, row.uuid)
                && after.trips@ == self.trips@.push(row),
            Err(e) => {
                &&& after.trips@ == self.trips@
                &&& !has_path(self.paths@, row.path) || has_trip(self.trips@, row.uuid)
                &&& e == (if has_path(self.paths@, row.path) {
                    StorageError::Unavailable
                } else {
                    StorageError::MissingReference
                })
            },
        }
    }

    /// What inserting a reading does: the row is added after the others,
    /// unless its trip does not exist; then nothing is written.
    pub open spec fn inserts_data(
        self,
        row: DataRow,
        after: MemoryStorage,
        r: Result<(), StorageError>,
    ) -> bool {
        &&& after.paths@ == self.paths@
        &&& after.trips@ == self.trips@
        &&& after.history@ == self.history@
        &&& match r {
            Ok(_) => has_trip(self.trips@, row.trip) && after.data@ == self.data@.push(row),
            Err(e) => e == StorageError::MissingReference && !has_trip(self.trips@, row.trip)
                && after.data@ == self.data@,
        }
    }

    /// What inserting a position does: the row is added at its place in the
    /// order of the instants.
    pub open spec fn inserts_history(self, row: GPSValues, after: MemoryStorage) -> bool {
        &&& after.paths@ == self.paths@
        &&& after.trips@ == self.trips@
        &&& after.data@ == self.data@
        &&& exists|place: int|
            0 <= place <= self.history@.len() && after.history@ == self.history@.insert(place, row)
    }

    /// Empty tables.
    pub fn new() -> (storage: MemoryStorage)
        ensures
            storage.wf(),
            storage.paths@.len() == 0,
            storage.trips@.len() == 0,
            storage.data@.len() == 0,
            storage.history@.len() == 0,
    {
        MemoryStorage { paths: Vec::new(), trips: Vec::new(), data: Vec::new(), history: Vec::new() }
    }

    /// The place of the path of the given identifier, if there is one.
    pub fn find_path(&self, uuid: Uuid) -> (place: Option<usize>)
        ensures
            match place {
                Some(i) => i < self.paths@.len() && self.paths@[i as int].uuid == uuid,
                None => !has_path(self.paths@, uuid),
            },
    {
        let mut i: usize = 0;
        while i < self.paths.len()
            invariant
                i <= self.paths@.len(),
                forall|k: int| 0 <= k < i ==> self.paths@[k].uuid != uuid,
            decreases self.paths@.len() - i,
        {
            if self.paths[i].uuid == uuid {
                return Some(i);
            }
            i = i + 1;
        }
        None
    }

    /// The place of the trip of the given identifier, if there is one.
    pub fn find_trip(&self, uuid: Uuid) -> (place: Option<usize>)
        ensures
            match place {
                Some(i) => i < self.trips@.len() && self.trips@[i as int].uuid == uuid,
                None => !has_trip(self.trips@, uuid),
            },
    {
        let mut i: usize = 0;
        while i < self.trips.len()
            invariant
                i <= self.trips@.len(),
                forall|k: int| 0 <= k < i ==> self.trips@[k].uuid != uuid,
            decreases self.trips@.len() - i,
        {
            if self.trips[i].uuid == uuid {
                return Some(i);
            }
            i = i + 1;
        }
        None
    }

    /// Inserts a path. An identifier that is taken is refused, and nothing
    /// is written.
    pub fn insert_path(&mut self, name: String, path: Json, uuid: Uuid) -> (r: Result<
        (),
        StorageError,
    >)
        requires
            old(self).wf(),
        ensures
            final(self).wf(),
            old(self).inserts_path(PathRow { uuid, name, path }, *final(self), r),
    {
        match self.find_path(uuid) {
            Some(_) => Err(StorageError::Unavailable),
            None => {
                self.paths.push(PathRow { uuid, name, path });
                proof {
                    let after = self.paths@;
                    assert forall|i: int| 0 <= i < self.trips@.len() implies has_path(
                        after,
                        (#[trigger] self.trips@[i]).path,
                    ) by {
                        let k = choose|k: int|
                            0 <= k < old(self).paths@.len() && (#[trigger] old(self).paths@[k]).uuid
                                == self.trips@[i].path;
                        assert(after[k].uuid == self.trips@[i].path);
                    }
                }
                Ok(())
            },
        }
    }

    /// Inserts a trip that starts at `now`. A trip on a path that does not
    /// exist is refused, and so is an identifier that is taken; nothing is
    /// written then.
    pub fn insert_trip(&mut self, uuid: Uuid, path: Uuid, now: OffsetDateTime) -> (r: Result<
        (),
        StorageError,
    >)
        requires
            old(self).wf(),
        ensures
            final(self).wf(),
            old(self).inserts_trip(TripValues { uuid, time: now, path }, *final(self), r),
    {
        if self.find_path(path).is_none() {
            return Err(StorageError::MissingReference);
        }
        if self.find_trip(uuid).is_some() {
            return Err(StorageError::Unavailable);
        }
        self.trips.push(TripValues { uuid, time: now, path });
        proof {
            let after = self.trips@;
            assert forall|i: int| 0 <= i < self.data@.len() implies has_trip(
                after,
                (#[trigger] self.data@[i]).trip,
            ) by {
                let k = choose|k: int|
                    0 <= k < old(self).trips@.len() && (#[trigger] old(self).trips@[k]).uuid
                        == self.data@[i].trip;
                assert(after[k].uuid == self.data@[i].trip);
            }
            assert forall|i: int| 0 <= i < after.len() implies has_path(
                self.paths@,
                (#[trigger] after[i]).path,
            ) by {
                if i < old(self).trips@.len() {
                    assert(after[i] == old(self).trips@[i]);
                }
            }
        }
        Ok(())
    }

    /// Inserts a reading taken at `now`. A reading of a trip that does not
    /// exist is refused, and nothing is written.
    pub fn insert_data(&mut self, row: DataRow) -> (r: Result<(), StorageError>)
        requires
            old(self).wf(),
        ensures
            final(self).wf(),
            old(self).inserts_data(row, *final(self), r),
    {
        if self.find_trip(row.trip).is_none() {
            return Err(StorageError::MissingReference);
        }
        self.data.push(row);
        proof {
            assert forall|i: int| 0 <= i < self.data@.len() implies has_trip(
                self.trips@,
                (#[trigger] self.data@[i]).trip,
            ) by {
                if i < old(self).data@.len() {
                    assert(self.data@[i] == old(self).data@[i]);
                }
            }
        }
        Ok(())
    }

    /// Inserts a position taken at `now`, after the positions that are not
    /// later than it and before those that are.
    pub fn insert_history(&mut self, location: Json, now: OffsetDateTime)
        requires
            old(self).wf(),
        ensures
            final(self).wf(),
            old(self).inserts_history(GPSValues { location, time: now }, *final(self)),
    {
        let mut place: usize = 0;
        while place < self.history.len() && !is_earlier(&now, &self.history[place].time)
            invariant
                place <= self.history@.len(),
                forall|k: int| 0 <= k < place ==> !earlier(now, self.history@[k].time),
            decreases self.history@.len() - place,
        {
            place = place + 1;
        }
        let ghost before = self.history@;
        self.history.insert(place, GPSValues { location, time: now });
        proof {
            let after = self.history@;
            assert(after == before.insert(place as int, GPSValues { location, time: now }));
            assert forall|i: int, j: int| 0 <= i < j < after.len() implies !earlier(
                after[j].time,
                after[i].time,
            ) by {
                if j < place {
                    assert(after[i] == before[i] && after[j] == before[j]);
                } else if j == place {
                    assert(after[i] == before[i]);
                } else if i < place {
                    assert(after[i] == before[i] && after[j] == before[j - 1]);
                } else if i == place {
                    assert(after[j] == before[j - 1]);
                    assert(place < before.len());
                    assert(earlier(now, before[place as int].time));
                    assert(!earlier(before[j - 1].time, before[place as int].time));
                } else {
                    assert(after[i] == before[i - 1] && after[j] == before[j - 1]);
                }
            }
        }
    }

    /// What a request for the readings of a trip is owed: the rows of the
    /// trip, in the order in which they were inserted.
    pub open spec fn selects_data(self, trip: Uuid, rows: Seq<DataValues>) -> bool {
        &&& rows.len() == data_of(self.data@, trip).len()
        &&& forall|k: int|
            0 <= k < rows.len() ==> shows_reading(data_of(self.data@, trip)[k], #[trigger] rows[k])
    }

    /// The readings of a trip.
    pub fn select_data(&self, trip: Uuid) -> (rows: Vec<DataValues>)
        ensures
            self.selects_data(trip, rows@),
    {
        let mut rows: Vec<DataValues> = Vec::new();
        let mut i: usize = 0;
        while i < self.data.len()
            invariant
                i <= self.data@.len(),
                rows@.len() == data_of(self.data@.take(i as int), trip).len(),
                forall|k: int|
                    0 <= k < rows@.len() ==> shows_reading(
                        data_of(self.data@.take(i as int), trip)[k],
                        #[trigger] rows@[k],
                    ),
            decreases self.data@.len() - i,
        {
            proof {
                assert(self.data@.take(i + 1).drop_last() == self.data@.take(i as int));
            }
            let row = &self.data[i];
            if row.trip == trip {
                rows.push(
                    DataValues {
                        temperature: row.temperature,
                        location: row.location.clone(),
                        depth: row.depth,
                        layer: row.layer,
                        time: row.time,
                    },
                );
            }
            i = i + 1;
        }
        proof {
            assert(self.data@.take(i as int) == self.data@);
        }
        rows
    }

    /// The name of the path that a trip follows.
    pub open spec fn path_name(self, trip: Uuid) -> Seq<char> {
        let t = choose|t: int| 0 <= t < self.trips@.len() && (#[trigger] self.trips@[t]).uuid == trip;
        let p = choose|p: int|
            0 <= p < self.paths@.len() && (#[trigger] self.paths@[p]).uuid == self.trips@[t].path;
        self.paths@[p].name@
    }

    /// What a request for the records of a trip is owed: the rows of the
    /// trip, in the order in which they were inserted, each with the name of
    /// the path that the trip follows.
    pub open spec fn selects_records(self, trip: Uuid, rows: Seq<DataRecord>) -> bool {
        &&& rows.len() == data_of(self.data@, trip).len()
        &&& forall|k: int|
            0 <= k < rows.len() ==> shows_record(
                data_of(self.data@, trip)[k],
                self.path_name(trip),
                #[trigger] rows[k],
            )
    }

    /// The readings of a trip, joined with the trip and with its path.
    pub fn select_data_records(&self, trip: Uuid) -> (rows: Vec<DataRecord>)
        requires
            self.wf(),
        ensures
            self.selects_records(trip, rows@),
    {
        let t = match self.find_trip(trip) {
            Some(t) => t,
            None => {
                proof {
                    no_data_without_trip(*self, trip, self.data@.len() as int);
                    assert(self.data@.take(self.data@.len() as int) == self.data@);
                }
                return Vec::new();
            },
        };
        let p = match self.find_path(self.trips[t].path) {
            Some(p) => p,
            None => {
                assert(has_path(self.paths@, self.trips@[t as int].path));
                return Vec::new();
            },
        };
        proof {
            let tc = choose|tc: int|
                0 <= tc < self.trips@.len() && (#[trigger] self.trips@[tc]).uuid == trip;
            assert(tc == t);
            let pc = choose|pc: int|
                0 <= pc < self.paths@.len() && (#[trigger] self.paths@[pc]).uuid
                    == self.trips@[t as int].path;
            assert(pc == p);
        }
        let name = &self.paths[p].name;
        let mut rows: Vec<DataRecord> = Vec::new();
        let mut i: usize = 0;
        while i < self.data.len()
            invariant
                i <= self.data@.len(),
                name@ == self.path_name(trip),
                rows@.len() == data_of(self.data@.take(i as int), trip).len(),
                forall|k: int|
                    0 <= k < rows@.len() ==> shows_record(
                        data_of(self.data@.take(i as int), trip)[k],
                        self.path_name(trip),
                        #[trigger] rows@[k],
                    ),
            decreases self.data@.len() - i,
        {
            proof {
                assert(self.data@.take(i + 1).drop_last() == self.data@.take(i as int));
            }
            let row = &self.data[i];
            if row.trip == trip {
                rows.push(
                    DataRecord {
                        temperature: row.temperature,
                        location: row.location.clone(),
                        depth: row.depth,
                        name: name.clone(),
                        layer: row.layer,
                        time: row.time,
                    },
                );
            }
            i = i + 1;
        }
        proof {
            assert(self.data@.take(i as int) == self.data@);
        }
        rows
    }

    /// What a request for the `count` most recent positions is owed: the
    /// last `count` rows of the history, or all of them where there are
    /// fewer, the last one first. A negative count is refused.
    pub open spec fn selects_history(self, count: i64, r: Result<Vec<GPSValues>, StorageError>) -> bool {
        match r {
            Ok(rows) => {
                &&& count >= 0
                &&& rows@.len() == (if count <= self.history@.len() {
                    count as int
                } else {
                    self.history@.len() as int
                })
                &&& forall|k: int|
                    0 <= k < rows@.len() ==> same_position(
                        self.history@[self.history@.len() - 1 - k],
                        #[trigger] rows@[k],
                    )
            },
            Err(e) => e == StorageError::Unavailable && count < 0,
        }
    }

    /// The most recent positions, newest first.
    pub fn select_history(&self, count: i64) -> (r: Result<Vec<GPSValues>, StorageError>)
        ensures
            self.selects_history(count, r),
    {
        if count < 0 {
            return Err(StorageError::Unavailable);
        }
        let len = self.history.len();
        let mut rows: Vec<GPSValues> = Vec::new();
        let mut k: usize = 0;
        while k < len && (k as u64) < (count as u64)
            invariant
                len == self.history@.len(),
                count >= 0,
                k <= len,
                k <= count,
                rows@.len() == k,
                forall|j: int|
                    0 <= j < k ==> same_position(self.history@[len - 1 - j], #[trigger] rows@[j]),
            decreases len - k,
        {
            let row = &self.history[len - 1 - k];
            rows.push(GPSValues { location: row.location.clone(), time: row.time });
            k = k + 1;
        }
        Ok(rows)
    }

    /// What a request for the list of paths is owed: the name and the
    /// identifier of every path, in the order in which they were inserted.
    pub open spec fn selects_paths(self, rows: Seq<PathValues>) -> bool {
        &&& rows.len() == self.paths@.len()
        &&& forall|k: int|
            0 <= k < rows.len() ==> (#[trigger] rows[k]).uuid == self.paths@[k].uuid && rows[k].name@
                == self.paths@[k].name@
    }

    /// Every path.
    pub fn select_paths(&self) -> (rows: Vec<PathValues>)
        ensures
            self.selects_paths(rows@),
    {
        let mut rows: Vec<PathValues> = Vec::new();
        let mut i: usize = 0;
        while i < self.paths.len()
            invariant
                i <= self.paths@.len(),
                rows@.len() == i,
                forall|k: int|
                    0 <= k < i ==> (#[trigger] rows@[k]).uuid == self.paths@[k].uuid && rows@[k].name@
                        == self.paths@[k].name@,
            decreases self.paths@.len() - i,
        {
            rows.push(PathValues { name: self.paths[i].name.clone(), uuid: self.paths[i].uuid });
            i = i + 1;
        }
        rows
    }

    /// What a request for one path is owed: the name and the route of the
    /// path of that identifier; or, where there is none, that it is missing.
    pub open spec fn selects_path(self, uuid: Uuid, r: Result<PathData, StorageError>) -> bool {
        match r {
            Ok(row) => exists|i: int|
                0 <= i < self.paths@.len() && (#[trigger] self.paths@[i]).uuid == uuid && row.name@
                    == self.paths@[i].name@ && row.path@ == self.paths@[i].path@,
            Err(e) => e == StorageError::MissingReference && !has_path(self.paths@, uuid),
        }
    }

    /// One path.
    pub fn select_path(&self, uuid: Uuid) -> (r: Result<PathData, StorageError>)
        ensures
            self.selects_path(uuid, r),
    {
        match self.find_path(uuid) {
            Some(i) => Ok(
                PathData { name: self.paths[i].name.clone(), path: self.paths[i].path.clone() },
            ),
            None => Err(StorageError::MissingReference),
        }
    }

    /// Every trip, in the order in which they were inserted.
    pub fn select_trips(&self) -> (rows: Vec<TripValues>)
        ensures
            rows@ == self.trips@,
    {
        let mut rows: Vec<TripValues> = Vec::new();
        let mut i: usize = 0;
        while i < self.trips.len()
            invariant
                i <= self.trips@.len(),
                rows@ == self.trips@.take(i as int),
            decreases self.trips@.len() - i,
        {
            rows.push(self.trips[i]);
            proof {
                assert(rows@ =~= self.trips@.take(i + 1));
            }
            i = i + 1;
        }
        proof {
            assert(self.trips@.take(i as int) == self.trips@);
        }
        rows
    }

    /// What a statement does to the tables and what it is answered, when
    /// it is run at `now`: `after` and `r`, for the tables `self`.
    pub open spec fn answers(
        self,
        statement: Statement,
        now: OffsetDateTime,
        after: MemoryStorage,
        r: Result<Rows, StorageError>,
    ) -> bool {
        match statement {
            Statement::SelectData { trip } => {
                &&& after.same_rows(self)
                &&& r matches Ok(Rows::Data(rows))
                &&& self.selects_data(trip, rows@)
            },
            Statement::SelectDataRecords { trip } => {
                &&& after.same_rows(self)
                &&& r matches Ok(Rows::DataRecords(rows))
                &&& self.selects_records(trip, rows@)
            },
            Statement::InsertData { temperature, location, depth, layer, trip } => {
                &&& self.inserts_data(
                    DataRow { temperature, location, depth, layer, trip, time: now },
                    after,
                    inserted(r),
                )
                &&& r is Ok ==> r->Ok_0 is Inserted
            },
            Statement::SelectHistory { count } => {
                &&& after.same_rows(self)
                &&& match r {
                    Ok(Rows::History(rows)) => self.selects_history(count, Ok(rows)),
                    Ok(_) => false,
                    Err(e) => self.selects_history(count, Err(e)),
                }
            },
            Statement::InsertHistory { location } => {
                &&& self.inserts_history(GPSValues { location, time: now }, after)
                &&& r matches Ok(Rows::Inserted)
            },
            Statement::SelectPaths => {
                &&& after.same_rows(self)
                &&& r matches Ok(Rows::Paths(rows))
                &&& self.selects_paths(rows@)
            },
            Statement::SelectPath { uuid } => {
                &&& after.same_rows(self)
                &&& match r {
                    Ok(Rows::Path(row)) => self.selects_path(uuid, Ok(row)),
                    Ok(_) => false,
                    Err(e) => self.selects_path(uuid, Err(e)),
                }
            },
            Statement::InsertPath { name, path, uuid } => {
                &&& self.inserts_path(PathRow { uuid, name, path }, after, inserted(r))
                &&& r is Ok ==> r->Ok_0 is Inserted
            },
            Statement::SelectTrips => {
                &&& after.same_rows(self)
                &&& r matches Ok(Rows::Trips(rows))
                &&& rows@ == self.trips@
            },
            Statement::InsertTrip { uuid, path } => {
                &&& self.inserts_trip(TripValues { uuid, time: now, path }, after, inserted(r))
                &&& r is Ok ==> r->Ok_0 is Inserted
            },
        }
    }

    /// Runs one statement at `now`.
    pub fn execute(&mut self, statement: Statement, now: OffsetDateTime) -> (r: Result<
        Rows,
        StorageError,
    >)
        requires
            old(self).wf(),
        ensures
            final(self).wf(),
            old(self).answers(statement, now, *final(self), r),
    {
        match statement {
            Statement::SelectData { trip } => Ok(Rows::Data(self.select_data(trip))),
            Statement::SelectDataRecords { trip } => Ok(
                Rows::DataRecords(self.select_data_records(trip)),
            ),
            Statement::InsertData { temperature, location, depth, layer, trip } => {
                match self.insert_data(
                    DataRow { temperature, location, depth, layer, trip, time: now },
                ) {
                    Ok(_) => Ok(Rows::Inserted),
                    Err(e) => Err(e),
                }
            },
            Statement::SelectHistory { count } => match self.select_history(count) {
                Ok(rows) => Ok(Rows::History(rows)),
                Err(e) => Err(e),
            },
            Statement::InsertHistory { location } => {
                self.insert_history(location, now);
                Ok(Rows::Inserted)
            },
            Statement::SelectPaths => Ok(Rows::Paths(self.select_paths())),
            Statement::SelectPath { uuid } => match self.select_path(uuid) {
                Ok(row) => Ok(Rows::Path(row)),
                Err(e) => Err(e),
            },
            Statement::InsertPath { name, path, uuid } => {
                match self.insert_path(name, path, uuid) {
                    Ok(_) => Ok(Rows::Inserted),
                    Err(e) => Err(e),
                }
            },
            Statement::SelectTrips => Ok(Rows::Trips(self.select_trips())),
            Statement::InsertTrip { uuid, path } => match self.insert_trip(uuid, path, now) {
                Ok(_) => Ok(Rows::Inserted),
                Err(e) => Err(e),
            },
        }
    }
}

/// What is read from the history is what storage owes to a request for the
/// most recent positions: at most as many rows as were asked for, none
/// where none were asked for, and the newest first.
pub proof fn history_is_answered_newest_first(
    storage: MemoryStorage,
    count: i64,
    rows: Vec<GPSValues>,
)
    requires
        storage.wf(),
        storage.selects_history(count, Ok(rows)),
    ensures
        answers_history(rows@, count),
        count == 0 ==> rows@.len() == 0,
        count >= storage.history@.len() ==> rows@.len() == storage.history@.len(),
{
    let len = storage.history@.len() as int;
    assert forall|i: int, j: int| 0 <= i < j < rows@.len() implies !earlier(
        rows@[i].time,
        rows@[j].time,
    ) by {
        assert(same_position(storage.history@[len - 1 - i], rows@[i]));
        assert(same_position(storage.history@[len - 1 - j], rows@[j]));
    }
}

/// A path that was inserted is the path that is selected under its
/// identifier.
pub proof fn inserted_path_is_selected(
    before: MemoryStorage,
    row: PathRow,
    after: MemoryStorage,
    r: Result<PathData, StorageError>,
)
    requires
        before.wf(),
        before.inserts_path(row, after, Ok(())),
        after.selects_path(row.uuid, r),
    ensures
        r matches Ok(found) && found.name@ == row.name@ && found.path@ == row.path@,
{
    let last = before.paths@.len() as int;
    assert(after.paths@[last] == row);
    assert(has_path(after.paths@, row.uuid));
    let found = r->Ok_0;
    let i = choose|i: int|
        0 <= i < after.paths@.len() && (#[trigger] after.paths@[i]).uuid == row.uuid && found.name@
            == after.paths@[i].name@ && found.path@ == after.paths@[i].path@;
    if i < last {
        assert(before.paths@[i] == after.paths@[i]);
        assert(has_path(before.paths@, row.uuid));
    }
}

/// A trip on a path that does not exist is refused as a missing reference,
/// and the tables stay as they were.
pub proof fn trip_without_path_writes_nothing(
    before: MemoryStorage,
    row: TripValues,
    after: MemoryStorage,
    r: Result<(), StorageError>,
)
    requires
        !has_path(before.paths@, row.path),
        before.inserts_trip(row, after, r),
    ensures
        r == Err::<(), StorageError>(StorageError::MissingReference),
        after.same_rows(before),
{
}

} // verus!
