//! Coordinates and their codec.
//!
//! A coordinate is stored, and sent, as a JSON object with the two members
//! `latitude` and `longitude`. On the way in, `lat` and `lng` are accepted in
//! their place, and so is an array of the two numbers, latitude first.

use vstd::prelude::*;
use crate::json::{
    array_view, field, find_field, items_view, members_view, object_view, values_named, Json,
    JsonTree, Member,
};
use crate::number::Real;

verus! {

/// A struct representing a coordinate in a map.
#[derive(Clone, Copy, Debug, PartialEq, Eq, Structural)]
pub struct Coordinates {
    /// The latitude of the coordinate.
    pub latitude: Real,
    /// The longitude of the coordinate.
    pub longitude: Real,
}

/// The document that stands for a number: JSON has no infinity and no NaN,
/// and `null` takes their place.
pub open spec fn number_document(r: Real) -> JsonTree {
    if r.finite() {
        JsonTree::Number(r)
    } else {
        JsonTree::Null
    }
}

fn number_to_document(r: Real) -> (doc: Json)
    ensures
        doc@ == number_document(r),
{
    if r.is_finite() {
        Json::Number(r)
    } else {
        Json::Null
    }
}

impl Coordinates {
    /// A coordinate can be stored when both of its numbers are finite.
    pub open spec fn valid(self) -> bool {
        self.latitude.finite() && self.longitude.finite()
    }

    /// The encoding of a coordinate: an object of two members, `latitude`
    /// and `longitude`, in this order.
    pub open spec fn encoded(self) -> JsonTree {
        JsonTree::Object(
            seq![
                ("latitude"@, number_document(self.latitude)),
                ("longitude"@, number_document(self.longitude)),
            ],
        )
    }

    /// The coordinate of two numbers, where both are finite.
    pub open spec fn checked(latitude: Real, longitude: Real) -> Option<Coordinates> {
        if latitude.finite() && longitude.finite() {
            Some(Coordinates { latitude, longitude })
        } else {
            None
        }
    }

    /// The coordinate that a document holds, if it holds one.
    ///
    /// An object holds one when it gives exactly one value for the latitude
    /// (under `latitude` or `lat`) and exactly one for the longitude (under
    /// `longitude` or `lng`), both of them finite numbers; what else it
    /// holds is passed over. An array holds one when it is made of two
    /// finite numbers.
    pub open spec fn decoded(doc: JsonTree) -> Option<Coordinates> {
        match doc {
            JsonTree::Object(members) => {
                match (
                    field(members, "latitude"@, "lat"@),
                    field(members, "longitude"@, "lng"@),
                ) {
                    (Some(JsonTree::Number(latitude)), Some(JsonTree::Number(longitude))) => {
                        Coordinates::checked(latitude, longitude)
                    },
                    _ => None,
                }
            },
            JsonTree::Array(items) => {
                if items.len() == 2 {
                    match (items[0], items[1]) {
                        (JsonTree::Number(latitude), JsonTree::Number(longitude)) => {
                            Coordinates::checked(latitude, longitude)
                        },
                        _ => None,
                    }
                } else {
                    None
                }
            },
            _ => None,
        }
    }

    pub fn new(latitude: Real, longitude: Real) -> (c: Coordinates)
        ensures
            c.latitude == latitude,
            c.longitude == longitude,
    {
        Coordinates { latitude, longitude }
    }

    pub fn is_valid(&self) -> (b: bool)
        ensures
            b == self.valid(),
    {
        self.latitude.is_finite() && self.longitude.is_finite()
    }

    /// The coordinate of two numbers, where both are finite.
    pub fn check(latitude: Real, longitude: Real) -> (r: Option<Coordinates>)
        ensures
            r == Coordinates::checked(latitude, longitude),
    {
        if latitude.is_finite() && longitude.is_finite() {
            Some(Coordinates { latitude, longitude })
        } else {
            None
        }
    }

    /// Encodes a coordinate as the document that is stored for it.
    pub fn encode(&self) -> (doc: Json)
        ensures
            doc@ == self.encoded(),
    {
        let mut members: Vec<Member> = Vec::new();
        members.push(
            Member { key: String::from_str("latitude"), value: number_to_document(self.latitude) },
        );
        members.push(
            Member {
                key: String::from_str("longitude"),
                value: number_to_document(self.longitude),
            },
        );
        proof {
            object_view(members);
            assert(members_view(members@) =~= seq![
                ("latitude"@, number_document(self.latitude)),
                ("longitude"@, number_document(self.longitude)),
            ]);
        }
        Json::Object(members)
    }

    /// Decodes a document into the coordinate that it holds.
    pub fn decode(doc: &Json) -> (r: Option<Coordinates>)
        ensures
            r == Coordinates::decoded(doc@),
    {
        match doc {
            Json::Object(members) => {
                proof {
                    object_view(*members);
                }
                let latitude = find_field(members, "latitude", "lat");
                let longitude = find_field(members, "longitude", "lng");
                match (latitude, longitude) {
                    (Some(Json::Number(latitude)), Some(Json::Number(longitude))) => {
                        Coordinates::check(*latitude, *longitude)
                    },
                    _ => None,
                }
            },
            Json::Array(items) => {
                proof {
                    array_view(*items);
                }
                if items.len() == 2 {
                    match (&items[0], &items[1]) {
                        (Json::Number(latitude), Json::Number(longitude)) => {
                            Coordinates::check(*latitude, *longitude)
                        },
                        _ => None,
                    }
                } else {
                    None
                }
            },
            _ => None,
        }
    }
}

/// The encoding of a route: the array of the encodings of its points, in
/// travel order.
pub open spec fn encoded_route(route: Seq<Coordinates>) -> JsonTree {
    JsonTree::Array(Seq::new(route.len(), |i: int| route[i].encoded()))
}

/// The route that a document holds: the document is an array, and every
/// item of it holds a coordinate.
pub open spec fn decoded_route(doc: JsonTree) -> Option<Seq<Coordinates>> {
    match doc {
        JsonTree::Array(items) => {
            if forall|i: int| 0 <= i < items.len() ==> (#[trigger] Coordinates::decoded(items[i])) is Some {
                Some(Seq::new(items.len(), |i: int| Coordinates::decoded(items[i]).unwrap()))
            } else {
                None
            }
        },
        _ => None,
    }
}

/// Encodes a route, point by point.
pub fn encode_route(route: &Vec<Coordinates>) -> (doc: Json)
    ensures
        doc@ == encoded_route(route@),
{
    let mut items: Vec<Json> = Vec::new();
    let mut i: usize = 0;
    while i < route.len()
        invariant
            i <= route.len(),
            items@.len() == i,
            forall|k: int| 0 <= k < i ==> (#[trigger] items@[k])@ == route@[k].encoded(),
        decreases route.len() - i,
    {
        items.push(route[i].encode());
        i = i + 1;
    }
    proof {
        array_view(items);
        assert(items_view(items@) =~= Seq::new(route@.len(), |i: int| route@[i].encoded()));
    }
    Json::Array(items)
}

/// Decodes a route. One item that holds no coordinate fails the whole route.
pub fn decode_route(doc: &Json) -> (r: Option<Vec<Coordinates>>)
    ensures
        match r {
            Some(route) => decoded_route(doc@) == Some(route@),
            None => decoded_route(doc@) is None,
        },
{
    match doc {
        Json::Array(items) => {
            proof {
                array_view(*items);
            }
            let ghost trees = items_view(items@);
            let mut route: Vec<Coordinates> = Vec::new();
            let mut i: usize = 0;
            while i < items.len()
                invariant
                    doc@ == JsonTree::Array(trees),
                    trees == items_view(items@),
                    i <= items.len(),
                    route@.len() == i,
                    forall|k: int|
                        0 <= k < i ==> (#[trigger] Coordinates::decoded(trees[k])) == Some(
                            route@[k],
                        ),
                decreases items.len() - i,
            {
                match Coordinates::decode(&items[i]) {
                    Some(point) => {
                        route.push(point);
                    },
                    None => {
                        assert(Coordinates::decoded(trees[i as int]) is None);
                        return None;
                    },
                }
                i = i + 1;
            }
            proof {
                assert(route@ =~= Seq::new(
                    trees.len(),
                    |i: int| Coordinates::decoded(trees[i]).unwrap(),
                ));
            }
            Some(route)
        },
        _ => None,
    }
}

/// No two of the four member names are the same text.
proof fn field_names_differ()
    ensures
        "latitude"@ != "lat"@,
        "latitude"@ != "longitude"@,
        "latitude"@ != "lng"@,
        "longitude"@ != "lat"@,
        "longitude"@ != "lng"@,
{
    reveal_strlit("latitude");
    reveal_strlit("longitude");
    reveal_strlit("lat");
    reveal_strlit("lng");
    assert("latitude"@.len() == 8);
    assert("longitude"@.len() == 9);
    assert("lat"@.len() == 3);
    assert("lng"@.len() == 3);
}

/// What the two fields of an encoding are read as: the two documents that
/// were written for the two numbers.
proof fn fields_of_encoding(c: Coordinates)
    ensures
        field(c.encoded()->Object_0, "latitude"@, "lat"@) == Some(number_document(c.latitude)),
        field(c.encoded()->Object_0, "longitude"@, "lng"@) == Some(number_document(c.longitude)),
{
    field_names_differ();
    let members = c.encoded()->Object_0;
    let first = members.drop_last();
    assert(first.len() == 1);
    assert(first.drop_last().len() == 0);
    assert(first.last() == members[0]);
    assert(members.last() == members[1]);
    reveal_with_fuel(values_named, 3);
}

/// Decoding gives back what was encoded: the document written for a valid
/// coordinate holds that coordinate.
pub proof fn coordinates_round_trip(c: Coordinates)
    requires
        c.valid(),
    ensures
        Coordinates::decoded(c.encoded()) == Some(c),
{
    fields_of_encoding(c);
}

/// A coordinate with an infinity or a NaN cannot be stored: what is written
/// for it holds no coordinate.
pub proof fn invalid_coordinates_do_not_decode(c: Coordinates)
    requires
        !c.valid(),
    ensures
        Coordinates::decoded(c.encoded()) is None,
{
    fields_of_encoding(c);
}

/// Whatever is decoded is valid.
pub proof fn decoded_coordinates_are_valid(doc: JsonTree)
    requires
        Coordinates::decoded(doc) is Some,
    ensures
        Coordinates::decoded(doc).unwrap().valid(),
{
}

/// Every point of a decoded route is valid.
pub proof fn decoded_route_is_valid(doc: JsonTree)
    requires
        decoded_route(doc) is Some,
    ensures
        forall|i: int|
            0 <= i < decoded_route(doc).unwrap().len() ==> (#[trigger] decoded_route(
                doc,
            ).unwrap()[i]).valid(),
{
    let items = doc->Array_0;
    assert forall|i: int| 0 <= i < items.len() implies (#[trigger] decoded_route(
        doc,
    ).unwrap()[i]).valid() by {
        assert(Coordinates::decoded(items[i]) is Some);
    }
}

/// Decoding gives back the route that was encoded, point for point and in
/// order.
pub proof fn route_round_trip(route: Seq<Coordinates>)
    requires
        forall|i: int| 0 <= i < route.len() ==> (#[trigger] route[i]).valid(),
    ensures
        decoded_route(encoded_route(route)) == Some(route),
{
    let items = encoded_route(route)->Array_0;
    assert forall|i: int| 0 <= i < items.len() implies (#[trigger] Coordinates::decoded(items[i]))
        == Some(route[i]) by {
        assert(route[i].valid());
        coordinates_round_trip(route[i]);
    }
    assert(Seq::new(items.len(), |i: int| Coordinates::decoded(items[i]).unwrap()) =~= route);
}

} // verus!
