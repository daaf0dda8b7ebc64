//! Fuel records of a room's trips.
use vstd::prelude::*;
use crate::error::{bad_request, is_bad_request, is_not_found, not_found, AppError};
use crate::ids::{parse_uuid, uuid_parse};

verus! {

/// The trip a fuel listing is narrowed to.
#[derive(Debug, PartialEq, Eq)]
pub struct ListFuelQuery {
    pub trip_id: Option<String>,
}

/// The name of the trip made for a room's first fuel record when the room
/// has no trip yet.
pub open spec fn default_trip_name_text() -> Seq<char> {
    "ทริปหลัก"@
}

/// The trip a listing is narrowed to: the given id where it parses; an id
/// that does not parse narrows nothing.
pub fn trip_filter(query: &ListFuelQuery) -> (r: Option<u128>)
    ensures
        r == match query.trip_id {
            Some(t) => uuid_parse(t@),
            None => None,
        },
{
    match &query.trip_id {
        Some(t) => parse_uuid(t.as_str()),
        None => None,
    }
}

/// The trip a new fuel record names, if it names one; the id must parse.
pub fn requested_trip(trip_id: &Option<String>) -> (r: Result<Option<u128>, AppError>)
    ensures
        match trip_id {
            None => r == Ok::<Option<u128>, AppError>(None),
            Some(t) => match uuid_parse(t@) {
                Some(u) => r == Ok::<Option<u128>, AppError>(Some(u)),
                None => r matches Err(e) && is_bad_request(e, "Invalid trip_id"@),
            },
        },
{
    match trip_id {
        None => Ok(None),
        Some(t) => match parse_uuid(t.as_str()) {
            Some(u) => Ok(Some(u)),
            None => Err(bad_request("Invalid trip_id")),
        },
    }
}

/// The named trip must exist (`trip_room` is the room of the trip found, if
/// any) and belong to the room the record is made in.
pub fn check_trip_in_room(trip_room: Option<u128>, room_id: u128) -> (r: Result<(), AppError>)
    ensures
        match trip_room {
            None => r matches Err(e) && is_not_found(e, "Trip not found"@),
            Some(t) => if t == room_id {
                r is Ok
            } else {
                r matches Err(e) && is_bad_request(e, "Trip does not belong to this room"@)
            },
        },
{
    match trip_room {
        None => Err(not_found("Trip not found")),
        Some(t) => {
            if t != room_id {
                return Err(bad_request("Trip does not belong to this room"));
            }
            Ok(())
        },
    }
}

/// The name of the trip made when a room has none.
pub fn default_trip_name() -> (r: String)
    ensures
        r@ == default_trip_name_text(),
{
    String::from_str("ทริปหลัก")
}

/// The name paired with the last entry for `id`, if any.
pub open spec fn name_of(names: Seq<(u128, String)>, id: u128) -> Option<Seq<char>>
    decreases names.len(),
{
    if names.len() == 0 {
        None
    } else if names.last().0 == id {
        Some(names.last().1@)
    } else {
        name_of(names.drop_last(), id)
    }
}

/// The name of a room or trip, from the ones a listing loaded.
pub fn lookup_name(names: &Vec<(u128, String)>, id: u128) -> (r: Option<String>)
    ensures
        match r {
            Some(n) => name_of(names@, id) == Some(n@),
            None => name_of(names@, id) is None,
        },
{
    let mut k: usize = names.len();
    assert(names@.take(k as int) == names@);
    while k > 0
        invariant
            k <= names.len(),
            name_of(names@, id) == name_of(names@.take(k as int), id),
        decreases k,
    {
        let ghost t = names@.take(k as int);
        assert(t.last() == names@[k - 1]);
        if names[k - 1].0 == id {
            return Some(names[k - 1].1.clone());
        }
        assert(t.drop_last() == names@.take(k - 1));
        k = k - 1;
    }
    None
}

} // verus!
