//! Trips within a room.
use vstd::prelude::*;
use crate::error::{bad_request, is_bad_request, AppError};
use crate::ids::{uuid_text, uuid_to_string};
use crate::models::trip;
use crate::text::{trim_seq, trimmed_non_empty};

verus! {

/// A new trip's name.
#[derive(Debug, PartialEq, Eq)]
pub struct CreateTripRequest {
    pub name: String,
}

/// A trip as the client sees it.
#[derive(Debug, PartialEq, Eq)]
pub struct TripResponse {
    pub id: String,
    pub room_id: String,
    pub name: String,
    pub created_at: String,
}

/// The name a new trip is stored under: trimmed, and not empty.
pub fn validate_trip_name(req: &CreateTripRequest) -> (r: Result<String, AppError>)
    ensures
        if trim_seq(req.name@).len() == 0 {
            r matches Err(e) && is_bad_request(e, "ชื่อทริปไม่สามารถว่างได้"@)
        } else {
            r matches Ok(n) && n@ == trim_seq(req.name@)
        },
{
    match trimmed_non_empty(req.name.as_str()) {
        Some(n) => Ok(n),
        None => Err(bad_request("ชื่อทริปไม่สามารถว่างได้")),
    }
}

/// A stored trip as the client sees it.
pub fn trip_response(t: &trip::Model) -> (r: TripResponse)
    ensures
        r.id@ == uuid_text(t.id),
        r.room_id@ == uuid_text(t.room_id),
        r.name@ == t.name@,
        r.created_at@ == t.created_at@,
{
    TripResponse {
        id: uuid_to_string(t.id),
        room_id: uuid_to_string(t.room_id),
        name: t.name.clone(),
        created_at: t.created_at.clone(),
    }
}

/// A room's trips as the client sees them, in the order given.
pub fn trip_responses(trips: &Vec<trip::Model>) -> (r: Vec<TripResponse>)
    ensures
        r@.len() == trips@.len(),
        forall|i: int|
            0 <= i < trips@.len() ==> (#[trigger] r@[i]).id@ == uuid_text(trips@[i].id) && r@[i].room_id@
                == uuid_text(trips@[i].room_id) && r@[i].name@ == trips@[i].name@
                && r@[i].created_at@ == trips@[i].created_at@,
{
    let mut out: Vec<TripResponse> = Vec::new();
    let mut i: usize = 0;
    while i < trips.len()
        invariant
            i <= trips.len(),
            out@.len() == i,
            forall|k: int|
                0 <= k < i ==> (#[trigger] out@[k]).id@ == uuid_text(trips@[k].id) && out@[k].room_id@
                    == uuid_text(trips@[k].room_id) && out@[k].name@ == trips@[k].name@
                    && out@[k].created_at@ == trips@[k].created_at@,
        decreases trips.len() - i,
    {
        out.push(trip_response(&trips[i]));
        i = i + 1;
    }
    out
}

} // verus!
