//! Rooms: groups of users who share a trip, joined by a code.
use vstd::prelude::*;
use crate::error::{is_not_found, not_found, AppError};
use crate::ids::{uuid_text, uuid_to_string};
use crate::models::room;
use crate::text::{trim, trim_seq};

verus! {

/// A new room's name.
#[derive(Debug, PartialEq, Eq)]
pub struct CreateRoomRequest {
    pub name: String,
}

/// The code of a room to join.
#[derive(Debug, PartialEq, Eq)]
pub struct JoinRoomRequest {
    pub code: String,
}

/// A room as the client sees it.
#[derive(Debug, PartialEq, Eq)]
pub struct RoomResponse {
    pub id: String,
    pub name: String,
    pub code: String,
    pub owner_id: String,
}

/// A room the caller belongs to, with when they joined it.
#[derive(Debug, PartialEq, Eq)]
pub struct RoomWithJoined {
    pub id: String,
    pub name: String,
    pub code: String,
    pub owner_id: String,
    pub joined_at: String,
}

/// Whether a room is shown as `r`.
pub open spec fn room_shown_as(r: RoomResponse, m: room::Model) -> bool {
    &&& r.id@ == uuid_text(m.id)
    &&& r.name@ == m.name@
    &&& r.code@ == m.code@
    &&& r.owner_id@ == uuid_text(m.owner_id)
}

/// A stored room as the client sees it.
pub fn room_response(m: &room::Model) -> (r: RoomResponse)
    ensures
        room_shown_as(r, *m),
        r.name == m.name,
        r.code == m.code,
{
    RoomResponse {
        id: uuid_to_string(m.id),
        name: m.name.clone(),
        code: m.code.clone(),
        owner_id: uuid_to_string(m.owner_id),
    }
}

/// A room a membership points to, with the time of joining; the room must exist.
pub fn joined_room(m: &Option<room::Model>, joined_at: String) -> (r: Result<RoomWithJoined, AppError>)
    ensures
        match m {
            None => r matches Err(e) && is_not_found(e, "Room not found"@),
            Some(x) => r matches Ok(w) && w.id@ == uuid_text(x.id) && w.name@ == x.name@
                && w.code@ == x.code@ && w.owner_id@ == uuid_text(x.owner_id) && w.joined_at
                == joined_at,
        },
{
    match m {
        None => Err(not_found("Room not found")),
        Some(x) => Ok(
            RoomWithJoined {
                id: uuid_to_string(x.id),
                name: x.name.clone(),
                code: x.code.clone(),
                owner_id: uuid_to_string(x.owner_id),
                joined_at,
            },
        ),
    }
}

/// The code a join request looks a room up by: the code as typed, trimmed.
pub fn join_code(req: &JoinRoomRequest) -> (r: String)
    ensures
        r@ == trim_seq(req.code@),
{
    trim(req.code.as_str())
}

/// The room a join request names, which must exist.
pub fn room_to_join(m: Option<room::Model>) -> (r: Result<room::Model, AppError>)
    ensures
        match m {
            None => r matches Err(e) && is_not_found(e, "Room not found"@),
            Some(x) => r == Ok::<room::Model, AppError>(x),
        },
{
    match m {
        None => Err(not_found("Room not found")),
        Some(x) => Ok(x),
    }
}

/// A room just created: the owner's name for it as given, unchanged.
pub fn new_room(id: u128, req: CreateRoomRequest, code: String, owner_id: u128) -> (r: room::Model)
    ensures
        r.id == id,
        r.name == req.name,
        r.code == code,
        r.owner_id == owner_id,
{
    room::Model { id, name: req.name, code, owner_id }
}

/// The code a room is shown with is the code it is stored with: a join
/// request that carries the code shown (as handed out, with no blanks
/// around it) looks the room up by its stored code.
pub proof fn law_shown_code_joins_the_room(r: RoomResponse, m: room::Model, req: JoinRoomRequest)
    requires
        room_shown_as(r, m),
        trim_seq(m.code@) == m.code@,
        req.code@ == r.code@,
    ensures
        trim_seq(req.code@) == m.code@,
        r.code@ == m.code@,
{
}

} // verus!
