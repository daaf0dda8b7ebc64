//! Reported positions of room members.
use vstd::prelude::*;
use crate::error::{is_bad_request, AppError};
use crate::ids::{parse_room_id, uuid_parse};

verus! {

/// A listing of a room's positions.
#[derive(Debug, PartialEq, Eq)]
pub struct ListParams {
    pub room_id: String,
    pub limit: Option<u64>,
}

/// How many positions are listed by default.
pub open spec fn default_location_limit() -> u64 {
    100
}

/// The most positions listed at once.
pub open spec fn max_location_limit() -> u64 {
    500
}

/// How many positions a listing gives: the limit asked for, 100 where none
/// was, and never more than 500.
pub fn effective_limit(limit: Option<u64>) -> (r: u64)
    ensures
        r == (match limit {
            Some(l) => if l < max_location_limit() { l } else { max_location_limit() },
            None => default_location_limit(),
        }),
        r <= max_location_limit(),
{
    let l = match limit {
        Some(l) => l,
        None => 100,
    };
    if l < 500 {
        l
    } else {
        500
    }
}

/// The display name paired with the last entry for `id`, if any.
pub open spec fn name_lookup(users: Seq<(u128, Option<String>)>, id: u128) -> Option<String>
    decreases users.len(),
{
    if users.len() == 0 {
        None
    } else if users.last().0 == id {
        users.last().1
    } else {
        name_lookup(users.drop_last(), id)
    }
}

/// The display name of the user with the given id, from the users that the
/// listing loaded; none where the user is not among them or has no name.
pub fn lookup_display_name(users: &Vec<(u128, Option<String>)>, id: u128) -> (r: Option<String>)
    ensures
        r == name_lookup(users@, id),
{
    let mut k: usize = users.len();
    assert(users@.take(k as int) == users@);
    while k > 0
        invariant
            k <= users.len(),
            name_lookup(users@, id) == name_lookup(users@.take(k as int), id),
        decreases k,
    {
        let ghost t = users@.take(k as int);
        assert(t.last() == users@[k - 1]);
        if users[k - 1].0 == id {
            return match &users[k - 1].1 {
                Some(n) => Some(n.clone()),
                None => None,
            };
        }
        assert(t.drop_last() == users@.take(k - 1));
        k = k - 1;
    }
    None
}

/// The room and the number of positions a listing asks for; the room id
/// must parse.
pub fn location_query(params: &ListParams) -> (r: Result<(u128, u64), AppError>)
    ensures
        match uuid_parse(params.room_id@) {
            None => r matches Err(e) && is_bad_request(e, "Invalid room_id"@),
            Some(id) => r == Ok::<(u128, u64), AppError>(
                (
                    id,
                    match params.limit {
                        Some(l) => if l < 500 { l } else { 500 },
                        None => 100,
                    },
                ),
            ),
        },
{
    let id = parse_room_id(params.room_id.as_str())?;
    Ok((id, effective_limit(params.limit)))
}

} // verus!
