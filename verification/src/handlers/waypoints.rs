//! Waypoints of a room's route.
use vstd::prelude::*;
use crate::error::{bad_request, is_bad_request, AppError};
use crate::text::{same_text, trim, trim_seq};

verus! {

/// The kinds of waypoint a route holds.
pub open spec fn is_waypoint_type(t: Seq<char>) -> bool {
    t == "destination"@ || t == "rest"@ || t == "stopover"@
}

/// Whether a waypoint type is one of `destination`, `rest` and `stopover`.
pub fn valid_type(t: &str) -> (r: bool)
    ensures
        r == is_waypoint_type(t@),
        r <==> (t@ == "destination"@ || t@ == "rest"@ || t@ == "stopover"@),
{
    same_text(t, "destination") || same_text(t, "rest") || same_text(t, "stopover")
}

/// Refuses a waypoint of an unknown type.
pub fn check_waypoint_type(t: &str) -> (r: Result<(), AppError>)
    ensures
        r is Ok <==> (t@ == "destination"@ || t@ == "rest"@ || t@ == "stopover"@),
        if is_waypoint_type(t@) {
            r is Ok
        } else {
            r matches Err(e) && is_bad_request(e, "waypoint_type must be destination, rest, or stopover"@)
        },
{
    if !valid_type(t) {
        return Err(bad_request("waypoint_type must be destination, rest, or stopover"));
    }
    Ok(())
}

/// The position a new waypoint takes: the number of waypoints the room
/// already has, converted to `i32` as `as` converts it (wrapping above
/// `i32::MAX`).
pub fn sort_order_for(count: u64) -> (r: i32)
    ensures
        r == count as i32,
{
    count as i32
}

/// The name a new waypoint is stored under, trimmed (it may be empty).
pub fn waypoint_name(name: &str) -> (r: String)
    ensures
        r@ == trim_seq(name@),
{
    trim(name)
}

/// The waypoint types a route accepts are exactly `destination`, `rest` and
/// `stopover`: each of the three is accepted, and no other text is.
pub proof fn law_waypoint_types()
    ensures
        Set::new(|t: Seq<char>| is_waypoint_type(t)) == set!["destination"@, "rest"@, "stopover"@],
{
    assert(Set::new(|t: Seq<char>| is_waypoint_type(t)) =~= set!["destination"@, "rest"@, "stopover"@]);
}

} // verus!
