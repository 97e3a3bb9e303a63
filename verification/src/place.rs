//! Positions, as the host packs them into 32 bits: the room in the upper
//! half, then the column, then the row.

use vstd::prelude::*;
use screeps::local::Position;

verus! {

/// Rooms are squares of this many columns and rows.
pub const ROOM_SIDE: u32 = 50;

/// The room a packed position lies in.
pub open spec fn room_of(place: u32) -> u32 {
    place >> 16
}

/// The column of a packed position within its room.
pub open spec fn column_of(place: u32) -> u32 {
    (place >> 8) & 0xFF
}

/// The row of a packed position within its room.
pub open spec fn row_of(place: u32) -> u32 {
    place & 0xFF
}

/// Whether a packed position names a square of its room.
pub open spec fn on_grid(place: u32) -> bool {
    column_of(place) < ROOM_SIDE && row_of(place) < ROOM_SIDE
}

/// Whether two coordinates are equal or neighbours.
pub open spec fn within_one(a: u32, b: u32) -> bool {
    a <= b + 1 && b <= a + 1
}

/// Whether two packed positions lie in one room and at most one step apart,
/// diagonals included.
pub open spec fn beside(a: u32, b: u32) -> bool {
    &&& room_of(a) == room_of(b)
    &&& within_one(column_of(a), column_of(b))
    &&& within_one(row_of(a), row_of(b))
}

/// Whether a unit at `a` can reach over to `b`: both are squares of one
/// room, at most one step apart.
pub open spec fn in_reach(a: u32, b: u32) -> bool {
    on_grid(a) && on_grid(b) && beside(a, b)
}

/// Calls `screeps::local::Position::is_near_to` on the two positions that
/// `Position::from_packed` makes of `a` and `b`. `from_packed` panics on a
/// column or row beyond the room, so both must lie on the grid. The contract
/// says what `is_near_to` computes: same room, and columns and rows that
/// differ by one at most.
#[verifier::external_body]
fn near_to(a: u32, b: u32) -> (near: bool)
    requires
        on_grid(a),
        on_grid(b),
    ensures
        near == beside(a, b),
{
    Position::from_packed(a).is_near_to(Position::from_packed(b))
}

/// Whether a packed position names a square of its room.
pub fn is_on_grid(place: u32) -> (ok: bool)
    ensures
        ok == on_grid(place),
{
    ((place >> 8) & 0xFF) < ROOM_SIDE && (place & 0xFF) < ROOM_SIDE
}

/// Whether a unit at `a` stands next to `b`. A position off the grid is next
/// to nothing.
pub fn is_near(a: u32, b: u32) -> (near: bool)
    ensures
        near == in_reach(a, b),
{
    if is_on_grid(a) && is_on_grid(b) {
        near_to(a, b)
    } else {
        false
    }
}

} // verus!
