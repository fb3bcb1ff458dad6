//! The room.

use vstd::prelude::*;

verus! {

/// What is known of a room on this side.
#[derive(Debug)]
pub struct Room {
    /// The ID of the room.
    pub room_id: String,
    /// The canonical alias of the room, if it has one.
    pub canonical_alias: Option<String>,
    /// Whether someone wants to hear of events that could not be decrypted.
    pub has_utd_hook_manager: bool,
}

impl Room {
    /// The ID of the room.
    pub fn id(&self) -> (r: String)
        ensures
            r == self.room_id,
    {
        self.room_id.clone()
    }
}

/// A room is known under its own ID.
pub proof fn law_room_is_known_under_its_id(room: Room, r: String)
    requires
        call_ensures(Room::id, (&room,), r),
    ensures
        r == room.room_id,
{
}

} // verus!
