//! The membership query of the HTTP side: who may ask, and what is answered.
//! The request and the response themselves are the transport's.
use crate::state::AppState;
use crate::text::{enumerates, names, text_eq};
use vstd::prelude::*;

verus! {

/// The answer to a membership query.
#[derive(Debug, PartialEq, Eq)]
pub struct RoomMembers {
    /// The room that was asked for.
    pub room: String,
    /// Its members at the moment of the query, each once; none if there is
    /// no such room.
    pub members: Vec<String>,
    /// The number of members.
    pub count: usize,
    /// Whether the room exists. A room exists exactly as long as it has
    /// members.
    pub found: bool,
}

/// Whether a query may be answered. `configured` is the key that the server
/// was started with, if any; `provided` is the key that the request
/// carries, if any. Without a configured key, or with an empty one, every
/// query passes; else the request must carry that very key.
pub open spec fn spec_api_key_accepted(
    configured: Option<Seq<char>>,
    provided: Option<Seq<char>>,
) -> bool {
    match configured {
        None => true,
        Some(key) => key.len() == 0 || provided == Some(key),
    }
}

/// Checks the key of a membership query.
pub fn api_key_accepted(configured: Option<&str>, provided: Option<&str>) -> (accepted: bool)
    ensures
        accepted == spec_api_key_accepted(
            match configured {
                Some(key) => Some(key@),
                None => None,
            },
            match provided {
                Some(key) => Some(key@),
                None => None,
            },
        ),
{
    match configured {
        None => true,
        Some(key) => {
            if key.unicode_len() == 0 {
                true
            } else {
                match provided {
                    Some(given) => text_eq(given, key),
                    None => false,
                }
            }
        },
    }
}

/// Answers a membership query from a snapshot of the room.
pub fn room_members(state: &AppState, room: &str) -> (r: RoomMembers)
    ensures
        r.room@ == room@,
        r.found == state@.rooms.contains_key(room@),
        enumerates(names(r.members@), state@.members(room@)),
        r.count == r.members@.len(),
{
    match state.room_members(room) {
        Some(members) => {
            let count = members.len();
            RoomMembers { room: room.to_owned(), members, count, found: true }
        },
        None => {
            let members: Vec<String> = Vec::new();
            assert(names(members@).to_set() =~= state@.members(room@));
            RoomMembers { room: room.to_owned(), members, count: 0, found: false }
        },
    }
}

} // verus!
