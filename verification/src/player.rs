use vstd::prelude::*;

verus! {

/// A member of a room as the server reports it.
#[derive(Debug, Clone, PartialEq, Eq, Hash)]
pub struct Player {
    pub username: String,
    pub games: u8,
    pub rating: u16,
}

} // verus!
