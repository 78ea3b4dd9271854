//! A participant of a session and the mines they have uncovered.
use minesweeper_core::Point;
use uuid::Uuid;
use vstd::prelude::*;

verus! {

/// Relies on uuid's Uuid::new_v4 and its Display impl: a random identifier,
/// printed in the 36-character hyphenated form.
#[verifier::external_body]
fn random_id() -> (r: String)
    ensures
        r@.len() == 36,
{
    Uuid::new_v4().to_string()
}

#[derive(Debug)]
pub struct Player {
    pub id: String,
    pub name: String,
    pub is_active: bool,
    /// The positions of the mines this player uncovered, in the order found.
    pub mines_found: Vec<Point>,
}

impl Player {
    /// A player with a fresh identity, not on turn, who has found no mine.
    pub fn new(name: &str) -> (r: Player)
        ensures
            r.name@ == name@,
            r.id@.len() == 36,
            !r.is_active,
            r.mines_found@.len() == 0,
    {
        Player { id: random_id(), name: name.to_owned(), is_active: false, mines_found: Vec::new() }
    }

    /// The number of mines found so far.
    pub open spec fn score_spec(&self) -> int {
        self.mines_found@.len() as int
    }

    pub fn score(&self) -> (r: i32)
        requires
            self.mines_found@.len() <= i32::MAX,
        ensures
            r == self.score_spec(),
    {
        self.mines_found.len() as i32
    }
}

} // verus!
