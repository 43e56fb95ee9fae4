//! Players, known by name.

use vstd::prelude::*;
use vstd::string::*;

verus! {

/// A player of the game.
pub struct Player {
    pub name: &'static str,
}

impl Player {
    /// Makes the player of the given name.
    pub fn new(name: &'static str) -> (player: Player)
        ensures
            player.name == name,
    {
        Player { name }
    }

    /// A line of text that introduces the player by name.
    pub fn describe(&self) -> (text: String)
        ensures
            text@ == "Player with name "@ + self.name@,
    {
        String::from_str("Player with name ").concat(self.name)
    }
}

} // verus!
