//! The kinds of things in the game.

use vstd::prelude::*;

verus! {

/// What a thing in the game is.
#[derive(Clone, Copy, Debug, Hash, PartialEq, Eq, Structural)]
pub enum MudObjectType {
    Alliance,
    Board,
    Channel,
    Dimension,
    Faction,
    HeavenlyBody,
    Item,
    Mobile,
    Player,
    Room,
    Sector,
    User,
    Vehicle,
    Wilderness,
    Zone,
}

} // verus!
