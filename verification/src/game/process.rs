//! The record of a command that a session has sent to the game.

use legion::Entity;
use vstd::prelude::*;

verus! {

/// A command on its way through the game.
#[derive(Debug)]
pub struct ProcessComponent {
    /// When the command came, in milliseconds of a clock that does not go back.
    pub created: u64,
    pub id: usize,
    /// The user who sent the command.
    pub enactor_user: Option<Entity>,
    /// The character through which the user sent it.
    pub enactor_obj: Option<Entity>,
    /// The character that carries it out.
    pub executor: Option<Entity>,
    /// The milliseconds to wait before it is carried out.
    pub wait_for: Option<u64>,
    pub command: String,
    pub split_actions: bool,
}

impl ProcessComponent {
    /// The record of a command that a user has sent through a character: the
    /// character carries it out, at once and as one action.
    pub fn from_command(user: Entity, puppet: Entity, id: usize, command: String, now: u64) -> (out:
        Self)
        ensures
            out.created == now,
            out.id == id,
            out.enactor_user == Some(user),
            out.enactor_obj == Some(puppet),
            out.executor == Some(puppet),
            out.wait_for is None,
            out.command == command,
            !out.split_actions,
    {
        ProcessComponent {
            created: now,
            id,
            enactor_user: Some(user),
            enactor_obj: Some(puppet),
            executor: Some(puppet),
            wait_for: None,
            command,
            split_actions: false,
        }
    }
}

} // verus!
