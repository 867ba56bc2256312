//! What stands between the protocol and the game: the commands of a client
//! that has not logged in, and the records of the commands of one that has.

pub mod login_cmds;
pub mod objects;
pub mod process;
pub mod resources;

pub use login_cmds::{LoginAction, LoginCmd, LoginCommands};
pub use objects::MudObjectType;
pub use process::ProcessComponent;
pub use resources::ProcessCounter;
