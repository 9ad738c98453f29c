//! Runs a command under three timeouts: a minimum that every command is granted,
//! a maximum at which it is killed however much it says, and a limit on how long
//! it may stay silent.
//!
//! The library decides; it neither spawns processes nor reads from them. A
//! command is prepared ([`PendingCommand::prepare`]), spawned by the caller and
//! launched ([`PendingCommand::launch`]). From then on the caller reports each
//! [`Event`] and does what the returned [`Action`] says, until the command's
//! [`CommandOutput`] can be taken.

pub mod calls;
pub mod effects;
pub mod error;
pub mod kill;
pub mod laws;
pub mod run;
pub mod stream;
pub mod text;
pub mod time;
pub mod timeouts;

pub use crate::error::CommandError;
pub use crate::kill::ExitStatus;
pub use crate::run::{Action, CommandOutput, CommandRun, Event, PendingCommand, Pipes};
pub use crate::stream::Stream;
pub use crate::time::{Clock, Duration, Instant};
pub use crate::timeouts::{
    calculate_new_deadline, handle_stream_activity, validate_timeouts, TimeoutConfig,
};
