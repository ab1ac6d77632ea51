//! Dispatch of terminal commands to byte sinks.
//!
//! A [`Command`] describes one terminal operation. It can be delivered in two
//! ways: as a control sequence written into a [`Sink`], or by a direct call on
//! consoles that do not honour control sequences. [`QueueableCommand`] and
//! [`ExecutableCommand`] give every sink the two dispatchers, which choose the
//! way of delivery from a capability flag handed in by the caller.

pub mod command;
pub mod error;
pub mod laws;
pub mod sink;

pub use command::{conclude, Command, ControlSequence, ExecutableCommand, QueueableCommand};
pub use error::ErrorKind;
pub use sink::{Sink, SinkState};
