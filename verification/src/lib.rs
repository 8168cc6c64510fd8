//! Client core for a documentation-catalog service that keeps projects,
//! their versions, users and the roles of users on projects.
//!
//! The crate turns one operation into one HTTP request, and the response to
//! that request into what is shown to the user or into a classified failure.
//! It performs no I/O itself: the caller reads the files that the command
//! line names, sends the request, and hands the reply back.
//!
//! - [`command_line`]: the options of one invocation.
//! - [`input`]: where the record of an operation comes from, file or flags.
//! - [`client`]: the request of each kind of call, and the meaning of each
//!   status code.
//! - [`command_executor`]: the request of each operation.
//! - [`exchange`]: the result of each operation, read from the reply.
//! - [`entities`]: the records exchanged with the service.
//! - [`error`]: the two kinds of failure.
//! - [`laws`]: what holds of all of the above, proved.

pub mod client;
pub mod command_executor;
pub mod command_line;
pub mod entities;
pub mod error;
pub mod exchange;
pub mod input;
pub mod laws;
mod text;

pub use command_executor::execute_command;
pub use error::Failure;
