//! Operating-system layer of a terminal multiplexer: pseudo-terminal sessions
//! for child processes, logical signals to processes, OS notifications as a
//! uniform event stream, and the decisions that move a terminal's output
//! bytes to the screen.
pub mod process;
pub mod pty;
pub mod signals;
pub mod terminal_bytes;
pub mod shell;
