//! The tunnel lifecycle and service orchestration of the editor's command-line
//! launcher: the arguments handed to the editor, the relay's tunnel registry,
//! the server records and their pruning, the service manager, the single-fire
//! shutdown event and the serve session's state machine.

pub mod args;
pub mod serve;
pub mod servers;
pub mod service;
pub mod shutdown;
pub mod text;
pub mod tunnels;
