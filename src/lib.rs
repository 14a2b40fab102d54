//! A Jupyter kernel protocol engine: signed multi-frame envelopes, the closed
//! catalog of typed messages, request dispatch with busy/idle bracketing, and
//! the registry of comms that multiplex secondary protocols over the kernel's
//! sockets.
pub mod error;
pub mod kind;
pub mod header;
pub mod session;
pub mod signing;
pub mod wire_message;
pub mod content;
pub mod message;
pub mod comm;
pub mod iopub;
pub mod shell;
pub mod control;
pub mod kernel;
pub mod ark_shell;
pub mod dap;
pub mod data_viewer;
pub mod markdown;
pub mod position;
pub mod ui_comm;
