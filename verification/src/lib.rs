//! The core of an SSH client: how sessions are built hop by hop, which port
//! forwardings are registered, and how the text around them is read.
//!
//! The network and the file system are the caller's. The functions here decide
//! what is to be done there and take in how it went, and every one of them
//! states what it returns and what it changes.

pub mod consistency;
pub mod diagnostics;
pub mod lifecycle;
pub mod snippets;
pub mod ssh;
pub mod ssh_config;
pub mod ssh_parser;
pub mod text;
pub mod tunnel;
pub mod types;
