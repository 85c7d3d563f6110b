//! Runs snippets of code for remote callers: a gateway that checks
//! credentials and offers the one capability, a worker that runs each snippet
//! in a child process of its own, and the protocol between the two. This
//! library holds the rules of both services; the programs around it do the
//! work on files, processes and the network that the rules ask for.

pub mod auth;
pub mod config;
pub mod executor;
pub mod protocol;
pub mod server;
pub mod text;
pub mod tools;
pub mod worker;
pub mod worker_client;
