//! The decisions that a Wasm worker server makes for one worker: how the worker
//! is identified and configured, how its sandbox is set up and what a request
//! to it comes back with.
pub mod bytes;
pub mod config;
pub mod context;
pub mod engine;
pub mod errors;
pub mod features;
pub mod identity;
pub mod path;
pub mod run;
pub mod stdio;
pub mod wasi;
pub mod worker;
