//! Launch plans for the containers of a local multi-party-signing network.
//!
//! Everything that is decided about a container stands here: which image is run with
//! which arguments, which address it is reached at, when a network has to be created,
//! and which part of a log stream is printed. Talking to Docker is left to the caller,
//! who performs what a stage of a launch asks for and hands the reply to the next stage.

pub mod config;
pub mod datastore;
pub mod docker;
pub mod keys;
pub mod lake_indexer;
pub mod launch;
pub mod localstack;
pub mod node;
pub mod start_args;
pub mod text;
