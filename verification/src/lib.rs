//! Engine for running containerized tasks declared inside a document tree.
//!
//! A document is an ordered forest of nodes; `Content` nodes carry a text
//! body. Bodies may hold fenced task blocks labelled `docker-run`, each
//! declaring one containerized task (image, setup commands, script, weight).
//! This crate holds the verified core: the structure-preserving tree walk,
//! the token scanner that extracts task blocks and reinjects their rendered
//! output in place, the task descriptor schema, the weighted admission
//! accounting that bounds concurrent executions, the step-by-step container
//! execution protocol, and the rendering of captured output into markup.
//! Network and container I/O is left to the embedding binary, which drives
//! the protocol state machine defined here.

pub mod admission;
pub mod cli;
pub mod config;
pub mod descriptor;
pub mod engine;
pub mod extract;
pub mod markdown;
pub mod render;
pub mod walker;
