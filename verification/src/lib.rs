//! An adapter to the `devtunnel` command-line tool, which manages remote
//! tunnels: public endpoints that forward to local ports.
//!
//! The tool is the only source of truth. Every operation is carried out by
//! starting the tool and reading what it prints. This library holds the
//! part of that which can be reasoned about: which arguments each
//! operation passes (`args`), what the tool's output means (`parser`,
//! `rendering`),
//! which steps an operation takes and how it ends (`client`, `workflow`,
//! `lifecycle`), and which host processes are known (`registry`). It
//! starts no process itself; `process` describes what it asks its caller
//! to run and what it expects to be told.

pub mod args;
pub mod client;
pub mod clock;
pub mod lifecycle;
pub mod links;
pub mod parser;
pub mod pattern;
pub mod process;
pub mod registry;
pub mod rendering;
pub mod setup;
pub mod text;
pub mod types;
pub mod workflow;
