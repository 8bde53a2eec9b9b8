//! The core of `card`, a command-line client for a service that issues
//! virtual payment cards.
//!
//! The library decides and the caller acts. [`credentials`] works out where
//! the API key is kept; [`client`] forms the requests and judges the answers;
//! [`wire`] reads and writes the records of [`model`] as the documents of
//! [`json`]; [`flow`] runs the three commands step by step. Nothing here
//! touches a file, a terminal or the network.

pub mod client;
pub mod credentials;
pub mod flow;
pub mod json;
pub mod model;
pub mod text;
pub mod wire;
