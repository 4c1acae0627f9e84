//! Resolution of a pinned external tool: the `crates-lsp` language server binary.
//!
//! The library decides; its caller performs. A [`resolver::Resolver`] is driven by
//! handing it the outcome of each action it asked for, and answers with the next
//! action, until it asks to finish with a path or a failure.

pub mod platform;
pub mod release;
pub mod cleanup;
pub mod error;
pub mod protocol;
pub mod resolver;
pub mod laws;
pub mod driver;
