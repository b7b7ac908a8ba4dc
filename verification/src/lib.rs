//! Resolves an application icon source from a process path, a packaged-app
//! installation path, or a shortcut path, and normalizes the result into a
//! bitmap or a base64-encoded PNG payload.
//!
//! The crate holds the resolution strategy logic: classification of an input
//! path, the ancestor walk that finds a package root, manifest parsing for the
//! declared icon asset, filename-stem matching over a directory listing, and
//! the shortcut fallback rule. The platform calls themselves (process lookup,
//! shell indirection, file reads, raw icon extraction) are driven by the
//! caller, which feeds their outcomes back into the pipeline step functions.

pub mod assets;
pub mod codec;
pub mod errors;
pub mod manifest;
pub mod paths;
pub mod pipeline;
pub mod shortcut;
pub mod text;
