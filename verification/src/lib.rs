//! A verified pipeline around the oxc JavaScript minifier.
//!
//! Source text is parsed as a CommonJS script, validated, compressed,
//! optionally mangled, and rendered back as compact text.  A run either
//! yields the complete minified text or the complete, ordered list of
//! syntax diagnostics rendered with source context — never both.

pub mod diagnostics;
pub mod engine;
pub mod options;
pub mod pipeline;

pub use diagnostics::{Diagnostic, MinificationException, Severity};
pub use options::{CompressionOptions, EsTarget, LegalCommentPolicy, MinifyOptions, RenderOptions};
pub use pipeline::JavascriptMinifier;
