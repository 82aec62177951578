//! Configuration records for one minification run.
//!
//! All options are immutable for the duration of a run; they select which
//! rewrites the compressor may apply and how the generator renders text,
//! never the shape of the pipeline itself.

use vstd::prelude::*;

verus! {

/// The newest ECMAScript language version whose syntax the compressor may
/// introduce into the rewritten tree.  It never upgrades syntax above this
/// target.
#[derive(Clone, Copy, PartialEq, Eq, Structural, Debug)]
pub enum EsTarget {
    Es2015,
    Es2016,
    Es2017,
    Es2018,
    Es2019,
    Es2020,
    Es2021,
    Es2022,
    Es2023,
    Es2024,
    Es2025,
    Es2026,
    EsNext,
}

impl EsTarget {
    /// The conventional lower-case spelling of this target version.
    pub fn as_str(&self) -> &'static str {
        match self {
            EsTarget::Es2015 => "es2015",
            EsTarget::Es2016 => "es2016",
            EsTarget::Es2017 => "es2017",
            EsTarget::Es2018 => "es2018",
            EsTarget::Es2019 => "es2019",
            EsTarget::Es2020 => "es2020",
            EsTarget::Es2021 => "es2021",
            EsTarget::Es2022 => "es2022",
            EsTarget::Es2023 => "es2023",
            EsTarget::Es2024 => "es2024",
            EsTarget::Es2025 => "es2025",
            EsTarget::Es2026 => "es2026",
            EsTarget::EsNext => "esnext",
        }
    }
}

/// Toggles for the semantics-preserving tree rewrites.  The two `drop_`
/// toggles opt into semantics-breaking removals and default to off.
#[derive(Clone, Copy, PartialEq, Eq, Structural, Debug)]
pub struct CompressionOptions {
    /// Language-version ceiling for introduced syntax.
    pub target: EsTarget,
    /// Remove `debugger;` statements.  Explicit opt-in.
    pub drop_debugger: bool,
    /// Remove calls on the `console` global.  Explicit opt-in.
    pub drop_console: bool,
}

impl CompressionOptions {
    /// The fixed options the boundary operation runs with: a specific modern
    /// language target, and no semantics-breaking removals.
    pub open spec fn spec_default() -> CompressionOptions {
        CompressionOptions { target: EsTarget::Es2016, drop_debugger: false, drop_console: false }
    }
}

impl Default for CompressionOptions {
    fn default() -> (r: CompressionOptions)
        ensures
            r == CompressionOptions::spec_default(),
    {
        CompressionOptions { target: EsTarget::Es2016, drop_debugger: false, drop_console: false }
    }
}

/// What the tree-rewriting stage of a run is asked to do: the compression
/// toggles, and whether local bindings are renamed to short identifiers.
#[derive(Clone, Copy, PartialEq, Eq, Structural, Debug)]
pub struct MinifyOptions {
    /// Options for the compressor, which always runs.
    pub compress: CompressionOptions,
    /// Rename local, non-escaping bindings to short identifiers.
    pub mangle: bool,
}

impl MinifyOptions {
    /// The fixed options the boundary operation runs with: default
    /// compression, mangling disabled.
    pub open spec fn spec_default() -> MinifyOptions {
        MinifyOptions { compress: CompressionOptions::spec_default(), mangle: false }
    }
}

impl Default for MinifyOptions {
    fn default() -> (r: MinifyOptions)
        ensures
            r == MinifyOptions::spec_default(),
    {
        MinifyOptions { compress: Default::default(), mangle: false }
    }
}

/// Retention policy for legal comments (license notices and the like).
#[derive(Clone, Copy, PartialEq, Eq, Structural, Debug)]
pub enum LegalCommentPolicy {
    /// Drop every legal comment.
    Strip,
    /// Keep each legal comment where it stands.
    Inline,
    /// Move all legal comments to the end of the output.
    Eof,
    /// Hand legal comments back separately instead of printing them.
    External,
}

/// Textual rendering controls.  They govern only how the tree is printed,
/// never its shape.
#[derive(Clone, Copy, PartialEq, Eq, Structural, Debug)]
pub struct RenderOptions {
    /// Quote string literals with `'` instead of `"`.
    pub single_quote: bool,
    /// Emit the shortest valid token sequence: no unnecessary whitespace,
    /// shortest valid separators.
    pub minify: bool,
    /// Keep ordinary comments.
    pub comments: bool,
    /// Keep annotation comments such as `/* #__PURE__ */`.
    pub annotation_comments: bool,
    /// What to do with legal comments.
    pub legal_comments: LegalCommentPolicy,
}

impl RenderOptions {
    /// The fixed options the boundary operation runs with: double quotes,
    /// whitespace minimized, all comments stripped.
    pub open spec fn spec_default() -> RenderOptions {
        RenderOptions {
            single_quote: false,
            minify: true,
            comments: false,
            annotation_comments: false,
            legal_comments: LegalCommentPolicy::Strip,
        }
    }
}

impl Default for RenderOptions {
    fn default() -> (r: RenderOptions)
        ensures
            r == RenderOptions::spec_default(),
    {
        RenderOptions {
            single_quote: false,
            minify: true,
            comments: false,
            annotation_comments: false,
            legal_comments: LegalCommentPolicy::Strip,
        }
    }
}

} // verus!
