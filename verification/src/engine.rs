//! The trusted boundary to the oxc engines.
//!
//! The parser, compressor, mangler and code generator are large outside
//! subsystems.  This module declares their types to the verifier, gives each
//! call a wrapper whose contract states what the engine's documentation
//! promises, and names the two results that are functions of their plain
//! inputs alone: the parser's diagnostic sequence and the final rendered
//! text.  Everything else in the crate is proved against these contracts.
//!
//! Each syntax tree and renaming table carries a ghost record of the source
//! text and options it was produced from, so that the contracts can speak of
//! a tree's provenance even though the tree itself is opaque.

use vstd::prelude::*;
use crate::diagnostics::{Diagnostic, DiagnosticData, Severity};
use crate::options::{LegalCommentPolicy, MinifyOptions, RenderOptions};

verus! {

#[verifier::external_type_specification]
#[verifier::external_body]
pub struct ExAllocator(oxc::allocator::Allocator);

#[verifier::external_type_specification]
#[verifier::external_body]
pub struct ExProgram<'a>(oxc::ast::ast::Program<'a>);

#[verifier::external_type_specification]
#[verifier::external_body]
pub struct ExScoping(oxc::semantic::Scoping);

#[verifier::external_type_specification]
#[verifier::external_body]
pub struct ExOxcDiagnostic(oxc::diagnostics::OxcDiagnostic);

#[verifier::external_type_specification]
#[verifier::external_body]
pub struct ExCompressOptions(oxc::minifier::CompressOptions);

#[verifier::external_type_specification]
#[verifier::external_body]
pub struct ExCodegenOptions(oxc::codegen::CodegenOptions);

/// The diagnostic sequence that parsing a given source text as a CommonJS
/// script produces, in left-to-right scan order.  The parser is
/// deterministic, so this is a function of the source text alone.
pub uninterp spec fn parse_diagnostics(source: Seq<char>) -> Seq<DiagnosticData>;

/// The text that the full pipeline renders for a given source text under
/// given rewrite and rendering options.  Every stage is deterministic, so
/// this is a function of those three inputs alone.
pub uninterp spec fn minified_text(
    source: Seq<char>,
    m: MinifyOptions,
    g: RenderOptions,
) -> Seq<char>;

/// Ghost provenance of a syntax tree: the source text it was parsed from,
/// and the rewrite options already applied to it, if any.
pub ghost struct TreeMeta {
    pub source: Seq<char>,
    pub minified: Option<MinifyOptions>,
}

/// An arena-owned syntax tree rooted at a Program node, together with the
/// ghost record of where it came from.
pub struct SyntaxTree<'a> {
    program: oxc::ast::ast::Program<'a>,
    meta: Ghost<TreeMeta>,
}

impl<'a> SyntaxTree<'a> {
    /// The source text this tree was parsed from.
    pub closed spec fn source(self) -> Seq<char> {
        self.meta@.source
    }

    /// The rewrite options already applied to this tree, if any.
    pub closed spec fn minified(self) -> Option<MinifyOptions> {
        self.meta@.minified
    }
}

/// Ghost provenance of a renaming table: the source text and the options of
/// the rewrite that produced it.
pub ghost struct RenameMeta {
    pub source: Seq<char>,
    pub options: MinifyOptions,
}

/// The renaming computed by the mangler for one run: present exactly when
/// mangling was requested, absent otherwise.  Produced once per run and
/// consumed exactly once by the code generator.
pub struct RenamingTable {
    scoping: Option<oxc::semantic::Scoping>,
    meta: Ghost<RenameMeta>,
}

impl RenamingTable {
    /// The source text of the run that produced this table.
    pub closed spec fn source(self) -> Seq<char> {
        self.meta@.source
    }

    /// The rewrite options of the run that produced this table.
    pub closed spec fn options(self) -> MinifyOptions {
        self.meta@.options
    }

    /// Whether a renaming is present.
    pub closed spec fn is_present(self) -> bool {
        self.scoping is Some
    }
}

/// Relies on `oxc::allocator::Allocator::default`: a fresh, empty arena that
/// will own every node of one compilation and is freed as a unit.
#[verifier::external_body]
pub(crate) fn new_arena() -> oxc::allocator::Allocator {
    oxc::allocator::Allocator::default()
}

/// Relies on `OxcDiagnostic` accessors: the message, the first label's byte
/// span (absent labels become an empty span at the text start), and the
/// severity, each moved into a plain record.
#[verifier::external_body]
fn convert_diagnostic(d: oxc::diagnostics::OxcDiagnostic) -> Diagnostic {
    let (start, len) = match d.labels.as_slice().first() {
        Some(l) => (l.offset() as usize, l.len() as usize),
        None => (0, 0),
    };
    let severity = match d.severity {
        oxc::diagnostics::Severity::Error => Severity::Error,
        oxc::diagnostics::Severity::Warning => Severity::Warning,
        oxc::diagnostics::Severity::Advice => Severity::Advice,
    };
    Diagnostic { message: d.message.to_string(), start, len, severity }
}

/// Relies on `oxc::parser::Parser::parse` under the CommonJS source type: it
/// always returns a Program (possibly partial), collects one diagnostic per
/// lexical or grammatical violation in scan order, and is deterministic on
/// identical input.  The resulting diagnostic sequence is named
/// [`parse_diagnostics`].
#[verifier::external_body]
fn parse_cjs_raw<'a>(
    arena: &'a oxc::allocator::Allocator,
    source: &'a str,
) -> (r: (oxc::ast::ast::Program<'a>, Vec<Diagnostic>))
    ensures
        r.1@.map_values(|d: Diagnostic| d@) == parse_diagnostics(source@),
{
    let ret = oxc::parser::Parser::new(arena, source, oxc::span::SourceType::cjs()).parse();
    let mut diags: Vec<Diagnostic> = Vec::new();
    for d in ret.diagnostics.into_vec() {
        diags.push(convert_diagnostic(d));
    }
    (ret.program, diags)
}

/// Parse the source text as a CommonJS script: the best-effort tree, and the
/// complete diagnostic sequence in detection order.
pub(crate) fn parse_cjs<'a>(
    arena: &'a oxc::allocator::Allocator,
    source: &'a str,
) -> (r: (SyntaxTree<'a>, Vec<Diagnostic>))
    ensures
        r.0.source() == source@,
        r.0.minified() is None,
        r.1@.map_values(|d: Diagnostic| d@) == parse_diagnostics(source@),
{
    let (program, diags) = parse_cjs_raw(arena, source);
    let tree = SyntaxTree {
        program,
        meta: Ghost(TreeMeta { source: source@, minified: None }),
    };
    (tree, diags)
}

/// Relies on `CompressOptions::default` and `EngineTargets::from_target`:
/// the library's compression record moved field by field onto the engine's,
/// with every remaining engine toggle left at its default.
#[verifier::external_body]
fn to_oxc_compress(c: &crate::options::CompressionOptions) -> oxc::minifier::CompressOptions {
    let target = oxc_compat::EngineTargets::from_target(c.target.as_str()).unwrap_or_default();
    oxc::minifier::CompressOptions {
        target,
        drop_debugger: c.drop_debugger,
        drop_console: c.drop_console,
        ..oxc::minifier::CompressOptions::default()
    }
}

/// Relies on `oxc::minifier::Minifier::minify`: it rewrites the tree in
/// place, preserving observable behavior apart from the opted-in removals;
/// it computes a renaming exactly when mangling is requested; it cannot fail
/// on a syntactically valid tree; and it is deterministic on identical
/// input.
#[verifier::external_body]
fn run_minifier_raw<'a>(
    arena: &'a oxc::allocator::Allocator,
    program: &mut oxc::ast::ast::Program<'a>,
    opts: &MinifyOptions,
) -> (r: Option<oxc::semantic::Scoping>)
    ensures
        r is Some <==> opts.mangle,
{
    let mangle = match opts.mangle {
        true => Some(oxc::minifier::MangleOptions::default()),
        false => None,
    };
    let options = oxc::minifier::MinifierOptions { mangle, compress: Some(to_oxc_compress(&opts.compress)) };
    let ret = oxc::minifier::Minifier::new(options).minify(arena, program);
    ret.scoping
}

/// Compress the tree in place under the given options, and hand back the
/// renaming table of the run: present exactly when mangling was requested.
/// A tree is rewritten at most once, so the rendered text is always that of
/// a freshly parsed then compressed tree.
pub(crate) fn run_minifier<'a>(
    arena: &'a oxc::allocator::Allocator,
    tree: &mut SyntaxTree<'a>,
    opts: &MinifyOptions,
) -> (r: RenamingTable)
    requires
        old(tree).minified() is None,
    ensures
        final(tree).source() == old(tree).source(),
        final(tree).minified() == Some(*opts),
        r.source() == old(tree).source(),
        r.options() == *opts,
        r.is_present() <==> opts.mangle,
{
    let scoping = run_minifier_raw(arena, &mut tree.program, opts);
    let table = RenamingTable {
        scoping,
        meta: Ghost(RenameMeta { source: tree.meta@.source, options: *opts }),
    };
    tree.meta = Ghost(TreeMeta { source: tree.meta@.source, minified: Some(*opts) });
    table
}

/// Relies on `CodegenOptions::default` and the engine's comment options: the
/// library's rendering record moved field by field onto the engine's, with
/// every remaining engine toggle left at its default.
#[verifier::external_body]
fn to_oxc_codegen(g: &RenderOptions) -> oxc::codegen::CodegenOptions {
    let legal = match g.legal_comments {
        LegalCommentPolicy::Strip => oxc::codegen::LegalComment::None,
        LegalCommentPolicy::Inline => oxc::codegen::LegalComment::Inline,
        LegalCommentPolicy::Eof => oxc::codegen::LegalComment::Eof,
        LegalCommentPolicy::External => oxc::codegen::LegalComment::External,
    };
    let comments = oxc::codegen::CommentOptions {
        normal: g.comments, jsdoc: g.comments, annotation: g.annotation_comments, legal,
    };
    oxc::codegen::CodegenOptions {
        single_quote: g.single_quote, minify: g.minify, comments,
        ..oxc::codegen::CodegenOptions::default()
    }
}

/// Relies on `oxc::codegen::Codegen::build`: a pure, deterministic rendering
/// of the rewritten tree under the given rendering options, consuming the
/// run's renaming table; it cannot fail on a syntactically valid tree.  The
/// resulting text is named [`minified_text`].
#[verifier::external_body]
pub(crate) fn generate<'a>(
    tree: &SyntaxTree<'a>,
    table: RenamingTable,
    g: &RenderOptions,
) -> (r: String)
    requires
        tree.minified() == Some(table.options()),
        table.source() == tree.source(),
    ensures
        r@ == minified_text(tree.source(), table.options(), *g),
{
    let ret = oxc::codegen::Codegen::new()
        .with_options(to_oxc_codegen(g))
        .with_scoping(table.scoping)
        .build(&tree.program);
    ret.code
}

} // verus!
