//! The minification pipeline orchestrator.
//!
//! One run moves through parsing, compressing, mangling and generating, in
//! that order, over one arena.  A non-empty parse diagnostic sequence is
//! fatal: the run stops, the best-effort tree is discarded, and the caller
//! receives every diagnostic together with the source text.  Otherwise the
//! run cannot fail and ends with the rendered text.  The pipeline holds no
//! cross-run state, so distinct runs are fully independent.

use vstd::prelude::*;
use crate::diagnostics::{DiagnosticData, MinificationException};
use crate::engine::{
    generate, minified_text, new_arena, parse_cjs, parse_diagnostics, run_minifier,
};
use crate::options::{MinifyOptions, RenderOptions};

verus! {

/// A JavaScript source-to-source minifier.  Stateless: every invocation is a
/// self-contained run over its own arena.
pub struct JavascriptMinifier;

impl JavascriptMinifier {
    /// A minifier handle.  It carries no state.
    pub fn new() -> JavascriptMinifier {
        JavascriptMinifier
    }

    /// Minify `source_text` as a CommonJS script under explicit options.
    ///
    /// The run succeeds exactly when parsing reports no diagnostic; the
    /// result is then the deterministic rendering of the compressed (and,
    /// when requested, mangled) tree.  Otherwise the complete diagnostic
    /// sequence comes back in detection order, together with the source
    /// text, and no text is produced.
    pub fn minify_with_options(
        &self,
        source_text: &str,
        minify_options: MinifyOptions,
        render_options: RenderOptions,
    ) -> (r: Result<String, MinificationException>)
        ensures
            r is Ok <==> parse_diagnostics(source_text@).len() == 0,
            r is Ok ==> r->Ok_0@ == minified_text(source_text@, minify_options, render_options),
            r is Err ==> r->Err_0@.diagnostics == parse_diagnostics(source_text@),
            r is Err ==> r->Err_0@.diagnostics.len() > 0,
            r is Err ==> r->Err_0@.source == source_text@,
    {
        let arena = new_arena();
        let (mut tree, diags) = parse_cjs(&arena, source_text);
        proof {
            assert(diags@.map_values(|d: crate::diagnostics::Diagnostic| d@).len()
                == diags@.len());
        }
        if diags.len() > 0 {
            return Err(MinificationException::new(diags, source_text.to_owned()));
        }
        let table = run_minifier(&arena, &mut tree, &minify_options);
        let code = generate(&tree, table, &render_options);
        Ok(code)
    }

    /// Minify `source_text` as a CommonJS script with the fixed default
    /// options: a modern compression target, no semantics-breaking removals,
    /// mangling disabled, double quotes, whitespace minimized, comments
    /// stripped.
    pub fn minify(&self, source_text: &str) -> (r: Result<String, MinificationException>)
        ensures
            r is Ok <==> parse_diagnostics(source_text@).len() == 0,
            r is Ok ==> r->Ok_0@ == minified_text(
                source_text@,
                MinifyOptions::spec_default(),
                RenderOptions::spec_default(),
            ),
            r is Err ==> r->Err_0@.diagnostics == parse_diagnostics(source_text@),
            r is Err ==> r->Err_0@.diagnostics.len() > 0,
            r is Err ==> r->Err_0@.source == source_text@,
    {
        self.minify_with_options(source_text, Default::default(), Default::default())
    }
}

/// Determinism of success: for one source text and one set of options, any
/// two runs that produce text produce byte-identical text.
pub proof fn lemma_minified_text_deterministic(
    source: Seq<char>,
    minify_options: MinifyOptions,
    render_options: RenderOptions,
    first: Seq<char>,
    second: Seq<char>,
)
    requires
        first == minified_text(source, minify_options, render_options),
        second == minified_text(source, minify_options, render_options),
    ensures
        first == second,
{
}

/// Determinism of failure: for one source text, any two runs that fail
/// report identical diagnostic sequences in identical order.
pub proof fn lemma_diagnostics_deterministic(
    source: Seq<char>,
    first: Seq<DiagnosticData>,
    second: Seq<DiagnosticData>,
)
    requires
        first == parse_diagnostics(source),
        second == parse_diagnostics(source),
    ensures
        first == second,
{
}

} // verus!
