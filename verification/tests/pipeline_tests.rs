use js_minifier::diagnostics::{render_diagnostic, Diagnostic, Severity};
use js_minifier::options::{
    CompressionOptions, EsTarget, LegalCommentPolicy, MinifyOptions, RenderOptions,
};
use js_minifier::pipeline::JavascriptMinifier;

fn default_minify() -> MinifyOptions {
    MinifyOptions::default()
}

fn default_render() -> RenderOptions {
    RenderOptions::default()
}

#[test]
fn determinism_byte_identical() {
    let m = JavascriptMinifier::new();
    let src = "function greet(name) { return \"hello, \" + name; } console.log(greet(\"world\"));";
    let a = m.minify(src).unwrap();
    let b = m.minify(src).unwrap();
    assert_eq!(a, b);
}

#[test]
fn determinism_of_failure() {
    let m = JavascriptMinifier::new();
    let src = "var 1x = 2;";
    let a = m.minify(src).unwrap_err();
    let b = m.minify(src).unwrap_err();
    assert_eq!(a.get_errors(), b.get_errors());
}

#[test]
fn fail_fast_on_syntax_error() {
    let m = JavascriptMinifier::new();
    let r = m.minify("function ( { ");
    let exc = r.unwrap_err();
    let errors = exc.get_errors();
    assert!(errors.len() >= 1);
    assert_eq!(exc.error_count(), errors.len());
    assert_eq!(exc.source_text(), "function ( { ");
}

#[test]
fn dead_code_elimination() {
    let m = JavascriptMinifier::new();
    let out = m.minify("if (false) { sideEffect(); } console.log(1);").unwrap();
    assert!(!out.contains("sideEffect"));
    assert!(out.contains("console.log(1)"));
}

#[test]
fn constant_folding() {
    let m = JavascriptMinifier::new();
    let out = m.minify("const x = 1 + 2; console.log(x);").unwrap();
    assert!(out.contains('3'));
    assert!(!out.contains('+'));
}

#[test]
fn idempotence_of_reminification() {
    let m = JavascriptMinifier::new();
    let src = "function twice(amount) { return amount + amount; }\nconsole.log(twice(21));";
    let once = m.minify(src).unwrap();
    let again = m.minify(&once).unwrap();
    assert!(again.len() <= once.len());
}

#[test]
fn minified_output_reparses_cleanly() {
    let m = JavascriptMinifier::new();
    let src = "var total = 0;\nfor (var i = 0; i < 10; i = i + 1) { total = total + i; }\nconsole.log(total);";
    let once = m.minify(src).unwrap();
    let again = m.minify(&once);
    assert!(again.is_ok());
    assert!(again.unwrap().len() <= once.len());
}

#[test]
fn option_isolation_single_quote() {
    let m = JavascriptMinifier::new();
    let src = "console.log(\"hi there\");";
    let double = m
        .minify_with_options(src, default_minify(), default_render())
        .unwrap();
    let mut single_options = default_render();
    single_options.single_quote = true;
    let single = m
        .minify_with_options(src, default_minify(), single_options)
        .unwrap();
    assert_eq!(double.replace('"', "'"), single);
}

#[test]
fn mangling_renames_locals() {
    let m = JavascriptMinifier::new();
    let src = "function twice(amount) { return amount + amount; } console.log(twice(4));";
    let mut options = default_minify();
    options.mangle = true;
    let out = m.minify_with_options(src, options, default_render()).unwrap();
    assert!(!out.contains("amount"));
    let plain = m.minify(src).unwrap();
    assert!(plain.contains("amount"));
}

#[test]
fn drop_console_toggle() {
    let m = JavascriptMinifier::new();
    let src = "console.log(1); var kept = 2; exportedUse(kept);";
    let mut options = default_minify();
    options.compress.drop_console = true;
    let out = m.minify_with_options(src, options, default_render()).unwrap();
    assert!(!out.contains("console.log"));
    let kept = m.minify(src).unwrap();
    assert!(kept.contains("console.log(1)"));
}

#[test]
fn drop_debugger_toggle() {
    let m = JavascriptMinifier::new();
    let src = "debugger; console.log(1);";
    let mut options = default_minify();
    options.compress.drop_debugger = true;
    let out = m.minify_with_options(src, options, default_render()).unwrap();
    assert!(!out.contains("debugger"));
    let kept = m.minify(src).unwrap();
    assert!(kept.contains("debugger"));
}

#[test]
fn default_options_are_the_boundary_defaults() {
    let m = MinifyOptions::default();
    assert_eq!(m.compress.target, EsTarget::Es2016);
    assert!(!m.compress.drop_debugger);
    assert!(!m.compress.drop_console);
    assert!(!m.mangle);
    let g = RenderOptions::default();
    assert!(!g.single_quote);
    assert!(g.minify);
    assert!(!g.comments);
    assert!(!g.annotation_comments);
    assert_eq!(g.legal_comments, LegalCommentPolicy::Strip);
    let c = CompressionOptions::default();
    assert_eq!(c, m.compress);
}

#[test]
fn rendering_single_line_with_caret() {
    let d = Diagnostic {
        message: String::from("unexpected token"),
        start: 4,
        len: 3,
        severity: Severity::Error,
    };
    let out = render_diagnostic(&d, "abcd efg hij");
    assert_eq!(out, "error: unexpected token\nabcd efg hij\n    ^^^");
}

#[test]
fn rendering_picks_the_offending_line() {
    let d = Diagnostic {
        message: String::from("bad"),
        start: 4,
        len: 1,
        severity: Severity::Warning,
    };
    let out = render_diagnostic(&d, "a\nbb#bb\nccc");
    assert_eq!(out, "warning: bad\nbb#bb\n  ^");
}

#[test]
fn rendering_empty_span_gets_one_caret() {
    let d = Diagnostic {
        message: String::from("missing brace"),
        start: 3,
        len: 0,
        severity: Severity::Error,
    };
    let out = render_diagnostic(&d, "abcdef");
    assert_eq!(out, "error: missing brace\nabcdef\n   ^");
}

#[test]
fn rendering_caret_stops_at_line_end() {
    let d = Diagnostic {
        message: String::from("runaway"),
        start: 2,
        len: 50,
        severity: Severity::Error,
    };
    let out = render_diagnostic(&d, "abcd\nefgh");
    assert_eq!(out, "error: runaway\nabcd\n  ^^");
}

#[test]
fn rendering_non_ascii_source_keeps_message_only() {
    let d = Diagnostic {
        message: String::from("bad"),
        start: 0,
        len: 1,
        severity: Severity::Advice,
    };
    let out = render_diagnostic(&d, "café(");
    assert_eq!(out, "advice: bad");
}

#[test]
fn failure_reports_source_context() {
    let m = JavascriptMinifier::new();
    let src = "console.log(1);\nfunction ( {\nconsole.log(2);";
    let exc = m.minify(src).unwrap_err();
    let errors = exc.get_errors();
    assert!(errors.len() >= 1);
    let first = &errors[0];
    assert!(first.starts_with("error: "));
    assert!(first.contains("function ( {"));
    assert!(first.contains('^'));
}

#[test]
fn no_partial_output_on_failure() {
    let m = JavascriptMinifier::new();
    assert!(m.minify("for (;;").is_err());
    assert!(m.minify("for (;;) break;").is_ok());
}
