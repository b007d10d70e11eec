//! Checks of the code-fence info-string parser.

use rdoc::langstring::{Ignore, LangString};

#[test]
fn plain_rust_tag() {
    let l = LangString::parse("rust");
    assert!(l.rust);
    assert_eq!(l.original, "rust");
    assert!(!l.should_panic);
}

#[test]
fn empty_string_defaults_to_rust() {
    let l = LangString::parse("");
    assert!(l.rust);
    assert_eq!(l.ignore, Ignore::Nothing);
}

#[test]
fn unknown_tag_suppresses_rust() {
    let l = LangString::parse("text");
    assert!(!l.rust);
}

#[test]
fn rust_tag_survives_unknown_tags() {
    let l = LangString::parse("text,rust");
    assert!(l.rust);
}

#[test]
fn ignore_and_named_ignores() {
    assert_eq!(LangString::parse("ignore").ignore, Ignore::All);
    let l = LangString::parse("ignore-x86,ignore-arm");
    assert_eq!(
        l.ignore,
        Ignore::Listed(vec!["x86".to_string(), "arm".to_string()])
    );
}

#[test]
fn compile_fail_implies_no_run() {
    let l = LangString::parse("compile_fail");
    assert!(l.compile_fail);
    assert!(l.no_run);
    assert!(l.rust);
}

#[test]
fn error_codes_collected() {
    let l = LangString::parse("E0123");
    assert_eq!(l.error_codes, vec!["E0123".to_string()]);
    assert!(l.rust);
    let m = LangString::parse("Eabcd");
    assert!(m.error_codes.is_empty());
    assert!(!m.rust);
}

#[test]
fn editions() {
    assert_eq!(LangString::parse("edition15").edition, Some(15));
    // An edition that does not fit the field parses as nothing.
    assert_eq!(LangString::parse("edition2018").edition, None);
    assert_eq!(LangString::parse("editionx").edition, None);
}

#[test]
fn brace_and_dot_forms() {
    let l = LangString::parse("{.should_panic}");
    assert!(l.should_panic);
    assert_eq!(l.original, "{.should_panic}");
}

#[test]
fn whitespace_and_separators() {
    let l = LangString::parse("  no_run\ttest_harness,  allow_fail  ");
    assert!(l.no_run);
    assert!(l.test_harness);
    assert!(l.allow_fail);
    assert!(l.rust);
}

#[test]
fn repeated_ignore_prefixes_stripped() {
    let l = LangString::parse("ignore-ignore-x86");
    assert_eq!(l.ignore, Ignore::Listed(vec!["x86".to_string()]));
}

#[test]
fn unicode_whitespace_trimmed() {
    // No-break space and ideographic space trim like ordinary spaces.
    let l = LangString::parse("\u{00A0}rust\u{3000}");
    assert!(l.rust);
    let m = LangString::parse("\u{2003}should_panic\u{2003}");
    assert!(m.should_panic);
}
