use cat_rs::options::OutputOptions;
use cat_rs::transform::transform_unit;

fn opts(show_tabs: bool, show_ends: bool) -> OutputOptions {
    OutputOptions {
        show_tabs,
        show_ends,
    }
}

#[test]
fn tab_substitution() {
    let out = transform_unit(&opts(true, false), "a\tb\n");
    assert_eq!(out, "a^Ib");
}

#[test]
fn end_substitution() {
    let out = transform_unit(&opts(false, true), "a\nb\n");
    assert_eq!(out, "a$\nb$");
}

#[test]
fn combined_substitution() {
    let out = transform_unit(&opts(true, true), "x\ty\n");
    assert_eq!(out, "x^Iy$");
}

#[test]
fn passthrough_trims_trailing_whitespace() {
    let out = transform_unit(&opts(false, false), "hello \t \n");
    assert_eq!(out, "hello");
}

#[test]
fn passthrough_is_idempotent() {
    let once = transform_unit(&opts(false, false), "plain text\n");
    let twice = transform_unit(&opts(false, false), once.as_str());
    assert_eq!(once, "plain text");
    assert_eq!(twice, once);
}

#[test]
fn empty_unit_stays_empty() {
    let out = transform_unit(&opts(true, true), "");
    assert_eq!(out, "");
}

#[test]
fn whitespace_only_unit_trims_to_empty() {
    let out = transform_unit(&opts(false, false), " \t\r\n");
    assert_eq!(out, "");
}

#[test]
fn tabs_inside_are_kept_after_trim() {
    let out = transform_unit(&opts(true, false), "\ta\tb\t\n");
    assert_eq!(out, "^Ia^Ib^I");
}

#[test]
fn dollar_marks_every_inner_newline() {
    let out = transform_unit(&opts(false, true), "one\ntwo\nthree\n");
    assert_eq!(out, "one$\ntwo$\nthree$");
}

#[test]
fn disabled_tabs_pass_through() {
    let out = transform_unit(&opts(false, true), "a\tb\n");
    assert_eq!(out, "a\tb$");
}
