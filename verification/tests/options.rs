use cat_rs::args::Args;
use cat_rs::options::OutputOptions;

fn args_with(
    all: bool,
    show_end: bool,
    show_tab: bool,
    show_end_partial: bool,
    show_tab_partial: bool,
    show_non_printing: bool,
) -> Args {
    Args {
        all,
        show_end,
        show_tab,
        show_end_partial,
        show_tab_partial,
        show_non_printing,
        input: None,
    }
}

#[test]
fn resolve_all_enables_both() {
    let opts = OutputOptions::from_args(&args_with(true, false, false, false, false, false));
    assert!(opts.show_tabs);
    assert!(opts.show_ends);
}

#[test]
fn resolve_partial_without_gate_has_no_effect() {
    let opts = OutputOptions::from_args(&args_with(false, false, false, false, true, false));
    assert!(!opts.show_tabs);
    assert!(!opts.show_ends);
}

#[test]
fn resolve_partial_with_gate_enables_tabs_only() {
    let opts = OutputOptions::from_args(&args_with(false, false, false, false, true, true));
    assert!(opts.show_tabs);
    assert!(!opts.show_ends);
}

#[test]
fn resolve_end_partial_with_gate_enables_ends_only() {
    let opts = OutputOptions::from_args(&args_with(false, false, false, true, false, true));
    assert!(opts.show_ends);
    assert!(!opts.show_tabs);
}

#[test]
fn resolve_no_flags_is_passthrough() {
    let opts = OutputOptions::from_args(&args_with(false, false, false, false, false, false));
    assert!(!opts.show_tabs);
    assert!(!opts.show_ends);
}

#[test]
fn resolve_direct_flags() {
    let opts = OutputOptions::from_args(&args_with(false, true, true, false, false, false));
    assert!(opts.show_tabs);
    assert!(opts.show_ends);
}
