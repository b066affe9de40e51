use cat_rs::args::Args;

#[test]
fn arg_none() {
    let args = Args::parse_from(&vec!["cat-rs".to_string()]).unwrap();
    assert_eq!(args.input, None);
}

#[test]
fn arg_one() {
    let args = Args::parse_from(&vec!["cat-rs".to_string(), "first_arg.txt".to_string()]).unwrap();
    assert_eq!(args.input, Some(vec!["first_arg.txt".to_string()]));
}

#[test]
fn arg_multiple() {
    let args = Args::parse_from(&vec![
        "cat-rs".to_string(),
        "first_arg.txt".to_string(),
        "second_arg.txt".to_string(),
        "third_arg.txt".to_string(),
    ])
    .unwrap();
    assert_eq!(
        args.input,
        Some(vec![
            "first_arg.txt".to_string(),
            "second_arg.txt".to_string(),
            "third_arg.txt".to_string(),
        ])
    );
}

#[test]
fn arg_show_tab() {
    let args = Args::parse_from(&vec![
        "cat-rs".to_string(),
        "-t".to_string(),
        "first_arg.txt".to_string(),
    ])
    .unwrap();
    assert!(args.show_tab);
}

#[test]
fn arg_show_tab_partial() {
    let args = Args::parse_from(&vec![
        "cat-rs".to_string(),
        "-T".to_string(),
        "first_arg.txt".to_string(),
    ])
    .unwrap();
    assert!(args.show_tab_partial);
}

#[test]
fn arg_show_end() {
    let args = Args::parse_from(&vec![
        "cat-rs".to_string(),
        "-e".to_string(),
        "first_arg.txt".to_string(),
    ])
    .unwrap();
    assert!(args.show_end);
}

#[test]
fn arg_show_end_partial() {
    let args = Args::parse_from(&vec![
        "cat-rs".to_string(),
        "-E".to_string(),
        "first_arg.txt".to_string(),
    ])
    .unwrap();
    assert!(args.show_end_partial);
}

#[test]
fn arg_show_non_printing() {
    let args = Args::parse_from(&vec![
        "cat-rs".to_string(),
        "-v".to_string(),
        "first_arg.txt".to_string(),
    ])
    .unwrap();
    assert!(args.show_non_printing);
}

#[test]
fn arg_all_flags_and_paths() {
    let args = Args::parse_from(&vec![
        "cat-rs".to_string(),
        "-a".to_string(),
        "one.txt".to_string(),
        "-v".to_string(),
        "two.txt".to_string(),
    ])
    .unwrap();
    assert!(args.all);
    assert!(args.show_non_printing);
    assert!(!args.show_tab);
    assert!(!args.show_end);
    assert!(!args.show_tab_partial);
    assert!(!args.show_end_partial);
    assert_eq!(
        args.input,
        Some(vec!["one.txt".to_string(), "two.txt".to_string()])
    );
}

#[test]
fn arg_unknown_flag_rejected() {
    let err = Args::parse_from(&vec![
        "cat-rs".to_string(),
        "-x".to_string(),
        "first_arg.txt".to_string(),
    ])
    .unwrap_err();
    assert_eq!(err.arg, "-x");
}

#[test]
fn arg_first_unknown_flag_reported() {
    let err = Args::parse_from(&vec![
        "cat-rs".to_string(),
        "-t".to_string(),
        "--long".to_string(),
        "-y".to_string(),
    ])
    .unwrap_err();
    assert_eq!(err.arg, "--long");
}

#[test]
fn arg_lone_dash_is_positional() {
    let args = Args::parse_from(&vec!["cat-rs".to_string(), "-".to_string()]).unwrap();
    assert_eq!(args.input, Some(vec!["-".to_string()]));
}
