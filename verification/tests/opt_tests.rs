use va_tool::opt::{opts_get, Arg, Match, Matcher, Opt, OptKind, State};

fn opts() -> Vec<Opt> {
    vec![
        Opt(vec!["key".to_string()], OptKind::Arg),
        Opt(vec!["flag".to_string(), "verbose".to_string()], OptKind::NoArg),
    ]
}

fn matches_of(args: &[&str]) -> Vec<Match> {
    let args: Vec<String> = args.iter().map(|a| a.to_string()).collect();
    let mut it = Matcher::new(args, opts()).into_iter();
    let mut out = Vec::new();
    while let Some(m) = it.next() {
        out.push(m);
    }
    out
}

#[test]
fn state_flags_flip_as_documented() {
    let mut s = State::initial();
    assert!(s.is_pos());
    assert!(!s.is_opt());
    assert!(!s.is_end());
    s.set_opt();
    assert!(!s.is_pos());
    assert!(s.is_opt());
    assert!(!s.is_end());
    s.set_end();
    assert!(s.is_opt());
    assert!(s.is_end());
    s.set_pos();
    assert!(s.is_pos());
    assert!(!s.is_opt());
    assert!(s.is_end());
}

#[test]
fn arg_classifies_options_and_the_end_marker() {
    assert!(Arg::new("-v".to_string()).is_option());
    assert!(Arg::new("--key".to_string()).is_option());
    assert!(!Arg::new("value".to_string()).is_option());
    assert!(Arg::new("--".to_string()).is_end());
    assert!(!Arg::new("---".to_string()).is_end());
    assert!(!Arg::new("-".to_string()).is_end());
}

#[test]
fn extract_splits_key_and_joined_value() {
    let (k, v) = Arg::new("--key=value".to_string()).extract_key_and_value();
    assert_eq!(k.as_deref(), Some("key"));
    assert_eq!(v.as_deref(), Some("value"));
    let (k, v) = Arg::new("--key:value".to_string()).extract_key_and_value();
    assert_eq!(k.as_deref(), Some("key"));
    assert_eq!(v.as_deref(), Some("value"));
    let (k, v) = Arg::new("--key".to_string()).extract_key_and_value();
    assert_eq!(k.as_deref(), Some("key"));
    assert_eq!(v, None);
    let (k, v) = Arg::new("-v".to_string()).extract_key_and_value();
    assert_eq!(k.as_deref(), Some("v"));
    assert_eq!(v, None);
}

#[test]
fn opts_get_returns_the_first_match() {
    let set = opts();
    let found = opts_get(&set, &"verbose".to_string()).expect("verbose is known");
    assert_eq!(found.1, OptKind::NoArg);
    let found = opts_get(&set, &"key".to_string()).expect("key is known");
    assert_eq!(found.1, OptKind::Arg);
    assert!(opts_get(&set, &"nope".to_string()).is_none());
}

#[test]
fn positional_arguments_pass_through() {
    assert_eq!(
        matches_of(&["pos0"]),
        vec![Match::Positional("pos0".to_string())]
    );
}

#[test]
fn joined_and_split_values_both_match() {
    assert_eq!(
        matches_of(&["--key=value"]),
        vec![Match::KeyValue("key".to_string(), "value".to_string())]
    );
    assert_eq!(
        matches_of(&["--key", "val2"]),
        vec![Match::KeyValue("key".to_string(), "val2".to_string())]
    );
}

#[test]
fn a_required_argument_missing_is_reported() {
    assert_eq!(
        matches_of(&["--key"]),
        vec![Match::NoArg("key".to_string())]
    );
    // A following option is not consumed as the value.
    assert_eq!(
        matches_of(&["--key", "--flag"]),
        vec![
            Match::NoArg("key".to_string()),
            Match::Key("flag".to_string(), None),
        ]
    );
}

#[test]
fn flags_take_an_optional_following_value() {
    assert_eq!(
        matches_of(&["--flag"]),
        vec![Match::Key("flag".to_string(), None)]
    );
    assert_eq!(
        matches_of(&["--flag", "yes"]),
        vec![Match::Key("flag".to_string(), Some("yes".to_string()))]
    );
    assert_eq!(
        matches_of(&["--verbose"]),
        vec![Match::Key("verbose".to_string(), None)]
    );
}

#[test]
fn unknown_options_are_reported_as_unknown() {
    assert_eq!(
        matches_of(&["--nope"]),
        vec![Match::UnknownKey("nope".to_string())]
    );
    assert_eq!(
        matches_of(&["--nope", "v"]),
        vec![Match::UnknownKeyValue("nope".to_string(), "v".to_string())]
    );
}

#[test]
fn positionals_between_options_are_extra() {
    assert_eq!(
        matches_of(&["a", "--key=1", "b"]),
        vec![
            Match::Positional("a".to_string()),
            Match::KeyValue("key".to_string(), "1".to_string()),
            Match::ExtraPositional("b".to_string()),
        ]
    );
}

#[test]
fn double_dash_makes_everything_positional() {
    assert_eq!(
        matches_of(&["--", "--key"]),
        vec![Match::Positional("--key".to_string())]
    );
    assert_eq!(
        matches_of(&["--", "-a", "-b"]),
        vec![
            Match::Positional("-a".to_string()),
            Match::Positional("-b".to_string()),
        ]
    );
}

#[test]
fn a_lone_dash_is_skipped() {
    assert_eq!(
        matches_of(&["-", "x"]),
        vec![Match::Positional("x".to_string())]
    );
    assert_eq!(matches_of(&["-"]), vec![]);
}
