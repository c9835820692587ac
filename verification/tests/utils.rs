use frork::bindings::Environment;
use frork::runtime::{
    assertion_type_of, dofile_code, fennel_search_path, lua_search_path, script_dir, sh_reply,
    split_command,
};
use frork::error::FrorkError;
use frork::utils::{resolve_reference, substitute, ExpandError, ExpandedPath, Utils, REFERENCE_PATTERN};

/// The home directory of the environment the tests expand paths in.
const HOME: &str = "/home/tester";

/// An environment like a login shell's: `HOME` and `USER` are set.
fn process_env() -> Environment {
    let mut env = Environment::new();
    env.set("HOME", HOME);
    env.set("USER", "tester");
    env
}

#[test]
fn test_expand_path_no_variables() {
    let result = Utils::expand_path("/path/to/file", &process_env());
    assert!(result.is_ok());
    assert_eq!(result.unwrap(), "/path/to/file");
}

#[test]
fn test_expand_path_with_tilde() {
    let home = HOME;
    let result = Utils::expand_path("~/file", &process_env());
    assert!(result.is_ok());
    assert_eq!(result.unwrap(), format!("{}/file", home));
}

#[test]
fn test_expand_path_with_multiple_env_vars() {
    let mut env = process_env();
    env.set("TEST_VAR1", "value1");
    env.set("TEST_VAR2", "value2");
    let result = Utils::expand_path("/$TEST_VAR1/path/$TEST_VAR2/file", &env);
    assert!(result.is_ok());
    assert_eq!(result.unwrap(), "/value1/path/value2/file");
}

#[test]
fn test_expand_path_with_multiple_missing_env_vars() {
    let result = Utils::expand_path("/$MISSING1/path/$MISSING2/file", &process_env());
    assert!(result.is_err());
    let error = result.unwrap_err();
    let error_str = error.message();
    assert!(error_str.contains("Environment variables not found:"));
    assert!(error_str.contains("MISSING1"));
    assert!(error_str.contains("MISSING2"));
}

#[test]
fn test_expand_path_mixed_existing_and_missing() {
    let mut env = process_env();
    env.set("EXISTING_VAR", "exists");
    let result = Utils::expand_path("/$EXISTING_VAR/path/$MISSING_VAR/file", &env);
    assert!(result.is_err());
    let error = result.unwrap_err();
    assert!(error
        .message()
        .contains("Environment variables not found: MISSING_VAR"));
}

#[test]
fn test_expand_path_tilde_and_env_var() {
    let home = HOME;
    let mut env = process_env();
    env.set("TEST_VAR", "test");
    let result = Utils::expand_path("~/$TEST_VAR/file", &env);
    assert!(result.is_ok());
    assert_eq!(result.unwrap(), format!("{}/test/file", home));
}

#[test]
fn expand_path_without_home_fails_only_for_a_tilde() {
    let env = Environment::new();
    let Err(ExpandError::HomeNotSet) = Utils::expand_path("~/x", &env) else {
        panic!("expected HOME to be missing");
    };
    assert_eq!(
        ExpandError::HomeNotSet.message(),
        "HOME environment variable not set"
    );
    assert_eq!(Utils::expand_path("a~b", &env).unwrap(), "a~b");
}

#[test]
fn expand_path_reference_grammar() {
    let mut env = Environment::new();
    env.set("A", "1");
    env.set("A_2", "two");
    env.set("_x", "under");
    // `$` not followed by a letter or underscore is kept as it is.
    assert_eq!(Utils::expand_path("$1 $ $-", &env).unwrap(), "$1 $ $-");
    // Names run as far as letters, digits and underscores go.
    assert_eq!(Utils::expand_path("$A_2/$A.$_x", &env).unwrap(), "two/1.under");
    // Each unset name is reported once per reference, in order.
    let Err(ExpandError::VarsNotFound(names)) = Utils::expand_path("$B$A$C$B", &env) else {
        panic!("expected unset variables");
    };
    assert_eq!(names, ["B", "C", "B"]);
}

#[test]
fn expand_path_substitutes_inside_home() {
    let mut env = Environment::new();
    env.set("HOME", "/home/$USER");
    env.set("USER", "alpha");
    assert_eq!(Utils::expand_path("~/x", &env).unwrap(), "/home/alpha/x");
}

#[test]
fn later_settings_replace_earlier_ones() {
    let mut env = Environment::new();
    env.set("V", "old");
    env.set("W", "other");
    env.set("V", "new");
    assert_eq!(env.get("V").unwrap(), "new");
    assert_eq!(env.get("W").unwrap(), "other");
    assert!(env.get("X").is_none());
}

#[test]
fn lenient_expansion_keeps_what_is_unset() {
    let mut env = Environment::new();
    env.set("SET", "yes");
    assert_eq!(
        frork::lenient::Utils::expand_path("~/$SET/$UNSET", &env),
        "~/yes/$UNSET"
    );
    env.set("HOME", "/h");
    assert_eq!(
        frork::lenient::Utils::expand_path("~/$SET/$UNSET", &env),
        "/h/yes/$UNSET"
    );
    assert_eq!(
        frork::lenient::Utils::dirname("$SET/file", &env).unwrap(),
        "yes"
    );
}

#[test]
fn expanded_path_keeps_the_expansion() {
    let mut env = Environment::new();
    env.set("D", "/data");
    let p = ExpandedPath::new("$D/x", &env).unwrap();
    assert_eq!(p.as_str(), "/data/x");
    assert_eq!(p.into_string(), "/data/x");
    assert!(ExpandedPath::new("$NOPE", &env).is_err());
}

#[test]
fn chomp_strips_newlines_then_carriage_returns() {
    assert_eq!(Utils::chomp("abc\n\n"), "abc");
    assert_eq!(Utils::chomp("abc\r\n"), "abc");
    assert_eq!(Utils::chomp("abc\n\r"), "abc\n");
    assert_eq!(Utils::chomp("abc"), "abc");
    assert_eq!(frork::lenient::Utils::chomp("x\r\r"), "x");
}

#[test]
fn dirname_is_the_parent_of_the_expansion() {
    let mut env = Environment::new();
    env.set("HOME", "/home/alpha");
    assert_eq!(
        Utils::dirname("/tmp/b.txt", &env).unwrap(),
        Some("/tmp".to_string())
    );
    assert_eq!(
        Utils::dirname("~/.config/nvim", &env).unwrap(),
        Some("/home/alpha/.config".to_string())
    );
    assert_eq!(Utils::dirname("/", &env).unwrap(), None);
    assert!(Utils::dirname("$UNSET/x", &env).is_err());
}

#[test]
fn platform_is_the_chomped_lowercase_uname() {
    assert_eq!(Utils::platform("Darwin\n"), "darwin");
    assert_eq!(Utils::platform("Linux\r\n"), "linux");
}

#[test]
fn assert_bin_reads_the_exit_code_of_which() {
    assert!(Utils::assert_bin("git", 0).is_ok());
    assert_eq!(
        Utils::assert_bin("frork-nope", 1).unwrap_err(),
        "Required binary 'frork-nope' not found in PATH"
    );
}

#[test]
fn test_sh_through_lua_invalid_arguments() {
    let result = split_command(Vec::new());
    assert!(result.is_err());

    let error = result.unwrap_err();
    assert!(error.message().contains("sh requires at least a command"));
}

#[test]
fn sh_splits_the_command_from_its_arguments() {
    let (cmd, args) =
        split_command(vec!["echo".to_string(), "hello".to_string(), "world".to_string()]).unwrap();
    assert_eq!(cmd, "echo");
    assert_eq!(args, ["hello", "world"]);
    assert_eq!(sh_reply(Some(("out".to_string(), 3))), (Some("out".to_string()), 3));
    assert_eq!(sh_reply(None), (None, -1));
}

#[test]
fn ok_needs_an_assertion_type() {
    assert_eq!(assertion_type_of(None).unwrap_err(), FrorkError::NoOperation);
    assert_eq!(
        assertion_type_of(Some(None)).unwrap_err(),
        FrorkError::MissingAssertionType
    );
    assert_eq!(
        assertion_type_of(Some(Some("directory".to_string()))).unwrap(),
        "directory"
    );
}

#[test]
fn script_search_paths() {
    assert_eq!(script_dir("/a/b/main.fnl"), Some("/a/b".to_string()));
    assert_eq!(script_dir(""), None);
    assert_eq!(
        lua_search_path("./?.lua", "/a/b"),
        "./?.lua;/a/b/?.lua;/a/b/?/init.lua"
    );
    assert_eq!(
        fennel_search_path(None, "/a/b"),
        "./?.fnl;./?/init.fnl;/a/b/?.fnl;/a/b/?/init.fnl"
    );
    assert_eq!(
        fennel_search_path(Some("x"), "/d"),
        "x;/d/?.fnl;/d/?/init.fnl"
    );
    assert_eq!(
        dofile_code("/a/b/main.fnl"),
        r#"require("fennel").install().dofile("/a/b/main.fnl")"#
    );
}

#[test]
fn lenient_and_strict_expansion_agree_where_strict_succeeds() {
    let mut env = Environment::new();
    env.set("HOME", "/h");
    env.set("A", "a");
    for path in ["~/$A/x", "/plain", "$A$A", "a~"] {
        assert_eq!(
            Utils::expand_path(path, &env).unwrap(),
            frork::lenient::Utils::expand_path(path, &env)
        );
    }
}

#[test]
fn resolve_reference_uses_the_value_or_keeps_the_reference() {
    let mut env = Environment::new();
    env.set("SET", "value");
    let mut missing = vec!["EARLIER".to_string()];
    assert_eq!(resolve_reference("$SET", "SET", &env, &mut missing), "value");
    assert_eq!(missing, ["EARLIER"]);
    assert_eq!(resolve_reference("$UNSET", "UNSET", &env, &mut missing), "$UNSET");
    assert_eq!(missing, ["EARLIER", "UNSET"]);
}

#[test]
fn substitute_replaces_references_and_lists_unset_names() {
    let mut env = Environment::new();
    env.set("A", "1");
    let (text, missing) = substitute("x$A-$B/$A$C", &env);
    assert_eq!(text, "x1-$B/1$C");
    assert_eq!(missing, ["B", "C"]);
    assert_eq!(REFERENCE_PATTERN, r"\$([A-Za-z_][A-Za-z0-9_]*)");
}

#[test]
fn lenient_expanded_path_keeps_what_is_unset() {
    let mut env = Environment::new();
    env.set("SET", "value");
    let path = ExpandedPath::lenient("~/$SET/$UNSET", &env);
    assert_eq!(path.as_str(), "~/value/$UNSET");
}
