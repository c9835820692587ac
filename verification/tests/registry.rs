use frork::assertions::{
    Brew, BrewBundle, Directory, Git, LuaAssertion, LuaAssertionType, Symlink,
};
use frork::protocol::{Answer, Request, Step};
use frork::bindings::Environment;
use frork::registry::{BuiltIn, Factory, Registry};

/// A stand-in for a registered Lua assertion type: how it displays.
#[derive(Clone, Debug, PartialEq)]
struct Registered(&'static str);

/// Builds a built-in assertion from plain arguments and shows it.
fn build(kind: BuiltIn, args: &[&str]) -> String {
    let env = Environment::new();
    match kind {
        BuiltIn::Brew => Brew::new().display(),
        BuiltIn::BrewBundle => BrewBundle::new(args[0], &env).unwrap().display(),
        BuiltIn::Debug => frork::assertions::Debug::<()>::new(None, None).display(),
        BuiltIn::Directory => Directory::new(args[0], &env).unwrap().display(),
        BuiltIn::Git => Git::new(args[0], args[1], &env).unwrap().display(),
        BuiltIn::Symlink => Symlink::new(args[0], args[1], &env).unwrap().display(),
    }
}

/// Every built-in name resolves to a factory that builds a working
/// assertion, checked through the factory rather than by name alone.
#[test]
fn test_built_in_types_resolve() {
    let registry: Registry<Registered> = Registry::default();

    let cases: [(&str, &[&str], &str); 6] = [
        ("brew", &[], "brew"),
        ("brew-bundle", &["/tmp/Brewfile"], "brew-bundle /tmp/Brewfile"),
        ("debug", &[], "debug"),
        ("directory", &["/tmp"], "directory /tmp"),
        (
            "git",
            &["/tmp/r", "https://example.com/r.git"],
            "git /tmp/r https://example.com/r.git",
        ),
        (
            "symlink",
            &["/tmp/link", "/tmp/source"],
            "symlink /tmp/link /tmp/source",
        ),
    ];

    for (name, args, expected) in cases {
        let factory = registry
            .get_factory(name)
            .unwrap_or_else(|e| panic!("{name} did not resolve: {}", e.message()));
        let Factory::BuiltIn(kind) = factory else {
            panic!("{name} resolved to a registered type");
        };
        assert_eq!(build(kind, args), expected, "for type {name}");
    }
}

#[test]
fn test_unknown_type_is_rejected() {
    let registry: Registry<Registered> = Registry::default();

    let Err(error) = registry.get_factory("nope") else {
        panic!("expected an unknown assertion type error");
    };
    assert!(error.message().contains("Unknown assertion type: nope"));
}

#[test]
fn test_registered_types_are_dispatched() {
    let mut registry = Registry::default();
    let lua_type: LuaAssertionType<&'static str> =
        LuaAssertionType::from_parts::<()>(None, Ok("status"), Ok("install"), None).unwrap();
    registry.register("custom", lua_type);

    let factory = registry.get_factory("custom").unwrap();
    let Factory::Registered {
        assertion_type,
        lua_assertion_type,
    } = factory
    else {
        panic!("expected the registered type");
    };
    let t = LuaAssertionType::from_parts::<()>(
        lua_assertion_type.display_fn,
        Ok(lua_assertion_type.status_fn),
        Ok(lua_assertion_type.install_fn),
        lua_assertion_type.upgrade_fn,
    )
    .unwrap();
    let assertion = LuaAssertion::new(&assertion_type, "arg", t);
    // With no display function, the assertion shows its type and arguments.
    let Step::Ask(Request::DescribeArgs) = assertion.display_step(&vec![]) else {
        panic!("expected the arguments to be described");
    };
    let Step::Finish(Ok(shown)) =
        assertion.display_step(&vec![Answer::ArgTexts(vec![Some("arg".to_string())])])
    else {
        panic!("expected a display");
    };
    assert_eq!(shown, "custom arg");
}

#[test]
fn test_registered_types_shadow_built_ins() {
    let mut registry = Registry::default();
    registry.register("directory", Registered("shadowed"));

    let factory = registry.get_factory("directory").unwrap();
    let Factory::Registered {
        lua_assertion_type, ..
    } = factory
    else {
        panic!("expected the registered type to shadow the built-in");
    };
    assert_eq!(lua_assertion_type, &Registered("shadowed"));
}

#[test]
fn test_re_registering_replaces_the_previous_type() {
    let mut registry = Registry::default();

    registry.register("custom", Registered("first"));
    registry.register("custom", Registered("replaced"));

    let factory = registry.get_factory("custom").unwrap();
    let Factory::Registered {
        lua_assertion_type, ..
    } = factory
    else {
        panic!("expected the registered type");
    };
    assert_eq!(lua_assertion_type, &Registered("replaced"));
}

#[test]
fn lenient_registry_knows_fewer_built_ins() {
    let mut registry: Registry<Registered> = Registry::default();
    assert!(matches!(
        frork::lenient::create(&registry, "directory"),
        Ok(Factory::BuiltIn(BuiltIn::Directory))
    ));
    assert!(frork::lenient::create(&registry, "git").is_err());
    registry.register("git", Registered("mine"));
    assert!(matches!(
        frork::lenient::create(&registry, "git"),
        Ok(Factory::Registered { .. })
    ));
}
