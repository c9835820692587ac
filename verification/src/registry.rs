//! Dispatches an assertion type name to what builds the assertion: a type
//! registered from Fennel, or one of the built-in types. Registered types
//! shadow the built-ins.
use vstd::prelude::*;

use crate::bindings::Bindings;
use crate::error::{FrorkError, FrorkFailure};
use crate::text::{owned, str_eq};

verus! {

/// The built-in assertion types.
#[derive(Debug, Clone, Copy, PartialEq, Eq)]
pub enum BuiltIn {
    Brew,
    BrewBundle,
    Debug,
    Directory,
    Git,
    Symlink,
}

/// The built-in type called `name`, if any.
pub open spec fn built_in_named(name: Seq<char>) -> Option<BuiltIn> {
    if name == "brew"@ {
        Some(BuiltIn::Brew)
    } else if name == "brew-bundle"@ {
        Some(BuiltIn::BrewBundle)
    } else if name == "debug"@ {
        Some(BuiltIn::Debug)
    } else if name == "directory"@ {
        Some(BuiltIn::Directory)
    } else if name == "git"@ {
        Some(BuiltIn::Git)
    } else if name == "symlink"@ {
        Some(BuiltIn::Symlink)
    } else {
        None
    }
}

/// The built-in type called `name`, if any.
pub fn built_in(name: &str) -> (r: Option<BuiltIn>)
    ensures
        r == built_in_named(name@),
{
    if str_eq(name, "brew") {
        Some(BuiltIn::Brew)
    } else if str_eq(name, "brew-bundle") {
        Some(BuiltIn::BrewBundle)
    } else if str_eq(name, "debug") {
        Some(BuiltIn::Debug)
    } else if str_eq(name, "directory") {
        Some(BuiltIn::Directory)
    } else if str_eq(name, "git") {
        Some(BuiltIn::Git)
    } else if str_eq(name, "symlink") {
        Some(BuiltIn::Symlink)
    } else {
        None
    }
}

/// What builds an assertion of a given type name.
#[derive(Debug)]
pub enum Factory<'a, T> {
    /// A type registered from Fennel under `assertion_type`.
    Registered { assertion_type: String, lua_assertion_type: &'a T },
    /// A built-in type.
    BuiltIn(BuiltIn),
}

/// The mathematical form of a [`Factory`].
pub enum FactoryView<T> {
    Registered { assertion_type: Seq<char>, lua_assertion_type: T },
    BuiltIn(BuiltIn),
}

impl<'a, T> Factory<'a, T> {
    pub open spec fn view(self) -> FactoryView<T> {
        match self {
            Factory::Registered { assertion_type, lua_assertion_type } => FactoryView::Registered {
                assertion_type: assertion_type@,
                lua_assertion_type: *lua_assertion_type,
            },
            Factory::BuiltIn(b) => FactoryView::BuiltIn(b),
        }
    }
}

/// The types registered from Fennel, by name; the latest registration of a
/// name wins.
#[derive(Debug)]
pub struct Registry<T> {
    lua_assertion_types: Bindings<T>,
}

impl<T> Registry<T> {
    /// The type registered under `name`, if any.
    pub closed spec fn registered(self, name: Seq<char>) -> Option<T> {
        self.lua_assertion_types.lookup(name)
    }

    /// What the name `name` resolves to: the type registered under it, else
    /// the built-in type of that name, else an unknown-type error.
    pub open spec fn resolve(self, name: Seq<char>) -> Result<FactoryView<T>, FrorkFailure> {
        match self.registered(name) {
            Some(t) => Ok(FactoryView::Registered { assertion_type: name, lua_assertion_type: t }),
            None => match built_in_named(name) {
                Some(b) => Ok(FactoryView::BuiltIn(b)),
                None => Err(FrorkFailure::UnknownAssertionType { assertion_type: name }),
            },
        }
    }

    /// A registry with no type registered.
    pub fn new() -> (r: Registry<T>)
        ensures
            forall|n: Seq<char>| #[trigger] r.registered(n) is None,
    {
        Registry { lua_assertion_types: Bindings::new() }
    }

    /// Registers `lua_assertion_type` under `name`, replacing any type
    /// registered under it before.
    pub fn register(&mut self, name: &str, lua_assertion_type: T)
        ensures
            forall|n: Seq<char>|
                #[trigger] final(self).registered(n) == if n == name@ {
                    Some(lua_assertion_type)
                } else {
                    old(self).registered(n)
                },
    {
        self.lua_assertion_types.set(name, lua_assertion_type);
    }

    /// What builds an assertion of the type `assertion_type`.
    pub fn get_factory(&self, assertion_type: &str) -> (r: Result<Factory<'_, T>, FrorkError>)
        ensures
            match r {
                Ok(f) => self.resolve(assertion_type@) == Ok::<FactoryView<T>, FrorkFailure>(
                    f.view(),
                ),
                Err(e) => self.resolve(assertion_type@) == Err::<FactoryView<T>, FrorkFailure>(e@),
            },
    {
        if let Some(t) = self.lua_assertion_types.get(assertion_type) {
            return Ok(
                Factory::Registered { assertion_type: owned(assertion_type), lua_assertion_type: t },
            );
        }
        match built_in(assertion_type) {
            Some(b) => Ok(Factory::BuiltIn(b)),
            None => Err(FrorkError::UnknownAssertionType { assertion_type: owned(assertion_type) }),
        }
    }
}

impl<T> Default for Registry<T> {
    fn default() -> (r: Registry<T>)
        ensures
            forall|n: Seq<char>| #[trigger] r.registered(n) is None,
    {
        Registry::new()
    }
}

/// Registering a type under a name makes the name resolve to that type,
/// whether it names a built-in type or a type registered before, and leaves
/// what every other name resolves to as it was.
pub proof fn law_registration_shadows_and_replaces<T>(
    before: Registry<T>,
    after: Registry<T>,
    name: Seq<char>,
    t: T,
)
    requires
        forall|n: Seq<char>|
            #[trigger] after.registered(n) == if n == name {
                Some(t)
            } else {
                before.registered(n)
            },
    ensures
        after.resolve(name) == Ok::<FactoryView<T>, FrorkFailure>(
            FactoryView::Registered { assertion_type: name, lua_assertion_type: t },
        ),
        forall|n: Seq<char>| n != name ==> #[trigger] after.resolve(n) == before.resolve(n),
{
    assert(after.registered(name) == Some(t));
    assert forall|n: Seq<char>| n != name implies #[trigger] after.resolve(n) == before.resolve(
        n,
    ) by {
        assert(after.registered(n) == before.registered(n));
    }
}

/// With nothing registered under them, the built-in names resolve to their
/// built-in types and every other name is an unknown type.
pub proof fn law_unregistered_names_resolve_to_built_ins<T>(registry: Registry<T>, name: Seq<char>)
    requires
        registry.registered(name) is None,
    ensures
        registry.resolve(name) == match built_in_named(name) {
            Some(b) => Ok::<FactoryView<T>, FrorkFailure>(FactoryView::BuiltIn(b)),
            None => Err(FrorkFailure::UnknownAssertionType { assertion_type: name }),
        },
{
}

} // verus!
