//! Name-to-value bindings where the latest binding of a name wins: the
//! process environment and the registry of assertion types both use them.
use vstd::prelude::*;

use crate::text::str_eq;

verus! {

/// The value bound last to `name` in `entries`, if any.
pub open spec fn lookup_last<V>(entries: Seq<(Seq<char>, V)>, name: Seq<char>) -> Option<V>
    decreases entries.len(),
{
    if entries.len() == 0 {
        None
    } else if entries.last().0 == name {
        Some(entries.last().1)
    } else {
        lookup_last(entries.drop_last(), name)
    }
}

/// Bindings from names to values; binding a name again replaces its value.
#[derive(Debug)]
pub struct Bindings<V> {
    entries: Vec<(String, V)>,
}

impl<V> Bindings<V> {
    /// The bindings in the order they were made.
    pub closed spec fn entries(self) -> Seq<(Seq<char>, V)> {
        self.entries@.map_values(|e: (String, V)| (e.0@, e.1))
    }

    /// The value currently bound to `name`.
    pub open spec fn lookup(self, name: Seq<char>) -> Option<V> {
        lookup_last(self.entries(), name)
    }

    /// Bindings with no name bound.
    pub fn new() -> (b: Self)
        ensures
            forall|n: Seq<char>| #[trigger] b.lookup(n) is None,
    {
        let b = Bindings { entries: Vec::new() };
        assert(b.entries() =~= Seq::<(Seq<char>, V)>::empty());
        b
    }

    /// Binds `name` to `value`, replacing any earlier binding of `name`.
    pub fn set(&mut self, name: &str, value: V)
        ensures
            forall|n: Seq<char>|
                #[trigger] final(self).lookup(n) == if n == name@ {
                    Some(value)
                } else {
                    old(self).lookup(n)
                },
    {
        let ghost before = self.entries();
        self.entries.push((String::from_str(name), value));
        proof {
            assert(self.entries() =~= before.push((name@, value)));
            assert(self.entries().drop_last() =~= before);
        }
    }

    /// The value bound to `name`, if any.
    pub fn get(&self, name: &str) -> (r: Option<&V>)
        ensures
            match r {
                Some(v) => self.lookup(name@) == Some(*v),
                None => self.lookup(name@) is None,
            },
    {
        let ghost all = self.entries();
        let mut i: usize = self.entries.len();
        assert(all.take(i as int) =~= all);
        while i > 0
            invariant
                i <= self.entries@.len(),
                all == self.entries(),
                lookup_last(all, name@) == lookup_last(all.take(i as int), name@),
            decreases i,
        {
            let e = &self.entries[i - 1];
            proof {
                assert(all.take(i as int).last() == all[i - 1]);
                assert(all.take(i as int).drop_last() =~= all.take(i - 1));
            }
            if str_eq(e.0.as_str(), name) {
                return Some(&e.1);
            }
            i = i - 1;
        }
        None
    }
}

/// The variables of a process environment, as `std::env::var` reads them.
#[derive(Debug)]
pub struct Environment {
    vars: Bindings<String>,
}

impl Environment {
    /// The value of the variable `name`, if it is set.
    pub closed spec fn var(self, name: Seq<char>) -> Option<Seq<char>> {
        match self.vars.lookup(name) {
            Some(v) => Some(v@),
            None => None,
        }
    }

    /// An environment with no variable set.
    pub fn new() -> (e: Self)
        ensures
            forall|n: Seq<char>| #[trigger] e.var(n) is None,
    {
        Environment { vars: Bindings::new() }
    }

    /// Sets the variable `name` to `value`.
    pub fn set(&mut self, name: &str, value: &str)
        ensures
            forall|n: Seq<char>|
                #[trigger] final(self).var(n) == if n == name@ {
                    Some(value@)
                } else {
                    old(self).var(n)
                },
    {
        self.vars.set(name, String::from_str(value));
    }

    /// The value of the variable `name`, if it is set.
    pub fn get(&self, name: &str) -> (r: Option<&String>)
        ensures
            match r {
                Some(v) => self.var(name@) == Some(v@),
                None => self.var(name@) is None,
            },
    {
        self.vars.get(name)
    }
}

} // verus!
