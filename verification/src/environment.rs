//! The variables of one procedure activation.

use vstd::prelude::*;
use crate::analysis::Analysis;

verus! {

/// A flat mapping from variable names to what is known of their values.
/// There is one per procedure; blocks do not open scopes of their own, so a
/// variable declared in a nested block stays visible to the end of the
/// procedure, and declaring a name again overwrites it.
pub struct Environment {
    /// The first binding of a name is the one in force.
    bindings: Vec<(String, Analysis)>,
}

/// The value of the first binding of `name`, if there is one.
spec fn lookup(bindings: Seq<(String, Analysis)>, name: Seq<char>) -> Option<Analysis>
    decreases bindings.len(),
{
    if bindings.len() == 0 {
        None
    } else if bindings[0].0@ == name {
        Some(bindings[0].1)
    } else {
        lookup(bindings.drop_first(), name)
    }
}

proof fn lemma_lookup_miss(bindings: Seq<(String, Analysis)>, name: Seq<char>)
    requires
        forall|j: int| 0 <= j < bindings.len() ==> (#[trigger] bindings[j]).0@ != name,
    ensures
        lookup(bindings, name) is None,
    decreases bindings.len(),
{
    if bindings.len() > 0 {
        assert(bindings[0].0@ != name);
        let rest = bindings.drop_first();
        assert forall|j: int| 0 <= j < rest.len() implies (#[trigger] rest[j]).0@ != name by {
            assert(rest[j] == bindings[j + 1]);
        }
        lemma_lookup_miss(rest, name);
    }
}

proof fn lemma_lookup_hit(bindings: Seq<(String, Analysis)>, name: Seq<char>, i: int)
    requires
        0 <= i < bindings.len(),
        bindings[i].0@ == name,
        forall|j: int| 0 <= j < i ==> (#[trigger] bindings[j]).0@ != name,
    ensures
        lookup(bindings, name) == Some(bindings[i].1),
    decreases i,
{
    if i > 0 {
        assert(bindings[0].0@ != name);
        let rest = bindings.drop_first();
        assert(rest[i - 1] == bindings[i]);
        assert forall|j: int| 0 <= j < i - 1 implies (#[trigger] rest[j]).0@ != name by {
            assert(rest[j] == bindings[j + 1]);
        }
        lemma_lookup_hit(rest, name, i - 1);
    }
}

proof fn lemma_lookup_update(
    bindings: Seq<(String, Analysis)>,
    i: int,
    entry: (String, Analysis),
    name: Seq<char>,
)
    requires
        0 <= i < bindings.len(),
        bindings[i].0@ == entry.0@,
        forall|j: int| 0 <= j < i ==> (#[trigger] bindings[j]).0@ != entry.0@,
    ensures
        lookup(bindings.update(i, entry), name) == if name == entry.0@ {
            Some(entry.1)
        } else {
            lookup(bindings, name)
        },
    decreases i,
{
    let updated = bindings.update(i, entry);
    if i == 0 {
        assert(updated.drop_first() =~= bindings.drop_first());
    } else {
        assert(bindings[0].0@ != entry.0@);
        assert(updated[0] == bindings[0]);
        let rest = bindings.drop_first();
        assert(rest[i - 1] == bindings[i]);
        assert forall|j: int| 0 <= j < i - 1 implies (#[trigger] rest[j]).0@ != entry.0@ by {
            assert(rest[j] == bindings[j + 1]);
        }
        assert(updated.drop_first() =~= rest.update(i - 1, entry));
        lemma_lookup_update(rest, i - 1, entry, name);
    }
}

proof fn lemma_lookup_push(
    bindings: Seq<(String, Analysis)>,
    entry: (String, Analysis),
    name: Seq<char>,
)
    ensures
        lookup(bindings.push(entry), name) == match lookup(bindings, name) {
            Some(found) => Some(found),
            None => if name == entry.0@ {
                Some(entry.1)
            } else {
                None
            },
        },
    decreases bindings.len(),
{
    let pushed = bindings.push(entry);
    if bindings.len() == 0 {
        assert(pushed.drop_first().len() == 0);
        assert(lookup(pushed.drop_first(), name) is None);
    } else {
        assert(pushed[0] == bindings[0]);
        assert(pushed.drop_first() =~= bindings.drop_first().push(entry));
        lemma_lookup_push(bindings.drop_first(), entry, name);
    }
}

impl View for Environment {
    type V = Map<Seq<char>, Analysis>;

    /// The variables that are bound, each with its value.
    closed spec fn view(&self) -> Map<Seq<char>, Analysis> {
        Map::new(
            |name: Seq<char>| lookup(self.bindings@, name) is Some,
            |name: Seq<char>| lookup(self.bindings@, name).unwrap(),
        )
    }
}

impl Environment {
    /// An environment that binds nothing.
    pub fn new() -> (env: Environment)
        ensures
            env@ == Map::<Seq<char>, Analysis>::empty(),
    {
        let env = Environment { bindings: Vec::new() };
        assert(env@ =~= Map::<Seq<char>, Analysis>::empty());
        env
    }

    /// The position of the first binding of `name`.
    fn position(&self, name: &String) -> (found: Option<usize>)
        ensures
            match found {
                Some(i) => {
                    &&& i < self.bindings@.len()
                    &&& self.bindings@[i as int].0@ == name@
                    &&& forall|j: int| 0 <= j < i ==> (#[trigger] self.bindings@[j]).0@ != name@
                },
                None => forall|j: int|
                    0 <= j < self.bindings@.len() ==> (#[trigger] self.bindings@[j]).0@ != name@,
            },
    {
        let mut i: usize = 0;
        while i < self.bindings.len()
            invariant
                i <= self.bindings@.len(),
                forall|j: int| 0 <= j < i ==> (#[trigger] self.bindings@[j]).0@ != name@,
            decreases self.bindings@.len() - i,
        {
            if self.bindings[i].0 == *name {
                return Some(i);
            }
            i += 1;
        }
        None
    }

    /// Binds `name` to `value`, in place of what it was bound to before.
    pub fn insert(&mut self, name: String, value: Analysis)
        ensures
            final(self)@ == old(self)@.insert(name@, value),
    {
        let ghost before = self.bindings@;
        let ghost entry = (name, value);
        match self.position(&name) {
            Some(i) => {
                self.bindings.set(i, (name, value));
                assert forall|key: Seq<char>|
                    lookup(self.bindings@, key) == if key == entry.0@ {
                        Some(entry.1)
                    } else {
                        lookup(before, key)
                    } by {
                    lemma_lookup_update(before, i as int, entry, key);
                }
            },
            None => {
                self.bindings.push((name, value));
                assert forall|key: Seq<char>|
                    lookup(self.bindings@, key) == if key == entry.0@ {
                        Some(entry.1)
                    } else {
                        lookup(before, key)
                    } by {
                    lemma_lookup_push(before, entry, key);
                    lemma_lookup_miss(before, entry.0@);
                }
            },
        }
        assert(self@ =~= old(self)@.insert(name@, value));
    }

    /// What `name` is bound to, if it is bound.
    pub fn get(&self, name: &String) -> (found: Option<&Analysis>)
        ensures
            match found {
                Some(value) => self@.contains_key(name@) && *value == self@[name@],
                None => !self@.contains_key(name@),
            },
    {
        match self.position(name) {
            Some(i) => {
                proof {
                    lemma_lookup_hit(self.bindings@, name@, i as int);
                }
                Some(&self.bindings[i].1)
            },
            None => {
                proof {
                    lemma_lookup_miss(self.bindings@, name@);
                }
                None
            },
        }
    }
}

} // verus!
