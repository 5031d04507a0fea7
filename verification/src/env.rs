//! Environment variables handed to a child process.

use vstd::prelude::*;

verus! {

/// The map a list of bindings stands for: a later binding of a name shadows
/// an earlier one.
pub open spec fn bindings_map(b: Seq<(Seq<char>, Seq<char>)>) -> Map<Seq<char>, Seq<char>>
    decreases b.len(),
{
    if b.len() == 0 {
        Map::empty()
    } else {
        bindings_map(b.drop_last()).insert(b.last().0, b.last().1)
    }
}

/// The value the last binding of `name` gives it, if there is one.
pub open spec fn lookup(b: Seq<(Seq<char>, Seq<char>)>, name: Seq<char>) -> Option<Seq<char>>
    decreases b.len(),
{
    if b.len() == 0 {
        None
    } else if b.last().0 == name {
        Some(b.last().1)
    } else {
        lookup(b.drop_last(), name)
    }
}

/// The map binds a name exactly if a binding names it, to the value of the
/// last such binding.
pub proof fn lemma_map_is_lookup(b: Seq<(Seq<char>, Seq<char>)>, name: Seq<char>)
    ensures
        bindings_map(b).dom().contains(name) <==> lookup(b, name) is Some,
        lookup(b, name) is Some ==> bindings_map(b)[name] == lookup(b, name)->0,
    decreases b.len(),
{
    if b.len() > 0 {
        lemma_map_is_lookup(b.drop_last(), name);
    }
}

/// A name that is looked up with success is named by some binding.
pub proof fn lemma_lookup_has_binding(b: Seq<(Seq<char>, Seq<char>)>, name: Seq<char>) -> (i: int)
    requires
        lookup(b, name) is Some,
    ensures
        0 <= i < b.len(),
        b[i].0 == name,
    decreases b.len(),
{
    if b.last().0 == name {
        b.len() - 1
    } else {
        lemma_lookup_has_binding(b.drop_last(), name)
    }
}

/// A name that some binding names is looked up with success.
pub proof fn lemma_bound_when_named(b: Seq<(Seq<char>, Seq<char>)>, name: Seq<char>, i: int)
    requires
        0 <= i < b.len(),
        b[i].0 == name,
    ensures
        lookup(b, name) is Some,
    decreases b.len(),
{
    if b.last().0 != name {
        lemma_bound_when_named(b.drop_last(), name, i);
    }
}

/// What a stored binding stands for.
pub open spec fn pair_view(e: (String, String)) -> (Seq<char>, Seq<char>) {
    (e.0@, e.1@)
}

/// What a list of stored bindings stands for.
pub open spec fn pairs_view(v: Seq<(String, String)>) -> Seq<(Seq<char>, Seq<char>)> {
    Seq::new(v.len(), |i: int| pair_view(v[i]))
}

/// Environment variables: names bound to values.
#[derive(Debug, Clone)]
pub struct EnvMap {
    bindings: Vec<(String, String)>,
}

impl EnvMap {
    /// The bindings in the order they were made.
    pub closed spec fn spec_bindings(&self) -> Seq<(Seq<char>, Seq<char>)> {
        pairs_view(self.bindings@)
    }
}

impl View for EnvMap {
    type V = Map<Seq<char>, Seq<char>>;

    open spec fn view(&self) -> Map<Seq<char>, Seq<char>> {
        bindings_map(self.spec_bindings())
    }
}

impl EnvMap {
    /// An environment without variables.
    pub fn new() -> (env: EnvMap)
        ensures
            env@ == Map::<Seq<char>, Seq<char>>::empty(),
            env.spec_bindings().len() == 0,
    {
        EnvMap { bindings: Vec::new() }
    }

    /// Binds `name` to `value`, shadowing what it was bound to.
    pub fn insert(&mut self, name: String, value: String)
        ensures
            final(self)@ == old(self)@.insert(name@, value@),
            final(self).spec_bindings() == old(self).spec_bindings().push((name@, value@)),
    {
        let ghost before = self.spec_bindings();
        let ghost pair = (name@, value@);
        self.bindings.push((name, value));
        proof {
            assert(self.spec_bindings() =~= before.push(pair));
            assert(self.spec_bindings().drop_last() =~= before);
        }
    }

    /// Makes every binding of `other`, in the order they were made there.
    pub fn extend_from(&mut self, other: &EnvMap)
        ensures
            final(self).spec_bindings() == old(self).spec_bindings() + other.spec_bindings(),
    {
        let mut i: usize = 0;
        let n = other.bindings.len();
        assert(self.spec_bindings() =~= old(self).spec_bindings() + other.spec_bindings().take(0));
        while i < n
            invariant
                i <= n,
                n == other.spec_bindings().len(),
                n == other.bindings.len(),
                self.spec_bindings() == old(self).spec_bindings() + other.spec_bindings().take(
                    i as int,
                ),
            decreases n - i,
        {
            let name = other.bindings[i].0.clone();
            let value = other.bindings[i].1.clone();
            assert(other.spec_bindings()[i as int] == (name@, value@));
            self.insert(name, value);
            assert(self.spec_bindings() =~= old(self).spec_bindings()
                + other.spec_bindings().take(i + 1));
            i += 1;
        }
        assert(other.spec_bindings().take(n as int) =~= other.spec_bindings());
    }

    /// Number of bindings made, shadowed ones included.
    pub fn binding_count(&self) -> (n: usize)
        ensures
            n == self.spec_bindings().len(),
    {
        self.bindings.len()
    }

    /// Whether no variable is bound.
    pub fn is_empty(&self) -> (r: bool)
        ensures
            r == (self@ == Map::<Seq<char>, Seq<char>>::empty()),
            r == (self.spec_bindings().len() == 0),
    {
        proof {
            if self.spec_bindings().len() > 0 {
                let last = self.spec_bindings().last();
                assert(self@.dom().contains(last.0));
                assert(!Map::<Seq<char>, Seq<char>>::empty().dom().contains(last.0));
            }
        }
        self.bindings.len() == 0
    }

    /// Name of the binding at position `i`.
    pub fn name_at(&self, i: usize) -> (name: &String)
        requires
            i < self.spec_bindings().len(),
        ensures
            name@ == self.spec_bindings()[i as int].0,
    {
        &self.bindings[i].0
    }

    /// Value of the binding at position `i`.
    pub fn value_at(&self, i: usize) -> (value: &String)
        requires
            i < self.spec_bindings().len(),
        ensures
            value@ == self.spec_bindings()[i as int].1,
    {
        &self.bindings[i].1
    }

    /// The value `name` is bound to, if it is bound.
    pub fn get(&self, name: &String) -> (value: Option<&String>)
        ensures
            value is Some <==> self@.dom().contains(name@),
            value is Some ==> value->0@ == self@[name@],
            value is Some <==> lookup(self.spec_bindings(), name@) is Some,
            value is Some ==> value->0@ == lookup(self.spec_bindings(), name@)->0,
    {
        let mut i: usize = self.bindings.len();
        proof {
            lemma_map_is_lookup(self.spec_bindings(), name@);
            assert(self.spec_bindings().take(i as int) =~= self.spec_bindings());
        }
        while i > 0
            invariant
                i <= self.bindings.len(),
                lookup(self.spec_bindings(), name@) == lookup(
                    self.spec_bindings().take(i as int),
                    name@,
                ),
            decreases i,
        {
            let ghost prefix = self.spec_bindings().take(i as int);
            i -= 1;
            proof {
                assert(prefix.drop_last() =~= self.spec_bindings().take(i as int));
                assert(prefix.last() == pair_view(self.bindings@[i as int]));
            }
            if self.bindings[i].0 == *name {
                proof {
                    lemma_map_is_lookup(self.spec_bindings(), name@);
                }
                return Some(&self.bindings[i].1);
            }
        }
        proof {
            lemma_map_is_lookup(self.spec_bindings(), name@);
        }
        None
    }

    /// Whether every variable bound here is bound to the same value in
    /// `other`.
    fn included_in(&self, other: &EnvMap) -> (r: bool)
        ensures
            r == (forall|name: Seq<char>| #[trigger]
                self@.dom().contains(name) ==> other@.dom().contains(name) && other@[name]
                    == self@[name]),
    {
        let mut i: usize = 0;
        while i < self.bindings.len()
            invariant
                i <= self.bindings.len(),
                forall|j: int|
                    0 <= j < i ==> other@.dom().contains((#[trigger] self.spec_bindings()[j]).0)
                        && other@[self.spec_bindings()[j].0] == self@[self.spec_bindings()[j].0],
            decreases self.bindings.len() - i,
        {
            let name = &self.bindings[i].0;
            let here = self.get(name);
            let there = other.get(name);
            proof {
                assert(self.spec_bindings()[i as int] == pair_view(self.bindings@[i as int]));
            }
            let same = match (here, there) {
                (Some(a), Some(b)) => *a == *b,
                (None, None) => true,
                _ => false,
            };
            if !same {
                proof {
                    lemma_map_is_lookup(self.spec_bindings(), name@);
                    lemma_bound_when_named(self.spec_bindings(), name@, i as int);
                    assert(self@.dom().contains(name@));
                }
                return false;
            }
            proof {
                lemma_map_is_lookup(self.spec_bindings(), name@);
                lemma_bound_when_named(self.spec_bindings(), name@, i as int);
            }
            i += 1;
        }
        proof {
            assert forall|name: Seq<char>| #[trigger]
                self@.dom().contains(name) implies other@.dom().contains(name) && other@[name]
                == self@[name] by {
                lemma_map_is_lookup(self.spec_bindings(), name);
                let j = lemma_lookup_has_binding(self.spec_bindings(), name);
                assert(self.spec_bindings()[j].0 == name);
            }
        }
        true
    }

    /// Equality by value: the same names bound to the same values.
    pub fn same_as(&self, other: &EnvMap) -> (r: bool)
        ensures
            r == (self@ == other@),
    {
        let forth = self.included_in(other);
        let back = other.included_in(self);
        proof {
            if forth && back {
                assert(self@ =~= other@);
            }
        }
        forth && back
    }

    /// A copy with the same bindings in the same order.
    pub fn duplicate(&self) -> (r: EnvMap)
        ensures
            r@ == self@,
            r.spec_bindings() == self.spec_bindings(),
    {
        let mut bindings: Vec<(String, String)> = Vec::new();
        let mut i: usize = 0;
        while i < self.bindings.len()
            invariant
                i <= self.bindings.len(),
                bindings.len() == i,
                pairs_view(bindings@) == self.spec_bindings().take(i as int),
            decreases self.bindings.len() - i,
        {
            let name = self.bindings[i].0.clone();
            let value = self.bindings[i].1.clone();
            assert(name@ == self.bindings@[i as int].0@);
            assert(value@ == self.bindings@[i as int].1@);
            bindings.push((name, value));
            proof {
                assert(pairs_view(bindings@)[i as int] == pair_view(bindings@[i as int]));
                assert(pairs_view(bindings@) =~= self.spec_bindings().take(i + 1));
            }
            i += 1;
        }
        proof {
            assert(self.spec_bindings().take(self.bindings.len() as int) =~= self.spec_bindings());
        }
        EnvMap { bindings }
    }
}

} // verus!
