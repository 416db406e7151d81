//! The canonical output of every adapter: a set of subdomain names.

use vstd::prelude::*;
use vstd::string::*;

verus! {

/// The names that occur in `names`, as a set.
pub open spec fn name_set(names: Seq<String>) -> Set<Seq<char>>
    decreases names.len(),
{
    if names.len() == 0 {
        Set::empty()
    } else {
        name_set(names.drop_last()).insert(names.last()@)
    }
}

/// No name occurs twice in `names`.
pub open spec fn all_distinct(names: Seq<String>) -> bool {
    forall|i: int, j: int| 0 <= i < j < names.len() ==> names[i]@ != names[j]@
}

/// A name is in `name_set(names)` exactly if it stands somewhere in `names`.
pub proof fn lemma_name_set_contains(names: Seq<String>, name: Seq<char>)
    ensures
        name_set(names).contains(name) <==> exists|i: int|
            0 <= i < names.len() && #[trigger] names[i]@ == name,
    decreases names.len(),
{
    if names.len() > 0 {
        let front = names.drop_last();
        lemma_name_set_contains(front, name);
        if name_set(names).contains(name) {
            if names.last()@ == name {
                assert(names[names.len() - 1]@ == name);
            } else {
                let i = choose|i: int| 0 <= i < front.len() && #[trigger] front[i]@ == name;
                assert(names[i]@ == name);
            }
        }
        if exists|i: int| 0 <= i < names.len() && #[trigger] names[i]@ == name {
            let i = choose|i: int| 0 <= i < names.len() && #[trigger] names[i]@ == name;
            if i < names.len() - 1 {
                assert(front[i]@ == name);
            }
        }
    }
}

/// `name_set(names)` is finite, and as large as `names` is long where no
/// name occurs twice.
pub proof fn lemma_name_set_len(names: Seq<String>)
    ensures
        name_set(names).finite(),
        name_set(names).len() <= names.len(),
        all_distinct(names) ==> name_set(names).len() == names.len(),
    decreases names.len(),
{
    if names.len() > 0 {
        let front = names.drop_last();
        lemma_name_set_len(front);
        if all_distinct(names) {
            assert(all_distinct(front)) by {
                assert forall|i: int, j: int| 0 <= i < j < front.len() implies front[i]@
                    != front[j]@ by {
                    assert(names[i]@ != names[j]@);
                }
            }
            lemma_name_set_contains(front, names.last()@);
            if name_set(front).contains(names.last()@) {
                let i = choose|i: int|
                    0 <= i < front.len() && #[trigger] front[i]@ == names.last()@;
                assert(names[i]@ != names[names.len() - 1]@);
            }
        }
    }
}

/// A set of subdomain names: each name is held once, in no promised order.
///
/// A value that an adapter returns as a success is never empty.
#[derive(Debug)]
pub struct SubdomainSet {
    names: Vec<String>,
}

impl View for SubdomainSet {
    type V = Set<Seq<char>>;

    closed spec fn view(&self) -> Set<Seq<char>> {
        name_set(self.names@)
    }
}

impl SubdomainSet {
    #[verifier::type_invariant]
    spec fn holds_each_name_once(self) -> bool {
        all_distinct(self.names@)
    }

    /// The set is finite, whatever it holds.
    pub proof fn lemma_finite(&self)
        ensures
            self@.finite(),
    {
        lemma_name_set_len(self.names@);
    }

    /// The empty set.
    pub fn new() -> (set: SubdomainSet)
        ensures
            set@ == Set::<Seq<char>>::empty(),
    {
        SubdomainSet { names: Vec::new() }
    }

    /// The number of names in the set.
    pub fn len(&self) -> (n: usize)
        ensures
            n == self@.len(),
            self@.finite(),
    {
        proof {
            use_type_invariant(self);
            lemma_name_set_len(self.names@);
        }
        self.names.len()
    }

    /// Whether the set holds no name.
    pub fn is_empty(&self) -> (empty: bool)
        ensures
            empty == (self@ == Set::<Seq<char>>::empty()),
            empty == (self@.len() == 0),
    {
        proof {
            use_type_invariant(self);
            lemma_name_set_len(self.names@);
            if self.names@.len() > 0 {
                assert(self@.contains(self.names@.last()@));
            }
        }
        self.names.len() == 0
    }

    /// Whether `name` is in the set.
    pub fn contains(&self, name: &str) -> (found: bool)
        ensures
            found == self@.contains(name@),
    {
        let wanted = name.to_owned();
        let mut i: usize = 0;
        while i < self.names.len()
            invariant
                i <= self.names.len(),
                wanted@ == name@,
                forall|k: int| 0 <= k < i ==> self.names@[k]@ != name@,
            decreases self.names.len() - i,
        {
            if self.names[i] == wanted {
                proof {
                    lemma_name_set_contains(self.names@, name@);
                }
                return true;
            }
            i = i + 1;
        }
        proof {
            lemma_name_set_contains(self.names@, name@);
        }
        false
    }

    /// Adds `name` to the set. Returns whether it was new to the set.
    pub fn insert(&mut self, name: String) -> (fresh: bool)
        ensures
            final(self)@ == old(self)@.insert(name@),
            fresh == !old(self)@.contains(name@),
    {
        proof {
            use_type_invariant(&*self);
        }
        if self.contains(name.as_str()) {
            assert(self@.insert(name@) =~= self@);
            false
        } else {
            let ghost before = self.names@;
            proof {
                lemma_name_set_contains(before, name@);
                assert(before.push(name).drop_last() =~= before);
                assert(all_distinct(before.push(name)));
            }
            let mut names: Vec<String> = Vec::new();
            std::mem::swap(&mut names, &mut self.names);
            names.push(name);
            self.names = names;
            true
        }
    }

    /// The names of the set, each once.
    pub fn into_vec(self) -> (names: Vec<String>)
        ensures
            all_distinct(names@),
            name_set(names@) == self@,
    {
        proof {
            use_type_invariant(&self);
        }
        self.names
    }
}

/// What every source's decoded answer can do: yield the subdomain names it
/// holds.
///
/// Yielding names reads the answer and nothing else, and cannot fail: an
/// answer without data yields the empty set. Whether an empty set is an
/// error is for the adapter to say.
pub trait IntoSubdomain {
    /// The names that the answer holds.
    spec fn names(&self) -> Set<Seq<char>>;

    /// The set of names that the answer holds.
    fn subdomains(&self) -> (found: SubdomainSet)
        ensures
            found@ == self.names(),
    ;
}

/// The names of the items of `items`, where `name_of` gives the name of an
/// item.
pub open spec fn names_among<T>(items: Seq<T>, name_of: spec_fn(T) -> Seq<char>) -> Set<
    Seq<char>,
> {
    Set::new(
        |name: Seq<char>|
            exists|i: int| 0 <= i < items.len() && name_of(#[trigger] items[i]) == name,
    )
}

/// Taking one more item of `items` adds that item's name to the names.
pub proof fn lemma_names_among_step<T>(items: Seq<T>, name_of: spec_fn(T) -> Seq<char>, i: int)
    requires
        0 <= i < items.len(),
    ensures
        names_among(items.take(i + 1), name_of) == names_among(items.take(i), name_of).insert(
            name_of(items[i]),
        ),
{
    let more = items.take(i + 1);
    let fewer = items.take(i);
    assert forall|name: Seq<char>|
        names_among(more, name_of).contains(name) <==> names_among(fewer, name_of).insert(
            name_of(items[i]),
        ).contains(name) by {
        if names_among(more, name_of).contains(name) {
            let k = choose|k: int| 0 <= k < more.len() && name_of(#[trigger] more[k]) == name;
            if k < i {
                assert(name_of(fewer[k]) == name);
            }
        }
        if names_among(fewer, name_of).contains(name) {
            let k = choose|k: int| 0 <= k < fewer.len() && name_of(#[trigger] fewer[k]) == name;
            assert(name_of(more[k]) == name);
        }
        if name == name_of(items[i]) {
            assert(name_of(more[i]) == name);
        }
    }
    assert(names_among(more, name_of) =~= names_among(fewer, name_of).insert(name_of(items[i])));
}

} // verus!
