use indexmap::IndexSet;
use vstd::prelude::*;

use crate::error::RegisterError;

verus! {

#[verifier::external_type_specification]
#[verifier::external_body]
#[verifier::reject_recursive_types(T)]
#[verifier::reject_recursive_types(S)]
pub struct ExIndexSet<T, S>(IndexSet<T, S>);

/// The names held by an `IndexSet`, in insertion order.
pub uninterp spec fn set_names(s: IndexSet<String>) -> Seq<Seq<char>>;

/// Relies on `IndexSet::new`: a new set holds nothing.
#[verifier::external_body]
fn names_new() -> (r: IndexSet<String>)
    ensures
        set_names(r) == Seq::<Seq<char>>::empty(),
{
    IndexSet::new()
}

/// Relies on `IndexSet::len`: the number of names held.
#[verifier::external_body]
fn names_len(s: &IndexSet<String>) -> (r: usize)
    ensures
        r == set_names(*s).len(),
{
    s.len()
}

/// Relies on `IndexSet::contains`: whether an equal name is held.
#[verifier::external_body]
fn names_contains(s: &IndexSet<String>, name: &str) -> (r: bool)
    ensures
        r == set_names(*s).contains(name@),
{
    s.contains(name)
}

/// Relies on `IndexSet::insert`: a name not yet held is appended at the end
/// and `true` returned; an equal name leaves the set as it was and gives `false`.
#[verifier::external_body]
fn names_insert(s: &mut IndexSet<String>, name: String) -> (r: bool)
    ensures
        r == !set_names(*old(s)).contains(name@),
        set_names(*final(s)) == if r {
            set_names(*old(s)).push(name@)
        } else {
            set_names(*old(s))
        },
{
    s.insert(name)
}

/// Relies on `IndexSet::get_index`: the name at a position below the length.
#[verifier::external_body]
fn names_get(s: &IndexSet<String>, index: usize) -> (r: Option<&String>)
    ensures
        index < set_names(*s).len() ==> r is Some && r->Some_0@ == set_names(*s)[index as int],
        index >= set_names(*s).len() ==> r is None,
{
    s.get_index(index)
}

/// Stages registered under unique names, in registration order, each with the
/// handle `H` that the caller keeps for it.
pub struct StageRegistry<H> {
    names: IndexSet<String>,
    stages: Vec<H>,
}

impl<H> StageRegistry<H> {
    /// The registered names, in registration order.
    pub closed spec fn names(&self) -> Seq<Seq<char>> {
        set_names(self.names)
    }

    /// The handles, at the positions of their names.
    pub closed spec fn stages(&self) -> Seq<H> {
        self.stages@
    }

    /// Every name has one handle, and no name occurs twice.
    pub closed spec fn wf(&self) -> bool {
        &&& self.names().len() == self.stages().len()
        &&& self.names().no_duplicates()
    }

    /// An empty registry.
    pub fn new() -> (r: Self)
        ensures
            r.wf(),
            r.names() == Seq::<Seq<char>>::empty(),
            r.stages() == Seq::<H>::empty(),
    {
        StageRegistry { names: names_new(), stages: Vec::new() }
    }

    /// The number of registered stages.
    pub fn len(&self) -> (r: usize)
        requires
            self.wf(),
        ensures
            r == self.names().len(),
    {
        names_len(&self.names)
    }

    /// Whether no stage is registered.
    pub fn is_empty(&self) -> (r: bool)
        requires
            self.wf(),
        ensures
            r == (self.names().len() == 0),
    {
        names_len(&self.names) == 0
    }

    /// Whether a stage of this name is registered.
    pub fn contains(&self, name: &str) -> (r: bool)
        requires
            self.wf(),
        ensures
            r == self.names().contains(name@),
    {
        names_contains(&self.names, name)
    }

    /// Registers `stage` under `name` at the end of the order. A name that is
    /// already registered is refused and leaves the registry as it was.
    pub fn register(&mut self, name: String, stage: H) -> (r: Result<(), RegisterError>)
        requires
            old(self).wf(),
        ensures
            final(self).wf(),
            old(self).names().contains(name@) <==> r is Err,
            r matches Err(RegisterError::DuplicateName(n)) ==> n@ == name@,
            r is Err ==> final(self).names() == old(self).names()
                && final(self).stages() == old(self).stages(),
            r is Ok ==> final(self).names() == old(self).names().push(name@)
                && final(self).stages() == old(self).stages().push(stage),
    {
        if names_contains(&self.names, name.as_str()) {
            return Err(RegisterError::DuplicateName(name));
        }
        let inserted = names_insert(&mut self.names, name);
        assert(inserted);
        self.stages.push(stage);
        Ok(())
    }

    /// The handle of the stage at position `index`.
    pub fn stage(&self, index: usize) -> (r: &H)
        requires
            self.wf(),
            index < self.names().len(),
        ensures
            *r == self.stages()[index as int],
    {
        &self.stages[index]
    }

    /// Hands out the names and the handles, position for position, in
    /// registration order.
    pub fn into_parts(self) -> (r: (Vec<String>, Vec<H>))
        requires
            self.wf(),
        ensures
            r.0@.len() == self.names().len(),
            forall|i: int| 0 <= i < r.0@.len() ==> #[trigger] r.0@[i]@ == self.names()[i],
            r.1@ == self.stages(),
    {
        let n = names_len(&self.names);
        let mut out: Vec<String> = Vec::new();
        let mut i: usize = 0;
        while i < n
            invariant
                n == self.names().len(),
                i <= n,
                out@.len() == i,
                forall|j: int| 0 <= j < i ==> #[trigger] out@[j]@ == self.names()[j],
            decreases n - i,
        {
            match names_get(&self.names, i) {
                Some(name) => out.push(name.clone()),
                None => {},
            }
            i = i + 1;
        }
        (out, self.stages)
    }
}

} // verus!
