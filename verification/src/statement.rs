use core::marker::PhantomData;
use vstd::prelude::*;

verus! {

/// The kind of pending operation a [`Statement`] represents: a closed set of
/// mutually exclusive tags with no ordering semantics, compared by equality
/// only.
#[derive(Clone, Copy, Debug, PartialEq, Eq, Structural)]
pub enum Ops {
    Insert,
    Update,
    Delete,
    Query,
}

/// One pending database operation over entity type `T`, not yet executed.
/// It carries the chosen operation kind in `ops`; the type parameter binds
/// the statement to its entity type, so a statement built for one entity
/// type cannot be handed to an executor expecting another. A `Statement` is
/// a plain value: immutable after construction, owned exclusively by its
/// caller.
pub struct Statement<T> {
    /// Which kind of operation this statement represents; an execution
    /// collaborator dispatches on this tag.
    pub ops: Ops,
    /// Zero-sized marker binding the statement to its entity type.
    pub entity: PhantomData<T>,
}

impl<T> Statement<T> {
    /// Pure constructor: accepts any operation kind, performs no validation,
    /// and always succeeds.
    pub fn new(ops: Ops) -> (s: Statement<T>)
        ensures
            s.ops == ops,
    {
        Statement { ops, entity: PhantomData }
    }
}

/// Two statements built from the same operation kind agree on their kind
/// tag: the constructor is deterministic in what `ops` it records, so calling
/// it twice with equal arguments yields statements equal on the `ops` field.
pub proof fn lemma_new_ops_agree<T>(s1: Statement<T>, s2: Statement<T>, ops: Ops)
    requires
        s1.ops == ops,
        s2.ops == ops,
    ensures
        s1.ops == s2.ops,
{
}

} // verus!
