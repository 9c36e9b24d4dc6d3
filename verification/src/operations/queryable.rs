use crate::entity::Entity;
use crate::statement::Ops;
use crate::statement::Statement;
use vstd::prelude::*;

verus! {

/// Capability corresponding to [`Ops::Query`].
pub trait Queryable<T> {
    /// Begin a query session: returns a `Statement` tagged `Query`. A query
    /// selects rows rather than writing one, so no entity value is taken.
    /// Total: no error path exists.
    fn query() -> (s: Statement<T>)
        ensures
            s.ops == Ops::Query,
    ;
}

/// Blanket rule: every `Entity` type is `Queryable`, with no per-type code.
impl<T: Entity> Queryable<T> for T {
    fn query() -> (s: Statement<T>) {
        Statement::new(Ops::Query)
    }
}

} // verus!
