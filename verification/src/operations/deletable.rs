use crate::entity::Entity;
use crate::statement::Ops;
use crate::statement::Statement;
use vstd::prelude::*;

verus! {

/// Capability corresponding to [`Ops::Delete`].
pub trait Deletable<T> {
    /// Begin a delete session: accepts an entity and returns a `Statement`
    /// tagged `Delete`. Total: every entity value is accepted and no error
    /// path exists.
    fn delete(entity: T) -> (s: Statement<T>)
        ensures
            s.ops == Ops::Delete,
    ;
}

/// Blanket rule: every `Entity` type is `Deletable`, with no per-type code.
impl<T: Entity> Deletable<T> for T {
    fn delete(_entity: T) -> (s: Statement<T>) {
        Statement::new(Ops::Delete)
    }
}

} // verus!
