use crate::entity::Entity;
use crate::statement::Ops;
use crate::statement::Statement;
use vstd::prelude::*;

verus! {

/// Capability corresponding to [`Ops::Update`].
pub trait Updatable<T> {
    /// Begin an update session: accepts an entity and returns a `Statement`
    /// tagged `Update`. Total: every entity value is accepted and no error
    /// path exists.
    fn update(entity: T) -> (s: Statement<T>)
        ensures
            s.ops == Ops::Update,
    ;
}

/// Blanket rule: every `Entity` type is `Updatable`, with no per-type code.
impl<T: Entity> Updatable<T> for T {
    fn update(_entity: T) -> (s: Statement<T>) {
        Statement::new(Ops::Update)
    }
}

} // verus!
