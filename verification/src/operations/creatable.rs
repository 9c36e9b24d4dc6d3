use crate::entity::Entity;
use crate::statement::Ops;
use crate::statement::Statement;
use vstd::prelude::*;

verus! {

/// Capability corresponding to [`Ops::Insert`].
pub trait Creatable<T> {
    /// Begin an insert session: accepts an entity and returns a `Statement`
    /// tagged `Insert`. Total: every entity value is accepted and no error
    /// path exists.
    fn create(entity: T) -> (s: Statement<T>)
        ensures
            s.ops == Ops::Insert,
    ;
}

/// Blanket rule: every `Entity` type is `Creatable`, with no per-type code.
/// The implementation is keyed on the `Entity` bound alone, so it cannot
/// diverge per concrete type.
impl<T: Entity> Creatable<T> for T {
    fn create(_entity: T) -> (s: Statement<T>) {
        Statement::new(Ops::Insert)
    }
}

} // verus!
