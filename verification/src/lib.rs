//! A generic, type-safe statement-builder core for an object-entity mapping
//! layer: a domain type opts into persistence by declaring the [`Entity`]
//! capability, and the capability traits ([`Creatable`], [`Updatable`],
//! [`Deletable`], [`Queryable`]) then build a pending [`Statement`] tagged
//! with the matching [`Ops`] kind. Execution of a statement belongs to an
//! external collaborator and is out of scope here.

use vstd::prelude::*;

pub mod entity;
pub mod operations;
pub mod statement;

pub use crate::entity::Entity;
pub use crate::operations::creatable::Creatable;
pub use crate::operations::deletable::Deletable;
pub use crate::operations::queryable::Queryable;
pub use crate::operations::updatable::Updatable;
pub use crate::statement::Ops;
pub use crate::statement::Statement;

verus! {

/// The blanket-implementation law: the `Entity` capability alone grants every
/// operation capability. This function is generic over any `T: Entity` and
/// nothing more, yet it builds one statement of each kind through the
/// capability traits, each carrying the kind's own tag; no per-type code is
/// involved.
pub fn statements_of_entity<T: Entity>(a: T, b: T, c: T) -> (r: (
    Statement<T>,
    Statement<T>,
    Statement<T>,
    Statement<T>,
))
    ensures
        r.0.ops == Ops::Insert,
        r.1.ops == Ops::Update,
        r.2.ops == Ops::Delete,
        r.3.ops == Ops::Query,
{
    (T::create(a), T::update(b), T::delete(c), T::query())
}

} // verus!
