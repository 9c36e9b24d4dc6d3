//! The operation-capability trait family: one trait per [`crate::Ops`]
//! variant, each exposing a single factory that maps an entity value to a
//! [`crate::Statement`] tagged with that variant. Each trait is implemented
//! once, generically, for every type with the [`crate::Entity`] capability.

pub mod creatable;
pub mod deletable;
pub mod queryable;
pub mod updatable;
