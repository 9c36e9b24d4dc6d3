use vstd::prelude::*;

verus! {

/// Marker capability: a domain type declares "I am persistable" by
/// implementing this trait. It carries no operations and no runtime state;
/// its only role is to make the type eligible for every operation-capability
/// trait under `operations`, through their blanket implementations.
pub trait Entity {

}

} // verus!
