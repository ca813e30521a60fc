//! What can go wrong with a world.
use vstd::prelude::*;

verus! {

/// A mistake in how a world was set up, or a lookup that found nothing.
#[derive(Clone, Copy, Debug, PartialEq, Eq, Structural)]
pub enum WorldError {
    /// The world has no storage for the component type: it was never
    /// registered.
    UnregisteredComponent,
    /// The entity is no entity of the world (any more).
    DeadEntity,
    /// The entity has no component of the type.
    MissingComponent,
    /// The world lacks the clock or a resource that a system fetches: it was
    /// never inserted. `SpecsWorld::missing_resource` tells which.
    MissingResource,
    /// The world has no dispatcher to run.
    NoDispatcher,
}

} // verus!
