//! Traits through which users hand their own code to a world.
use vstd::prelude::*;
use specs::World;
use crate::components::{core_kinds, register_components};
use crate::components::same_setup_but_storages;
use crate::ecs::{same_resources, world_registered, world_rows};

verus! {

/// Registers the component types that a world needs.
///
/// What an implementation makes of the world is its own affair. It says so
/// in `registers`; one that says nothing promises nothing.
pub trait ComponentRegistry {
    /// What `register` makes of a world: how the world after it relates to
    /// the world before.
    open spec fn registers(before: World, after: World) -> bool {
        true
    }

    fn register(world: &mut World)
        ensures
            Self::registers(*old(world), *final(world)),
    ;
}

/// A command: code that may change the world, with arguments and a result
/// of its own.
///
/// What an implementation does is its own affair. It says so in `executes`;
/// one that says nothing promises nothing.
pub trait WorldCommand {
    type Args;

    type Output;

    /// What `execute` makes of a world and its arguments: how the world
    /// after it and the result relate to the world before.
    open spec fn executes(before: World, args: Self::Args, after: World, output: Self::Output)
        -> bool {
        true
    }

    fn execute(world: &mut World, args: Self::Args) -> (output: Self::Output)
        ensures
            Self::executes(*old(world), args, *final(world), output),
    ;
}

/// A query: code that reads the world, with arguments and a result of its
/// own.
///
/// What an implementation answers is its own affair. It says so in
/// `answers`; one that says nothing promises nothing.
pub trait WorldQuery {
    type Args;

    type Output;

    /// What `query` answers for a world and its arguments.
    open spec fn answers(world: World, args: Self::Args, output: Self::Output) -> bool {
        true
    }

    fn query(world: &World, args: Self::Args) -> (output: Self::Output)
        ensures
            Self::answers(*world, args, output),
    ;
}

/// The registry of the component types that this library defines.
pub struct CoreComponents;

impl ComponentRegistry for CoreComponents {
    /// Every component kind of the library is registered, beside those that
    /// were; entities, rows and resources are as they were.
    open spec fn registers(before: World, after: World) -> bool {
        &&& world_registered(after) == world_registered(before).union(core_kinds())
        &&& world_rows(after) == world_rows(before)
        &&& same_setup_but_storages(before, after)
        &&& same_resources(before, after)
    }

    fn register(world: &mut World) {
        register_components(world);
    }
}

} // verus!
