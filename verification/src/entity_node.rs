//! Entities as nodes of the presentation layer hold them, and the command
//! that makes an entity from a set of components.
use vstd::prelude::*;
use specs::{Entity, World};
use crate::components::{fits_storages, ComponentInfo};
use crate::ecs::{same_resources, same_setup, world_registered, world_rows};
use crate::ecs::world_founded;
use crate::specs_world::{can_hold, founded, spawn};
use crate::util::WorldCommand;
use crate::value::Description;

verus! {

/// A reference to an entity that can be handed to the presentation layer.
#[derive(Clone, Copy, Debug)]
pub struct EntityRef {
    pub entity: Entity,
}

/// A plain node that stands for an entity.
#[derive(Debug)]
pub struct EntityNode2D {
    /// The name of the world that the entity belongs to.
    pub owned_by_world: String,
    /// The description of the entity.
    pub components: Description,
    /// The entity, once it is made and until it is gone.
    pub entity: Option<Entity>,
}

impl EntityNode2D {
    /// A node without a world, a description or an entity.
    pub fn new() -> (node: Self)
        ensures
            node.owned_by_world@.len() == 0,
            node.components@.dom().is_empty(),
            node.entity.is_none(),
    {
        EntityNode2D {
            owned_by_world: String::new(),
            components: Description::new(),
            entity: None,
        }
    }

    /// Whether the node has an entity.
    pub fn has_entity(&self) -> (r: bool)
        ensures
            r == self.entity.is_some(),
    {
        self.entity.is_some()
    }

    /// A reference to the node's entity for the presentation layer; `None`
    /// where the entity is not made yet or is gone.
    pub fn entity(&self) -> (r: Option<EntityRef>)
        ensures
            r.is_some() == self.entity.is_some(),
            r.is_some() ==> r.unwrap().entity == self.entity.unwrap(),
    {
        match self.entity {
            Some(entity) => Some(EntityRef { entity }),
            None => None,
        }
    }
}

/// A sprite that stands for an entity.
#[derive(Debug)]
pub struct EntitySprite {
    /// The description as the editor shows it.
    pub component_settings: Description,
    /// The components that the entity is to be made with.
    pub components: ComponentInfo,
    /// The entity, once it is made and until it is gone.
    pub entity: Option<Entity>,
}

impl EntitySprite {
    /// A sprite without a description, components or an entity.
    pub fn new() -> (sprite: Self)
        ensures
            sprite.component_settings@.dom().is_empty(),
            sprite.components == ComponentInfo::empty_spec(),
            sprite.entity.is_none(),
    {
        EntitySprite {
            component_settings: Description::new(),
            components: ComponentInfo::empty(),
            entity: None,
        }
    }

    /// Whether the sprite has an entity.
    pub fn has_entity(&self) -> (r: bool)
        ensures
            r == self.entity.is_some(),
    {
        self.entity.is_some()
    }

    /// A reference to the sprite's entity for the presentation layer;
    /// `None` where the entity is not made yet or is gone.
    pub fn entity(&self) -> (r: Option<EntityRef>)
        ensures
            r.is_some() == self.entity.is_some(),
            r.is_some() ==> r.unwrap().entity == self.entity.unwrap(),
    {
        match self.entity {
            Some(entity) => Some(EntityRef { entity }),
            None => None,
        }
    }
}

/// The command that makes an entity with exactly the given components.
pub struct CreateEntityFromComponentInfo {}

impl WorldCommand for CreateEntityFromComponentInfo {
    type Args = ComponentInfo;

    type Output = Option<Entity>;

    /// The entity is made with exactly the given components. `None`, and
    /// nothing changes, where the row holds a component of a kind that is
    /// not registered, or where the world does not hold what a world is
    /// founded on; kinds that the row does not hold need no storage.
    open spec fn executes(before: World, info: ComponentInfo, after: World, r: Option<Entity>)
        -> bool {
        &&& r.is_some() == (world_founded(before) && fits_storages(
            info,
            world_registered(before),
        ))
        &&& r.is_none() ==> after == before
        &&& r.is_some() ==> {
            let e = r.unwrap();
            &&& !world_rows(before).contains_key(e)
            &&& world_rows(after) == world_rows(before).insert(e, info)
            &&& same_setup(before, after)
            &&& same_resources(before, after)
        }
    }

    fn execute(world: &mut World, info: ComponentInfo) -> (r: Option<Entity>) {
        if founded(world) && can_hold(world, &info) {
            Some(spawn(world, info))
        } else {
            None
        }
    }
}

} // verus!
