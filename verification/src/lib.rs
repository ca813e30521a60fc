//! An entity-component-system bridge: a world of entities and typed
//! components, message queues, a schedule of systems, and the protocol that
//! mirrors entities to a presentation layer.
pub mod components;
pub mod convert;
pub mod dispatcher;
pub mod dispatchers;
pub mod ecs;
pub mod entity_node;
pub mod error;
pub mod gd_entity;
pub mod gd_world;
pub mod messages;
pub mod motion;
pub mod registry;
pub mod resources;
pub mod scalar;
pub mod schedule;
mod sealed;
pub mod spawner;
pub mod specs_world;
pub mod systems;
pub mod util;
pub mod value;

pub use components::{
    register_components, AngularVelocity, Color, ComponentInfo, ComponentKind, Counter, Player,
    Position, Rotation, Scale, SetVelocityIntent, ShaderParams, StayInsideBounds, Stored,
    StringContainer, TextureOverride, TreeRelationship, Velocity,
};
pub use dispatcher::{PlannedDispatcher, Scheduled};
pub use dispatchers::{
    example_1_dispatcher, example_2_dispatcher, example_3_dispatcher, example_4_dispatcher,
    example_5_dispatcher, example_6_dispatcher, example_8_dispatcher, hybrid_sync_dispatcher,
    signal_sync_dispatcher, vs_sync_dispatcher,
};
pub use entity_node::{CreateEntityFromComponentInfo, EntityNode2D, EntityRef, EntitySprite};
pub use error::WorldError;
pub use gd_entity::{GDEntity, SyncReport};
pub use gd_world::{components_from, GDWorld, HostNode, SpriteKind, Transform};
pub use messages::{
    BuzzMessage, FizzBuzzMessage, FizzMessage, FizzbuzzInputMessage, FizzbuzzOutputMessage,
    Message, MessageKind, Payload, SideEffect, SideEffectMessage, StringMessage, WorldMsgQueue,
};
pub use motion::{clamp, reflect, velocity_at_bounds, Bounds};
pub use registry::WorldRegistry;
pub use resources::Time;
pub use scalar::Scalar;
pub use schedule::{DispatchPlan, ScheduleError, Step, SystemDecl, SystemId, Target};
pub use systems::{
    count_modifier_1, count_modifier_2, count_modifier_3, count_modifier_4, fizzbuzz_route,
    fizzbuzz_say, fizzbuzz_verdict, FizzbuzzRoute,
};
pub use specs_world::{Inspect, Resource, SpecsWorld};
pub use value::{Description, Entry, Value, Vector2};
pub use util::{ComponentRegistry, CoreComponents, WorldCommand, WorldQuery};
