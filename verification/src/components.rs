//! The component types of the engine, and the row of components that one
//! entity holds.
use vstd::prelude::*;
use specs::World;
use crate::ecs::{same_resources, world_registered, world_rows};
use crate::scalar::Scalar;

verus! {

/// Where an entity is in 2D space.
#[derive(Clone, Copy, Debug, PartialEq, Eq, Structural)]
pub struct Position {
    pub x: Scalar,
    pub y: Scalar,
}

/// How fast an entity's position changes.
#[derive(Clone, Copy, Debug, PartialEq, Eq, Structural)]
pub struct Velocity {
    pub x: Scalar,
    pub y: Scalar,
}

/// How fast an entity's rotation changes.
#[derive(Clone, Copy, Debug, PartialEq, Eq, Structural)]
pub struct AngularVelocity {
    pub radians: Scalar,
}

/// The angle by which an entity is turned.
#[derive(Clone, Copy, Debug, PartialEq, Eq, Structural)]
pub struct Rotation {
    pub radians: Scalar,
}

/// The factor by which an entity is stretched along each axis.
#[derive(Clone, Copy, Debug, PartialEq, Eq, Structural)]
pub struct Scale {
    pub x: Scalar,
    pub y: Scalar,
}

/// The wish of an entity to take a new velocity at once.
#[derive(Clone, Copy, Debug, PartialEq, Eq, Structural)]
pub struct SetVelocityIntent {
    pub x: Scalar,
    pub y: Scalar,
}

/// Marks the entities that must stay inside the bounding box when they move.
#[derive(Clone, Copy, Debug, Default, PartialEq, Eq, Structural)]
pub struct StayInsideBounds;

/// Marks the entities that the player steers.
#[derive(Clone, Copy, Debug, Default, PartialEq, Eq, Structural)]
pub struct Player;

/// A number that systems count up and down.
#[derive(Clone, Copy, Debug, PartialEq, Eq, Structural)]
pub struct Counter(pub i32);

/// A colour by its four channels.
#[derive(Clone, Copy, Debug, PartialEq, Eq, Structural)]
pub struct Color {
    pub r: Scalar,
    pub g: Scalar,
    pub b: Scalar,
    pub a: Scalar,
}

/// The foreground and background colours handed to an entity's shader.
#[derive(Clone, Copy, Debug, PartialEq, Eq, Structural)]
pub struct ShaderParams {
    pub fg: Color,
    pub bg: Color,
}

/// A texture that replaces the one the presentation layer would draw,
/// named by the identifier under which the presentation layer knows it.
#[derive(Clone, Copy, Debug, PartialEq, Eq, Structural)]
pub struct TextureOverride {
    pub texture: i64,
}

/// A place in a tree of entities: an optional parent and the children in
/// order. The references are weak: nothing follows from them for the life
/// of the entities they name.
#[derive(Clone, Debug, Default, PartialEq, Eq)]
pub struct TreeRelationship {
    pub parent: Option<specs::Entity>,
    pub children: Vec<specs::Entity>,
}

/// A piece of text attached to an entity.
#[derive(Clone, Debug, Default, PartialEq, Eq)]
pub struct StringContainer {
    pub message: String,
}

/// The component types, as values.
#[derive(Clone, Copy, Debug, PartialEq, Eq, Structural)]
pub enum ComponentKind {
    Position,
    Rotation,
    Scale,
    Velocity,
    AngularVelocity,
    SetVelocityIntent,
    StayInsideBounds,
    Player,
    Counter,
    ShaderParams,
    TextureOverride,
    TreeRelationship,
    StringContainer,
}

/// Every component kind of this library.
pub open spec fn core_kinds() -> Set<ComponentKind> {
    Set::new(|k: ComponentKind| true)
}

/// Registers every component kind of this library with a world. A kind
/// that is registered stays as it is; entities, rows and resources are not
/// touched.
pub fn register_components(world: &mut World)
    ensures
        world_registered(*final(world)) == world_registered(*old(world)).union(core_kinds()),
        core_kinds().subset_of(world_registered(*final(world))),
        world_rows(*final(world)) == world_rows(*old(world)),
        same_setup_but_storages(*old(world), *final(world)),
        same_resources(*old(world), *final(world)),
{
    crate::ecs::world_register_position(world);
    crate::ecs::world_register_rotation(world);
    crate::ecs::world_register_scale(world);
    crate::ecs::world_register_velocity(world);
    crate::ecs::world_register_angular_velocity(world);
    crate::ecs::world_register_set_velocity_intent(world);
    crate::ecs::world_register_stay_inside_bounds(world);
    crate::ecs::world_register_player(world);
    crate::ecs::world_register_counter(world);
    crate::ecs::world_register_shader_params(world);
    crate::ecs::world_register_texture_override(world);
    crate::ecs::world_register_tree_relationship(world);
    crate::ecs::world_register_string_container(world);
    proof {
        lemma_core_kinds();
        assert(world_registered(*world) =~= world_registered(*old(world)).union(core_kinds()));
        assert forall|k: crate::messages::MessageKind|
            crate::ecs::world_mail(*old(world), k) == crate::ecs::world_mail(*world, k) by {}
    }
}

/// The kinds of the library, one by one.
pub proof fn lemma_core_kinds()
    ensures
        core_kinds() == Set::<ComponentKind>::empty().insert(ComponentKind::Position).insert(ComponentKind::Rotation).insert(ComponentKind::Scale).insert(ComponentKind::Velocity).insert(ComponentKind::AngularVelocity).insert(ComponentKind::SetVelocityIntent).insert(ComponentKind::StayInsideBounds).insert(ComponentKind::Player).insert(ComponentKind::Counter).insert(ComponentKind::ShaderParams).insert(ComponentKind::TextureOverride).insert(ComponentKind::TreeRelationship).insert(ComponentKind::StringContainer),
{
    assert forall|k: ComponentKind| #[trigger] core_kinds().contains(k) <==> Set::<
        ComponentKind,
    >::empty().insert(ComponentKind::Position).insert(ComponentKind::Rotation).insert(ComponentKind::Scale).insert(ComponentKind::Velocity).insert(ComponentKind::AngularVelocity).insert(ComponentKind::SetVelocityIntent).insert(ComponentKind::StayInsideBounds).insert(ComponentKind::Player).insert(ComponentKind::Counter).insert(ComponentKind::ShaderParams).insert(ComponentKind::TextureOverride).insert(ComponentKind::TreeRelationship).insert(ComponentKind::StringContainer).contains(k) by {
        match k {
            ComponentKind::Position => {},
            ComponentKind::Rotation => {},
            ComponentKind::Scale => {},
            ComponentKind::Velocity => {},
            ComponentKind::AngularVelocity => {},
            ComponentKind::SetVelocityIntent => {},
            ComponentKind::StayInsideBounds => {},
            ComponentKind::Player => {},
            ComponentKind::Counter => {},
            ComponentKind::ShaderParams => {},
            ComponentKind::TextureOverride => {},
            ComponentKind::TreeRelationship => {},
            ComponentKind::StringContainer => {},
        }
    }
    assert(core_kinds() =~= Set::<ComponentKind>::empty().insert(ComponentKind::Position).insert(ComponentKind::Rotation).insert(ComponentKind::Scale).insert(ComponentKind::Velocity).insert(ComponentKind::AngularVelocity).insert(ComponentKind::SetVelocityIntent).insert(ComponentKind::StayInsideBounds).insert(ComponentKind::Player).insert(ComponentKind::Counter).insert(ComponentKind::ShaderParams).insert(ComponentKind::TextureOverride).insert(ComponentKind::TreeRelationship).insert(ComponentKind::StringContainer));
}

/// Whether there is a storage for each component that a row holds.
pub open spec fn fits_storages(info: ComponentInfo, registered: Set<ComponentKind>) -> bool {
    &&& info.position.is_some() ==> registered.contains(ComponentKind::Position)
    &&& info.rotation.is_some() ==> registered.contains(ComponentKind::Rotation)
    &&& info.scale.is_some() ==> registered.contains(ComponentKind::Scale)
    &&& info.velocity.is_some() ==> registered.contains(ComponentKind::Velocity)
    &&& info.angular_velocity.is_some() ==> registered.contains(ComponentKind::AngularVelocity)
    &&& info.set_velocity_intent.is_some() ==> registered.contains(ComponentKind::SetVelocityIntent)
    &&& info.stay_inside_bounds.is_some() ==> registered.contains(ComponentKind::StayInsideBounds)
    &&& info.player.is_some() ==> registered.contains(ComponentKind::Player)
    &&& info.counter.is_some() ==> registered.contains(ComponentKind::Counter)
    &&& info.shader_params.is_some() ==> registered.contains(ComponentKind::ShaderParams)
    &&& info.texture_override.is_some() ==> registered.contains(ComponentKind::TextureOverride)
    &&& info.tree.is_some() ==> registered.contains(ComponentKind::TreeRelationship)
    &&& info.text.is_some() ==> registered.contains(ComponentKind::StringContainer)
}

/// The components of one entity: each is there or it is not. A component
/// that is absent is absent, it does not stand for a default value.
#[derive(Clone, Debug, PartialEq, Eq)]
pub struct ComponentInfo {
    pub position: Option<Position>,
    pub scale: Option<Scale>,
    pub rotation: Option<Rotation>,
    pub velocity: Option<Velocity>,
    pub angular_velocity: Option<AngularVelocity>,
    pub set_velocity_intent: Option<SetVelocityIntent>,
    pub stay_inside_bounds: Option<StayInsideBounds>,
    pub player: Option<Player>,
    pub counter: Option<Counter>,
    pub shader_params: Option<ShaderParams>,
    pub texture_override: Option<TextureOverride>,
    pub tree: Option<TreeRelationship>,
    pub text: Option<StringContainer>,
}

impl ComponentInfo {
    /// The row without any component.
    pub open spec fn empty_spec() -> ComponentInfo {
        ComponentInfo {
            position: None,
            scale: None,
            rotation: None,
            velocity: None,
            angular_velocity: None,
            set_velocity_intent: None,
            stay_inside_bounds: None,
            player: None,
            counter: None,
            shader_params: None,
            texture_override: None,
            tree: None,
            text: None,
        }
    }

    /// Whether the row holds a component of the given kind.
    pub open spec fn has(self, kind: ComponentKind) -> bool {
        match kind {
            ComponentKind::Position => self.position.is_some(),
            ComponentKind::Rotation => self.rotation.is_some(),
            ComponentKind::Scale => self.scale.is_some(),
            ComponentKind::Velocity => self.velocity.is_some(),
            ComponentKind::AngularVelocity => self.angular_velocity.is_some(),
            ComponentKind::SetVelocityIntent => self.set_velocity_intent.is_some(),
            ComponentKind::StayInsideBounds => self.stay_inside_bounds.is_some(),
            ComponentKind::Player => self.player.is_some(),
            ComponentKind::Counter => self.counter.is_some(),
            ComponentKind::ShaderParams => self.shader_params.is_some(),
            ComponentKind::TextureOverride => self.texture_override.is_some(),
            ComponentKind::TreeRelationship => self.tree.is_some(),
            ComponentKind::StringContainer => self.text.is_some(),
        }
    }

    /// A row without any component.
    pub fn empty() -> (info: Self)
        ensures
            info == Self::empty_spec(),
    {
        ComponentInfo {
            position: None,
            scale: None,
            rotation: None,
            velocity: None,
            angular_velocity: None,
            set_velocity_intent: None,
            stay_inside_bounds: None,
            player: None,
            counter: None,
            shader_params: None,
            texture_override: None,
            tree: None,
            text: None,
        }
    }
}

/// Two worlds with the same marks for removal, with the same waiting for
/// `maintain`, and with no resource gone.
pub open spec fn same_setup_but_storages(a: World, b: World) -> bool {
    &&& crate::ecs::world_doomed(a) == crate::ecs::world_doomed(b)
    &&& crate::ecs::same_waiting(a, b)
    &&& crate::ecs::same_base(a, b)
}

/// A component type that the world stores: its kind, and where it stands in
/// an entity's row.
pub trait Stored: Sized + crate::sealed::Sealed {
    /// The kind of the component.
    spec fn kind() -> ComponentKind;

    /// The component of this type in a row.
    spec fn pick(row: ComponentInfo) -> Option<Self>;

    /// The row with the component of this type replaced.
    spec fn put(row: ComponentInfo, value: Option<Self>) -> ComponentInfo;

    /// `put` changes what `pick` reads, and whether the row has this kind.
    proof fn put_then_pick(row: ComponentInfo, value: Option<Self>)
        ensures
            Self::pick(Self::put(row, value)) == value,
            Self::put(row, value).has(Self::kind()) == value.is_some(),
            row.has(Self::kind()) == Self::pick(row).is_some(),
            Self::put(row, Self::pick(row)) == row,
    ;
}

} // verus!

verus! {

impl specs::Component for Position {
    type Storage = specs::DenseVecStorage<Position>;
}

impl Stored for Position {
    open spec fn kind() -> ComponentKind {
        ComponentKind::Position
    }

    open spec fn pick(row: ComponentInfo) -> Option<Self> {
        row.position
    }

    open spec fn put(row: ComponentInfo, value: Option<Self>) -> ComponentInfo {
        ComponentInfo { position: value, ..row }
    }

    proof fn put_then_pick(row: ComponentInfo, value: Option<Self>) {
    }
}

impl specs::Component for Rotation {
    type Storage = specs::DenseVecStorage<Rotation>;
}

impl Stored for Rotation {
    open spec fn kind() -> ComponentKind {
        ComponentKind::Rotation
    }

    open spec fn pick(row: ComponentInfo) -> Option<Self> {
        row.rotation
    }

    open spec fn put(row: ComponentInfo, value: Option<Self>) -> ComponentInfo {
        ComponentInfo { rotation: value, ..row }
    }

    proof fn put_then_pick(row: ComponentInfo, value: Option<Self>) {
    }
}

impl specs::Component for Scale {
    type Storage = specs::DenseVecStorage<Scale>;
}

impl Stored for Scale {
    open spec fn kind() -> ComponentKind {
        ComponentKind::Scale
    }

    open spec fn pick(row: ComponentInfo) -> Option<Self> {
        row.scale
    }

    open spec fn put(row: ComponentInfo, value: Option<Self>) -> ComponentInfo {
        ComponentInfo { scale: value, ..row }
    }

    proof fn put_then_pick(row: ComponentInfo, value: Option<Self>) {
    }
}

impl specs::Component for Velocity {
    type Storage = specs::DenseVecStorage<Velocity>;
}

impl Stored for Velocity {
    open spec fn kind() -> ComponentKind {
        ComponentKind::Velocity
    }

    open spec fn pick(row: ComponentInfo) -> Option<Self> {
        row.velocity
    }

    open spec fn put(row: ComponentInfo, value: Option<Self>) -> ComponentInfo {
        ComponentInfo { velocity: value, ..row }
    }

    proof fn put_then_pick(row: ComponentInfo, value: Option<Self>) {
    }
}

impl specs::Component for AngularVelocity {
    type Storage = specs::DenseVecStorage<AngularVelocity>;
}

impl Stored for AngularVelocity {
    open spec fn kind() -> ComponentKind {
        ComponentKind::AngularVelocity
    }

    open spec fn pick(row: ComponentInfo) -> Option<Self> {
        row.angular_velocity
    }

    open spec fn put(row: ComponentInfo, value: Option<Self>) -> ComponentInfo {
        ComponentInfo { angular_velocity: value, ..row }
    }

    proof fn put_then_pick(row: ComponentInfo, value: Option<Self>) {
    }
}

impl specs::Component for SetVelocityIntent {
    type Storage = specs::DenseVecStorage<SetVelocityIntent>;
}

impl Stored for SetVelocityIntent {
    open spec fn kind() -> ComponentKind {
        ComponentKind::SetVelocityIntent
    }

    open spec fn pick(row: ComponentInfo) -> Option<Self> {
        row.set_velocity_intent
    }

    open spec fn put(row: ComponentInfo, value: Option<Self>) -> ComponentInfo {
        ComponentInfo { set_velocity_intent: value, ..row }
    }

    proof fn put_then_pick(row: ComponentInfo, value: Option<Self>) {
    }
}

impl specs::Component for StayInsideBounds {
    type Storage = specs::NullStorage<StayInsideBounds>;
}

impl Stored for StayInsideBounds {
    open spec fn kind() -> ComponentKind {
        ComponentKind::StayInsideBounds
    }

    open spec fn pick(row: ComponentInfo) -> Option<Self> {
        row.stay_inside_bounds
    }

    open spec fn put(row: ComponentInfo, value: Option<Self>) -> ComponentInfo {
        ComponentInfo { stay_inside_bounds: value, ..row }
    }

    proof fn put_then_pick(row: ComponentInfo, value: Option<Self>) {
    }
}

impl specs::Component for Player {
    type Storage = specs::NullStorage<Player>;
}

impl Stored for Player {
    open spec fn kind() -> ComponentKind {
        ComponentKind::Player
    }

    open spec fn pick(row: ComponentInfo) -> Option<Self> {
        row.player
    }

    open spec fn put(row: ComponentInfo, value: Option<Self>) -> ComponentInfo {
        ComponentInfo { player: value, ..row }
    }

    proof fn put_then_pick(row: ComponentInfo, value: Option<Self>) {
    }
}

impl specs::Component for Counter {
    type Storage = specs::DenseVecStorage<Counter>;
}

impl Stored for Counter {
    open spec fn kind() -> ComponentKind {
        ComponentKind::Counter
    }

    open spec fn pick(row: ComponentInfo) -> Option<Self> {
        row.counter
    }

    open spec fn put(row: ComponentInfo, value: Option<Self>) -> ComponentInfo {
        ComponentInfo { counter: value, ..row }
    }

    proof fn put_then_pick(row: ComponentInfo, value: Option<Self>) {
    }
}

impl specs::Component for ShaderParams {
    type Storage = specs::DenseVecStorage<ShaderParams>;
}

impl Stored for ShaderParams {
    open spec fn kind() -> ComponentKind {
        ComponentKind::ShaderParams
    }

    open spec fn pick(row: ComponentInfo) -> Option<Self> {
        row.shader_params
    }

    open spec fn put(row: ComponentInfo, value: Option<Self>) -> ComponentInfo {
        ComponentInfo { shader_params: value, ..row }
    }

    proof fn put_then_pick(row: ComponentInfo, value: Option<Self>) {
    }
}

impl specs::Component for TextureOverride {
    type Storage = specs::DenseVecStorage<TextureOverride>;
}

impl Stored for TextureOverride {
    open spec fn kind() -> ComponentKind {
        ComponentKind::TextureOverride
    }

    open spec fn pick(row: ComponentInfo) -> Option<Self> {
        row.texture_override
    }

    open spec fn put(row: ComponentInfo, value: Option<Self>) -> ComponentInfo {
        ComponentInfo { texture_override: value, ..row }
    }

    proof fn put_then_pick(row: ComponentInfo, value: Option<Self>) {
    }
}

impl specs::Component for TreeRelationship {
    type Storage = specs::DenseVecStorage<TreeRelationship>;
}

impl Stored for TreeRelationship {
    open spec fn kind() -> ComponentKind {
        ComponentKind::TreeRelationship
    }

    open spec fn pick(row: ComponentInfo) -> Option<Self> {
        row.tree
    }

    open spec fn put(row: ComponentInfo, value: Option<Self>) -> ComponentInfo {
        ComponentInfo { tree: value, ..row }
    }

    proof fn put_then_pick(row: ComponentInfo, value: Option<Self>) {
    }
}

impl specs::Component for StringContainer {
    type Storage = specs::DenseVecStorage<StringContainer>;
}

impl Stored for StringContainer {
    open spec fn kind() -> ComponentKind {
        ComponentKind::StringContainer
    }

    open spec fn pick(row: ComponentInfo) -> Option<Self> {
        row.text
    }

    open spec fn put(row: ComponentInfo, value: Option<Self>) -> ComponentInfo {
        ComponentInfo { text: value, ..row }
    }

    proof fn put_then_pick(row: ComponentInfo, value: Option<Self>) {
    }
}

} // verus!
