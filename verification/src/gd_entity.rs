//! The entity as the presentation layer holds it, and the protocol that
//! keeps the two sides in step.
//!
//! A `GDEntity` stands for one node of the presentation layer. It holds the
//! description from which the entity is made, and, once the entity exists,
//! the link to it. After each tick `synchronize` moves state between the
//! world and the node; when the entity is gone, it tells the node to
//! dispose of itself, once, and drops the link.
use vstd::prelude::*;
use specs::Entity;
use crate::components::{
    AngularVelocity, ComponentInfo, ComponentKind, Counter, Player, Position, Rotation, Scale,
    SetVelocityIntent, ShaderParams, StayInsideBounds, TextureOverride, Velocity,
};
use crate::ecs::{same_resources, same_setup, world_store};
use crate::error::WorldError;
use crate::gd_world::{
    can_be_created, described_angular_velocity, described_row, described_velocity, grown,
    GDWorld, HostNode,
};
use crate::specs_world::{stored, SpecsWorld};
use crate::value::{entries_map, lemma_entries_prepend, Description, Entry, Value, Vector2};

verus! {

/// What a node of the presentation layer is to do after a tick.
#[derive(Clone, Copy, Debug, PartialEq, Eq, Structural)]
pub struct SyncReport {
    /// The node is to dispose of itself: its entity is gone.
    pub dispose: bool,
    /// The position to show, where the entity has one.
    pub position: Option<Position>,
    /// The scale to show, where the entity has one.
    pub scale: Option<Scale>,
    /// The rotation to show, where the entity has one.
    pub rotation: Option<Rotation>,
    /// The texture to draw, where the entity overrides it.
    pub texture: Option<TextureOverride>,
    /// The colours for the shader, where the entity has them.
    pub shader_params: Option<ShaderParams>,
}

/// The report that asks nothing of the node.
pub open spec fn idle_report() -> SyncReport {
    SyncReport {
        dispose: false,
        position: None,
        scale: None,
        rotation: None,
        texture: None,
        shader_params: None,
    }
}

/// The report that asks the node to dispose of itself.
pub open spec fn dispose_report() -> SyncReport {
    SyncReport {
        dispose: true,
        position: None,
        scale: None,
        rotation: None,
        texture: None,
        shader_params: None,
    }
}

/// The report that shows the components of a living entity.
pub open spec fn report_for(row: ComponentInfo) -> SyncReport {
    SyncReport {
        dispose: false,
        position: row.position,
        scale: row.scale,
        rotation: row.rotation,
        texture: row.texture_override,
        shader_params: row.shader_params,
    }
}

/// The description with a value put under a name, if there is a value.
pub open spec fn with_entry(desc: Map<Seq<char>, Value>, key: Seq<char>, value: Option<Value>)
    -> Map<Seq<char>, Value> {
    match value {
        Some(v) => desc.insert(key, v),
        None => desc,
    }
}

/// The value that stands for a velocity in a description.
pub open spec fn velocity_value(c: Option<Velocity>) -> Option<Value> {
    match c {
        Some(v) => Some(Value::Vector2(Vector2 { x: v.x, y: v.y })),
        None => None,
    }
}

/// The value that stands for an intent in a description.
pub open spec fn intent_value(c: Option<SetVelocityIntent>) -> Option<Value> {
    match c {
        Some(v) => Some(Value::Vector2(Vector2 { x: v.x, y: v.y })),
        None => None,
    }
}

/// The value that stands for a counter in a description.
pub open spec fn counter_value(c: Option<Counter>) -> Option<Value> {
    match c {
        Some(v) => Some(Value::Int(v.0 as i64)),
        None => None,
    }
}

/// The value that stands for a marker in a description.
pub open spec fn marker_value(present: bool) -> Option<Value> {
    if present {
        Some(Value::Nil)
    } else {
        None
    }
}

/// The value that stands for shader colours in a description.
pub open spec fn colors_value(c: Option<ShaderParams>) -> Option<Value> {
    match c {
        Some(v) => Some(Value::Colors(v)),
        None => None,
    }
}

/// The description after the world's state was copied into it: each of
/// velocity, intent, the two markers, counter and shader colours that the
/// entity has stands under its name; what the entity does not have is left
/// as it was.
pub open spec fn mirrored(desc: Map<Seq<char>, Value>, row: ComponentInfo) -> Map<
    Seq<char>,
    Value,
> {
    let d1 = with_entry(desc, "Velocity"@, velocity_value(row.velocity));
    let d2 = with_entry(d1, "SetVelocityIntent"@, intent_value(row.set_velocity_intent));
    let d3 = with_entry(d2, "StayInsideBounds"@, marker_value(row.stay_inside_bounds.is_some()));
    let d4 = with_entry(d3, "Player"@, marker_value(row.player.is_some()));
    let d5 = with_entry(d4, "Counter"@, counter_value(row.counter));
    with_entry(d5, "ShaderParams"@, colors_value(row.shader_params))
}

/// The intent that a description names: one under `SetVelocityIntent` that
/// is a vector.
pub open spec fn described_intent(desc: Map<Seq<char>, Value>) -> Option<SetVelocityIntent> {
    if desc.contains_key("SetVelocityIntent"@) {
        match desc["SetVelocityIntent"@] {
            Value::Vector2(v) => Some(SetVelocityIntent { x: v.x, y: v.y }),
            _ => None,
        }
    } else {
        None
    }
}

/// The first of two optional values that is there.
pub open spec fn or_else<T>(first: Option<T>, second: Option<T>) -> Option<T> {
    if first.is_some() {
        first
    } else {
        second
    }
}

/// The row after the presentation layer's values were copied into it: each
/// of velocity, angular velocity and intent that the description gives
/// replaces what the entity had; the rest stays.
pub open spec fn pushed_row(row: ComponentInfo, desc: Map<Seq<char>, Value>) -> ComponentInfo {
    ComponentInfo {
        velocity: or_else(described_velocity(desc), row.velocity),
        angular_velocity: or_else(described_angular_velocity(desc), row.angular_velocity),
        set_velocity_intent: or_else(described_intent(desc), row.set_velocity_intent),
        ..row
    }
}

/// The link after a synchronization: it is dropped when the entity is gone.
pub open spec fn next_link(link: Option<Entity>, alive: Set<Entity>) -> Option<Entity> {
    match link {
        Some(e) => if alive.contains(e) {
            Some(e)
        } else {
            None
        },
        None => None,
    }
}

/// Whether a synchronization tells the node to dispose of itself: when it
/// is linked to an entity that is gone.
pub open spec fn disposes(link: Option<Entity>, alive: Set<Entity>) -> bool {
    match link {
        Some(e) => !alive.contains(e),
        None => false,
    }
}

/// Whether there is a storage for each component that a description gives
/// to be copied into the world.
pub open spec fn push_fits(desc: Map<Seq<char>, Value>, registered: Set<ComponentKind>) -> bool {
    &&& described_velocity(desc).is_some() ==> registered.contains(ComponentKind::Velocity)
    &&& described_angular_velocity(desc).is_some() ==> registered.contains(
        ComponentKind::AngularVelocity,
    )
    &&& described_intent(desc).is_some() ==> registered.contains(
        ComponentKind::SetVelocityIntent,
    )
}

/// What a synchronization makes of a node's side and a world, and what it
/// reports.
///
/// Without a link nothing happens. With a link to an entity that is gone,
/// the node is told to dispose of itself and the link is dropped. With a
/// link to a living entity, the values that were set from outside since the
/// last synchronization are copied into the world, the entity's state is
/// reported and copied into the working description. That fails, and
/// nothing happens, where a value is to be copied into the world for which
/// the world has no storage.
pub open spec fn syncs(
    before: GDEntity,
    world_before: SpecsWorld,
    after: GDEntity,
    world_after: SpecsWorld,
    r: Result<SyncReport, WorldError>,
) -> bool {
    &&& after.components == before.components
    &&& after.world_path == before.world_path
    &&& same_setup(world_before.world, world_after.world)
    &&& same_resources(world_before.world, world_after.world)
    &&& match before.entity {
        None => r == Ok::<SyncReport, WorldError>(idle_report()) && after == before
            && world_after.rows() == world_before.rows(),
        Some(e) => if !world_before.entities().contains(e) {
            &&& r == Ok::<SyncReport, WorldError>(dispose_report())
            &&& after.entity.is_none()
            &&& after.inner_components == before.inner_components
            &&& after.edited == before.edited
            &&& world_after.rows() == world_before.rows()
        } else if before.edited && !push_fits(
            before.inner_components@,
            world_before.registered(),
        ) {
            &&& r == Err::<SyncReport, WorldError>(WorldError::UnregisteredComponent)
            &&& after == before
            &&& world_after.rows() == world_before.rows()
        } else {
            let row = if before.edited {
                pushed_row(world_before.rows()[e], before.inner_components@)
            } else {
                world_before.rows()[e]
            };
            &&& r == Ok::<SyncReport, WorldError>(report_for(row))
            &&& world_after.rows() == world_before.rows().insert(e, row)
            &&& after.entity == Some(e)
            &&& !after.edited
            &&& after.inner_components@ == mirrored(before.inner_components@, row)
        },
    }
}

impl ComponentInfo {
    /// The components that a description gives by value: velocity, angular
    /// velocity and intent, each where the value under its name has the
    /// right shape.
    pub open spec fn from_description_spec(desc: Map<Seq<char>, Value>) -> ComponentInfo {
        ComponentInfo {
            velocity: described_velocity(desc),
            angular_velocity: described_angular_velocity(desc),
            set_velocity_intent: described_intent(desc),
            ..ComponentInfo::empty_spec()
        }
    }

    /// The components that a description gives by value.
    pub fn from_description(description: &Description) -> (info: ComponentInfo)
        ensures
            info == ComponentInfo::from_description_spec(description@),
    {
        let mut info = ComponentInfo::empty();
        info.velocity = read_velocity(description);
        info.angular_velocity = read_angular_velocity(description);
        info.set_velocity_intent = read_intent(description);
        info
    }
}

/// The velocity that a description names.
pub fn read_velocity(description: &Description) -> (r: Option<Velocity>)
    ensures
        r == described_velocity(description@),
{
    match description.get("Velocity") {
        Some(value) => match value.try_to_vector2() {
            Some(v) => Some(Velocity { x: v.x, y: v.y }),
            None => None,
        },
        None => None,
    }
}

/// The angular velocity that a description names.
pub fn read_angular_velocity(description: &Description) -> (r: Option<AngularVelocity>)
    ensures
        r == described_angular_velocity(description@),
{
    match description.get("AngularVelocity") {
        Some(value) => match value.try_to_real() {
            Some(x) => Some(AngularVelocity { radians: x }),
            None => None,
        },
        None => None,
    }
}

/// The intent that a description names.
pub fn read_intent(description: &Description) -> (r: Option<SetVelocityIntent>)
    ensures
        r == described_intent(description@),
{
    match description.get("SetVelocityIntent") {
        Some(value) => match value.try_to_vector2() {
            Some(v) => Some(SetVelocityIntent { x: v.x, y: v.y }),
            None => None,
        },
        None => None,
    }
}

/// Puts a value under a name, if there is a value.
fn note(description: &mut Description, key: &str, value: Option<Value>)
    ensures
        final(description)@ == with_entry(old(description)@, key@, value),
{
    match value {
        Some(v) => description.insert(key.to_owned(), v),
        None => {},
    }
}

/// The node's side of an entity: the description, and the link to the
/// entity once it is made.
#[derive(Debug)]
pub struct GDEntity {
    /// Where the node finds its world.
    pub world_path: String,
    /// The description as the editor shows it.
    pub components: Description,
    /// The description that the library works on. What is set here before
    /// the entity is made goes before what the editor holds.
    pub inner_components: Description,
    /// The entity that stands for the node, once it is made and until it is
    /// gone.
    pub entity: Option<Entity>,
    /// Whether a value was set from outside since the last synchronization.
    pub edited: bool,
}

impl GDEntity {
    /// A node's side without an entity: the world is looked for at the
    /// parent, and both descriptions are empty.
    pub fn new() -> (g: Self)
        ensures
            g.world_path@ == ".."@,
            g.components@ == Map::<Seq<char>, Value>::empty(),
            g.inner_components@ == Map::<Seq<char>, Value>::empty(),
            g.entity.is_none(),
            !g.edited,
    {
        GDEntity {
            world_path: "..".to_owned(),
            components: Description::new(),
            inner_components: Description::new(),
            entity: None,
            edited: false,
        }
    }

    /// Puts a value under a component's name, to be copied into the world
    /// at the next synchronization.
    pub fn set_component(&mut self, key: &str, value: Value)
        ensures
            final(self).inner_components@ == old(self).inner_components@.insert(key@, value),
            final(self).edited,
            final(self).entity == old(self).entity,
            final(self).components == old(self).components,
            final(self).world_path == old(self).world_path,
    {
        self.inner_components.insert(key.to_owned(), value);
        self.edited = true;
    }

    /// Takes over what the editor holds: each of its entries goes into the
    /// working description unless a value stands there under the same name,
    /// which goes first.
    pub fn adopt_editor_components(&mut self)
        ensures
            final(self).inner_components@ == old(self).components@.union_prefer_right(
                old(self).inner_components@,
            ),
            final(self).components == old(self).components,
            final(self).entity == old(self).entity,
            final(self).edited == old(self).edited,
            final(self).world_path == old(self).world_path,
    {
        let ghost given = self.inner_components@;
        let mut i: usize = self.components.entries.len();
        assert(self.components.entries@.skip(i as int) =~= Seq::<Entry<Value>>::empty());
        assert(self.inner_components@ =~= entries_map(
            self.components.entries@.skip(i as int),
        ).union_prefer_right(given));
        while i > 0
            invariant
                i <= self.components.entries@.len(),
                self.components == old(self).components,
                self.entity == old(self).entity,
                self.edited == old(self).edited,
                self.world_path == old(self).world_path,
                given == old(self).inner_components@,
                self.inner_components@ == entries_map(
                    self.components.entries@.skip(i as int),
                ).union_prefer_right(given),
            decreases i,
        {
            i -= 1;
            let present = self.inner_components.contains_key(self.components.entries[i].key.as_str());
            if !present {
                let key = self.components.entries[i].key.clone();
                let value = self.components.entries[i].value.duplicate();
                self.inner_components.insert(key, value);
            }
            proof {
                let entries = self.components.entries@;
                lemma_entries_prepend(entries[i as int], entries.skip(i as int + 1));
                assert(entries.skip(i as int) =~= seq![entries[i as int]] + entries.skip(
                    i as int + 1,
                ));
                assert(self.inner_components@ =~= entries_map(
                    entries.skip(i as int),
                ).union_prefer_right(given));
            }
        }
        assert(self.components.entries@.skip(0) =~= self.components.entries@);
    }

    /// Makes the entity for the node: takes over what the editor holds, has
    /// the world create the entity from the working description and the
    /// node, and links the node to it. What the world looks like afterwards
    /// is what `GDWorld::create_entity_from` says for the working
    /// description.
    pub fn ready(&mut self, world: &mut GDWorld, node: &HostNode) -> (r: Option<Entity>)
        requires
            old(world).wf(),
        ensures
            final(world).wf(),
            final(self).inner_components@ == old(self).components@.union_prefer_right(
                old(self).inner_components@,
            ),
            final(self).components == old(self).components,
            final(self).edited == old(self).edited,
            final(self).world_path == old(self).world_path,
            final(world).dispatcher == old(world).dispatcher,
            r.is_some() == can_be_created(
                final(self).inner_components@,
                *node,
                old(world).world.registered(),
            ),
            r.is_none() ==> final(self).entity == old(self).entity && final(world).world.world
                == old(world).world.world,
            r.is_some() ==> final(self).entity == r && grown(
                old(world).world.world,
                final(world).world.world,
                final(self).inner_components@,
                *node,
                r.unwrap(),
            ),
    {
        self.adopt_editor_components();
        match world.create_entity_from(&self.inner_components, node) {
            Some(e) => {
                self.entity = Some(e);
                Some(e)
            },
            None => None,
        }
    }

    /// Brings the node and its entity in step, after a tick.
    ///
    /// Without a link nothing happens. With a link to an entity that is
    /// gone, the node is told to dispose of itself and the link is dropped,
    /// so that this happens once. With a link to a living entity, first the
    /// values that were set from outside since the last synchronization are
    /// copied into the world, then the entity's position, scale, rotation,
    /// texture and colours are reported for the node to show, and the
    /// entity's state is copied into the working description.
    ///
    /// Fails, and changes nothing, where a value is to be copied into the
    /// world and the world has no storage for its kind. What is read needs
    /// no storage: without one the entity has no such component.
    pub fn synchronize(&mut self, world: &mut SpecsWorld) -> (r: Result<SyncReport, WorldError>)
        requires
            old(world).wf(),
        ensures
            syncs(*old(self), *old(world), *final(self), *final(world), r),
            final(world).entities() == old(world).entities(),
            final(self).entity == next_link(old(self).entity, old(world).entities()),
            r.is_ok() ==> r.unwrap().dispose == disposes(old(self).entity, old(world).entities()),
    {
        let e = match self.entity {
            None => {
                return Ok(
                    SyncReport {
                        dispose: false,
                        position: None,
                        scale: None,
                        rotation: None,
                        texture: None,
                        shader_params: None,
                    },
                );
            },
            Some(e) => e,
        };
        if !world.is_alive(e) {
            self.entity = None;
            return Ok(
                SyncReport {
                    dispose: true,
                    position: None,
                    scale: None,
                    rotation: None,
                    texture: None,
                    shader_params: None,
                },
            );
        }
        if self.edited {
            let velocity = read_velocity(&self.inner_components);
            let angular = read_angular_velocity(&self.inner_components);
            let intent = read_intent(&self.inner_components);
            if (velocity.is_some() && !world.is_registered::<Velocity>()) || (angular.is_some()
                && !world.is_registered::<AngularVelocity>()) || (intent.is_some()
                && !world.is_registered::<SetVelocityIntent>()) {
                return Err(WorldError::UnregisteredComponent);
            }
            match velocity {
                Some(v) => world_store(&mut world.world, e, v),
                None => {},
            }
            match angular {
                Some(v) => world_store(&mut world.world, e, v),
                None => {},
            }
            match intent {
                Some(v) => world_store(&mut world.world, e, v),
                None => {},
            }
            self.edited = false;
            assert(world.rows() =~= old(world).rows().insert(
                e,
                pushed_row(old(world).rows()[e], old(self).inner_components@),
            ));
        } else {
            assert(world.rows() =~= old(world).rows().insert(e, old(world).rows()[e]));
        }
        let position = stored::<Position>(&mut world.world, e);
        let scale = stored::<Scale>(&mut world.world, e);
        let rotation = stored::<Rotation>(&mut world.world, e);
        let texture = stored::<TextureOverride>(&mut world.world, e);
        let shader_params = stored::<ShaderParams>(&mut world.world, e);
        let velocity = stored::<Velocity>(&mut world.world, e);
        let intent = stored::<SetVelocityIntent>(&mut world.world, e);
        let stays = stored::<StayInsideBounds>(&mut world.world, e);
        let player = stored::<Player>(&mut world.world, e);
        let counter = stored::<Counter>(&mut world.world, e);
        note(
            &mut self.inner_components,
            "Velocity",
            match velocity {
                Some(v) => Some(Value::Vector2(Vector2 { x: v.x, y: v.y })),
                None => None,
            },
        );
        note(
            &mut self.inner_components,
            "SetVelocityIntent",
            match intent {
                Some(v) => Some(Value::Vector2(Vector2 { x: v.x, y: v.y })),
                None => None,
            },
        );
        note(
            &mut self.inner_components,
            "StayInsideBounds",
            if stays.is_some() {
                Some(Value::Nil)
            } else {
                None
            },
        );
        note(
            &mut self.inner_components,
            "Player",
            if player.is_some() {
                Some(Value::Nil)
            } else {
                None
            },
        );
        note(
            &mut self.inner_components,
            "Counter",
            match counter {
                Some(c) => Some(Value::Int(c.0 as i64)),
                None => None,
            },
        );
        note(
            &mut self.inner_components,
            "ShaderParams",
            match shader_params {
                Some(c) => Some(Value::Colors(c)),
                None => None,
            },
        );
        assert(world.entities() =~= old(world).entities());
        Ok(SyncReport { dispose: false, position, scale, rotation, texture, shader_params })
    }

    /// What the node does when the world says that a tick is completed:
    /// `synchronize`, and then the editor is shown the working description.
    pub fn on_world_updated(&mut self, world: &mut SpecsWorld) -> (r: Result<
        SyncReport,
        WorldError,
    >)
        requires
            old(world).wf(),
        ensures
            syncs(
                *old(self),
                *old(world),
                GDEntity { components: old(self).components, ..*final(self) },
                *final(world),
                r,
            ),
            final(self).components@ == final(self).inner_components@,
            final(world).entities() == old(world).entities(),
            final(self).entity == next_link(old(self).entity, old(world).entities()),
            r.is_ok() ==> r.unwrap().dispose == disposes(old(self).entity, old(world).entities()),
    {
        let r = self.synchronize(world);
        let ghost synced = *self;
        self.components = self.inner_components.duplicate();
        assert(GDEntity { components: old(self).components, ..*self } == synced);
        r
    }
}

/// While the entity lives, a synchronization right after its creation
/// shows the node the position it was created with, and the velocity that
/// the description gave is the entity's velocity and stands unchanged in
/// the description afterwards.
pub proof fn lemma_sync_after_create_copies(desc: Map<Seq<char>, Value>, node: HostNode, v: Vector2)
    requires
        desc.contains_key("Velocity"@),
        desc["Velocity"@] == Value::Vector2(v),
    ensures
        report_for(described_row(desc, node)).position == Some(node.transform.position),
        !report_for(described_row(desc, node)).dispose,
        described_row(desc, node).velocity == Some(Velocity { x: v.x, y: v.y }),
        mirrored(desc, described_row(desc, node)).contains_key("Velocity"@),
        mirrored(desc, described_row(desc, node))["Velocity"@] == Value::Vector2(v),
{
    reveal_strlit("Velocity");
    reveal_strlit("SetVelocityIntent");
    reveal_strlit("StayInsideBounds");
    reveal_strlit("Player");
    reveal_strlit("Counter");
    reveal_strlit("ShaderParams");
    assert("Velocity"@.len() == 8);
    assert("SetVelocityIntent"@.len() == 17);
    assert("StayInsideBounds"@.len() == 16);
    assert("Player"@.len() == 6);
    assert("Counter"@.len() == 7);
    assert("ShaderParams"@.len() == 12);
}

/// A node is told once to dispose of itself: the synchronization that
/// finds the entity gone drops the link, and from then on no
/// synchronization tells the node anything, whatever the world holds.
pub proof fn lemma_dispose_once(link: Option<Entity>, alive: Set<Entity>, later: Set<Entity>)
    requires
        disposes(link, alive),
    ensures
        next_link(link, alive).is_none(),
        !disposes(next_link(link, alive), later),
        next_link(next_link(link, alive), later).is_none(),
{
}

} // verus!
