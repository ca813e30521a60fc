//! A world of entities, components, a clock and message queues.
use vstd::prelude::*;
use specs::{Entity, World};
use crate::components::{
    fits_storages, AngularVelocity, ComponentInfo, ComponentKind, Counter, Player, Position,
    Rotation, Scale, SetVelocityIntent, ShaderParams, StayInsideBounds, Stored, StringContainer,
    TextureOverride, TreeRelationship, Velocity,
};
use crate::dispatcher::Scheduled;
use crate::ecs::{
    entity_is_live, world_founded, world_holds_changes, world_holds_entities,
    world_raised, world_tidy, same_mail, same_mail_but, same_population,
    same_resources, same_setup, world_add_queue, world_clear, world_create, world_dispatch,
    world_doom, world_doomed, world_fetch, world_has_queue, world_holders, world_is_member,
    world_is_registered, world_mail, world_maintain, world_members, world_new, world_pending,
    world_post, world_read_time, world_registered, world_resources, world_rows, world_set_time,
    world_store, world_take, world_time,
};
use crate::error::WorldError;
use crate::messages::{Message, MessageKind, Payload, WorldMsgQueue};
use crate::resources::Time;
use crate::util::{ComponentRegistry, WorldCommand, WorldQuery};

verus! {

/// A resource: a value of which a world holds at most one.
pub trait Resource: Sized {
    /// Whether the world holds this value as its resource of the type.
    spec fn held_in(self, w: World) -> bool;

    /// Whether two worlds differ at most in the resource of this type.
    spec fn only_this_differs(before: World, after: World) -> bool;

    /// Makes the value the world's resource of its type, in place of one the
    /// world may have had.
    fn install(self, w: &mut World)
        ensures
            self.held_in(*final(w)),
            Self::only_this_differs(*old(w), *final(w)),
            same_setup(*old(w), *final(w)),
    ;
}

/// A resource of which a world hands out copies.
pub trait Inspect: Resource + Copy {
    /// The world's resource of this type.
    spec fn current(w: World) -> Option<Self>;

    /// A copy of the world's resource of this type; `None` if it has none.
    fn inspect(w: &mut World) -> (r: Option<Self>)
        ensures
            r == Self::current(*old(w)),
            *final(w) == *old(w),
    ;

    /// The world holds what `current` says, and nothing else.
    proof fn current_is_held(w: World, value: Self)
        ensures
            value.held_in(w) <==> Self::current(w) == Some(value),
    ;
}

impl Resource for Time {
    open spec fn held_in(self, w: World) -> bool {
        world_time(w) == Some(self)
    }

    open spec fn only_this_differs(before: World, after: World) -> bool {
        same_population(before, after) && same_mail(before, after)
    }

    fn install(self, w: &mut World) {
        world_set_time(w, self);
    }
}

impl Inspect for Time {
    open spec fn current(w: World) -> Option<Self> {
        world_time(w)
    }

    fn inspect(w: &mut World) -> (r: Option<Self>) {
        world_read_time(w)
    }

    proof fn current_is_held(w: World, value: Self) {
    }
}

impl<T: Payload + Send + Sync + 'static> Resource for WorldMsgQueue<T> {
    open spec fn held_in(self, w: World) -> bool {
        world_mail(w, T::channel()) == Some(self.raw())
    }

    open spec fn only_this_differs(before: World, after: World) -> bool {
        &&& same_population(before, after)
        &&& same_mail_but(before, after, T::channel())
        &&& world_time(before) == world_time(after)
    }

    fn install(self, w: &mut World) {
        world_add_queue(w, self);
    }
}

/// Whether the entity is one of the world's.
pub(crate) fn alive(w: &mut World, e: Entity) -> (r: bool)
    requires
        world_founded(*old(w)),
    ensures
        r == world_rows(*old(w)).contains_key(e),
        *final(w) == *old(w),
{
    if entity_is_live(e) {
        world_is_member(w, e)
    } else {
        false
    }
}

/// The component of a type that an entity of the world holds; `None` for an
/// entity without one, for an entity that is none of the world's, and
/// where the type has no storage.
pub(crate) fn stored<C: Stored + specs::Component + Clone + Send + Sync>(
    w: &mut World,
    e: Entity,
) -> (r: Option<C>)
    requires
        world_founded(*old(w)),
    ensures
        r == (if world_rows(*old(w)).contains_key(e) {
            C::pick(world_rows(*old(w))[e])
        } else {
            None
        }),
        *final(w) == *old(w),
{
    if !world_is_registered::<C>(w) {
        return None;
    }
    if !alive(w, e) {
        return None;
    }
    world_fetch::<C>(w, e)
}

/// Gives the row of an entity of the world the component, or takes the
/// component of that type out of the row. Where there is nothing to give,
/// no storage is needed.
pub(crate) fn settle<C: Stored + specs::Component + Send + Sync>(
    w: &mut World,
    e: Entity,
    value: Option<C>,
)
    requires
        world_founded(*old(w)),
        value.is_some() ==> world_registered(*old(w)).contains(C::kind()),
        world_rows(*old(w)).contains_key(e),
    ensures
        world_rows(*final(w)) == world_rows(*old(w)).insert(
            e,
            C::put(world_rows(*old(w))[e], value),
        ),
        same_setup(*old(w), *final(w)),
        same_resources(*old(w), *final(w)),
{
    match value {
        Some(c) => world_store(w, e, c),
        None => {
            if world_is_registered::<C>(w) {
                world_clear::<C>(w, e);
            } else {
                proof {
                    let row = world_rows(*w)[e];
                    C::put_then_pick(row, None);
                    assert(C::pick(row).is_none());
                    assert(world_rows(*w) =~= world_rows(*w).insert(e, C::put(row, None)));
                }
            }
        },
    }
}

/// Whether the world has a storage for each component that the row holds.
pub(crate) fn can_hold(w: &mut World, info: &ComponentInfo) -> (r: bool)
    ensures
        r == fits_storages(*info, world_registered(*old(w))),
        *final(w) == *old(w),
{
    (info.position.is_none() || world_is_registered::<Position>(w)) && (info.rotation.is_none()
        || world_is_registered::<Rotation>(w)) && (info.scale.is_none() || world_is_registered::<
        Scale,
    >(w)) && (info.velocity.is_none() || world_is_registered::<Velocity>(w)) && (
    info.angular_velocity.is_none() || world_is_registered::<AngularVelocity>(w)) && (
    info.set_velocity_intent.is_none() || world_is_registered::<SetVelocityIntent>(w)) && (
    info.stay_inside_bounds.is_none() || world_is_registered::<StayInsideBounds>(w)) && (
    info.player.is_none() || world_is_registered::<Player>(w)) && (info.counter.is_none()
        || world_is_registered::<Counter>(w)) && (info.shader_params.is_none()
        || world_is_registered::<ShaderParams>(w)) && (info.texture_override.is_none()
        || world_is_registered::<TextureOverride>(w)) && (info.tree.is_none()
        || world_is_registered::<TreeRelationship>(w)) && (info.text.is_none()
        || world_is_registered::<StringContainer>(w))
}

/// Creates an entity whose row is exactly `info`. Needs a storage for each
/// component that the row holds, and for no other.
pub(crate) fn spawn(w: &mut World, info: ComponentInfo) -> (e: Entity)
    requires
        world_founded(*old(w)),
        fits_storages(info, world_registered(*old(w))),
    ensures
        !world_rows(*old(w)).contains_key(e),
        world_rows(*final(w)) == world_rows(*old(w)).insert(e, info),
        same_setup(*old(w), *final(w)),
        same_resources(*old(w), *final(w)),
{
    let e = world_create(w);
    let ComponentInfo {
        position,
        scale,
        rotation,
        velocity,
        angular_velocity,
        set_velocity_intent,
        stay_inside_bounds,
        player,
        counter,
        shader_params,
        texture_override,
        tree,
        text,
    } = info;
    settle(w, e, position);
    settle(w, e, scale);
    settle(w, e, rotation);
    settle(w, e, velocity);
    settle(w, e, angular_velocity);
    settle(w, e, set_velocity_intent);
    settle(w, e, stay_inside_bounds);
    settle(w, e, player);
    settle(w, e, counter);
    settle(w, e, shader_params);
    settle(w, e, texture_override);
    settle(w, e, tree);
    settle(w, e, text);
    proof {
        assert(world_rows(*w)[e] == info);
        assert(world_rows(*w) =~= world_rows(*old(w)).insert(e, info));
    }
    e
}

/// Whether the world holds what `WorldExt::new` inserts: the table of
/// entities and the queue of changes.
pub(crate) fn founded(w: &mut World) -> (r: bool)
    ensures
        r == world_founded(*old(w)),
        *final(w) == *old(w),
{
    world_holds_entities(w) && world_holds_changes(w)
}

/// Where the first of the resources stands that the world does not hold;
/// `None` where it holds them all.
pub(crate) fn first_missing(w: &mut World, fetched: &Vec<specs::shred::ResourceId>) -> (r: Option<
    usize,
>)
    ensures
        r.is_none() == fetched@.to_set().subset_of(world_resources(*old(w))),
        r.is_some() ==> r.unwrap() < fetched@.len() && !world_resources(*old(w)).contains(
            fetched@[r.unwrap() as int],
        ) && forall|j: int|
            0 <= j < r.unwrap() ==> world_resources(*old(w)).contains(#[trigger] fetched@[j]),
        *final(w) == *old(w),
{
    let mut i: usize = 0;
    while i < fetched.len()
        invariant
            i <= fetched@.len(),
            *w == *old(w),
            forall|j: int| 0 <= j < i ==> world_resources(*w).contains(#[trigger] fetched@[j]),
        decreases fetched@.len() - i,
    {
        if !world_has_resource_at(w, fetched, i) {
            assert(fetched@.to_set().contains(fetched@[i as int]));
            return Some(i);
        }
        i += 1;
    }
    proof {
        assert forall|id: specs::shred::ResourceId|
            fetched@.to_set().contains(id) implies world_resources(*w).contains(id) by {
            let j = choose|j: int| 0 <= j < fetched@.len() && fetched@[j] == id;
            assert(world_resources(*w).contains(fetched@[j]));
        }
    }
    None
}

/// Whether the world holds each of the resources.
pub(crate) fn serves(w: &mut World, fetched: &Vec<specs::shred::ResourceId>) -> (r: bool)
    ensures
        r == fetched@.to_set().subset_of(world_resources(*old(w))),
        *final(w) == *old(w),
{
    first_missing(w, fetched).is_none()
}

/// Whether the world holds the resource at an index of a list.
fn world_has_resource_at(w: &mut World, fetched: &Vec<specs::shred::ResourceId>, i: usize) -> (r:
    bool)
    requires
        i < fetched@.len(),
    ensures
        r == world_resources(*old(w)).contains(fetched@[i as int]),
        *final(w) == *old(w),
{
    crate::ecs::world_has_resource(w, &fetched[i])
}

/// A world: entities with their components, a clock, and message queues.
///
/// Entities are created at once. They are deleted in two steps: a call of
/// `delete_entity` marks an entity, and `maintain` removes the marked ones,
/// so that the population does not change under a running schedule.
pub struct SpecsWorld {
    pub world: World,
}

/// What `create_entity` makes of a world when it succeeds.
pub open spec fn created(before: SpecsWorld, after: SpecsWorld, e: Entity, info: ComponentInfo)
    -> bool {
    &&& !before.entities().contains(e)
    &&& after.rows() == before.rows().insert(e, info)
    &&& same_setup(before.world, after.world)
    &&& same_resources(before.world, after.world)
}

/// What `delete_entity` makes of a world when it succeeds.
pub open spec fn marked(before: SpecsWorld, after: SpecsWorld, e: Entity) -> bool {
    &&& after.doomed() == before.doomed().insert(e)
    &&& after.rows() == before.rows()
    &&& after.registered() == before.registered()
    &&& crate::ecs::same_waiting(before.world, after.world)
    &&& crate::ecs::same_base(before.world, after.world)
    &&& same_resources(before.world, after.world)
}

/// What `maintain` makes of a world: the entities that were marked for
/// removal are gone, and none of them waits to be entered. The world still
/// holds what it is founded on, it is tidy, and no storage, clock, queue or
/// other resource is gone. Where nothing else waited, that is all that
/// happens: the other entities keep their rows, no mark is left, and
/// storages, clock and queues are as they were.
pub open spec fn swept(before: World, after: World) -> bool {
    &&& forall|e: Entity| #[trigger]
        world_doomed(before).contains(e) ==> !world_rows(after).contains_key(e) && !world_raised(
            after,
        ).contains(e)
    &&& world_founded(after)
    &&& world_tidy(after)
    &&& world_registered(before).subset_of(world_registered(after))
    &&& world_resources(before).subset_of(world_resources(after))
    &&& world_time(before).is_some() ==> world_time(after).is_some()
    &&& forall|k: MessageKind| #[trigger]
        world_mail(before, k).is_some() ==> world_mail(after, k).is_some()
    &&& world_pending(before) == 0 ==> {
        &&& world_rows(after) == world_rows(before).remove_keys(world_doomed(before))
        &&& world_doomed(after) == Set::<Entity>::empty()
        &&& world_registered(after) == world_registered(before)
        &&& world_pending(after) == 0
        &&& world_raised(after) == Set::<Entity>::empty()
        &&& same_resources(before, after)
    }
}

/// What `maintain`, or a whole tick, makes of a world at the least: the
/// entities that were marked for removal are gone.
pub open spec fn maintained(before: SpecsWorld, after: SpecsWorld) -> bool {
    forall|e: Entity| #[trigger]
        before.doomed().contains(e) ==> !after.entities().contains(e) && !after.rows().contains_key(
            e,
        ) && !world_raised(after.world).contains(e)
}

/// What a run of tame systems may make of a world: no entity and no
/// storage goes, no storage comes, a clock and a queue neither come nor go,
/// marks for removal are added, not taken back, and a tidy world stays
/// tidy. Rows, the clock's value and the queues' contents are the systems'
/// to change, and so is how much waits for `maintain`.
pub open spec fn dispatched(before: World, after: World) -> bool {
    &&& world_rows(before).dom().subset_of(world_rows(after).dom())
    &&& world_registered(after) == world_registered(before)
    &&& world_doomed(before).subset_of(world_doomed(after))
    &&& world_resources(after) == world_resources(before)
    &&& world_founded(after) == world_founded(before)
    &&& world_tidy(before) ==> world_tidy(after)
    &&& world_time(after).is_some() == world_time(before).is_some()
    &&& forall|k: MessageKind| #[trigger]
        world_mail(after, k).is_some() == world_mail(before, k).is_some()
}

/// What a run of the systems with `maintain` behind it makes of a world:
/// there is a world in between that the systems left and that `maintain`
/// found.
pub open spec fn ran(before: World, after: World) -> bool {
    exists|between: World| dispatched(before, between) && #[trigger] swept(between, after)
}

/// What a tick makes of a world, in this order: the clock is set to `time`
/// and nothing else changes; then the systems run; then `maintain`.
pub open spec fn ticked(before: World, after: World, time: Time) -> bool {
    exists|timed: World|
        {
            &&& world_time(timed) == Some(time)
            &&& same_population(before, timed)
            &&& same_mail(before, timed)
            &&& #[trigger] ran(timed, after)
        }
}

/// What `get_entities_with` returns for a world: the entities that have a
/// component of the type, each once. An entity that a system created and
/// that `maintain` has not entered yet may be listed too.
pub open spec fn lists_holders<C: Stored>(w: SpecsWorld, found: Seq<Entity>) -> bool {
    &&& found.no_duplicates()
    &&& forall|i: int|
        0 <= i < found.len() ==> w.holds::<C>(#[trigger] found[i]) || world_raised(
            w.world,
        ).contains(found[i])
    &&& forall|e: Entity| w.holds::<C>(e) ==> found.contains(e)
}

impl SpecsWorld {
    /// The entities of the world.
    pub open spec fn entities(&self) -> Set<Entity> {
        world_members(self.world)
    }

    /// The components of each entity.
    pub open spec fn rows(&self) -> Map<Entity, ComponentInfo> {
        world_rows(self.world)
    }

    /// The entities that the next `maintain` removes.
    pub open spec fn doomed(&self) -> Set<Entity> {
        world_doomed(self.world)
    }

    /// The component kinds that are registered.
    pub open spec fn registered(&self) -> Set<ComponentKind> {
        world_registered(self.world)
    }

    /// How much waits for `maintain` beside the marks for removal: what
    /// systems created and queued while they ran.
    pub open spec fn pending(&self) -> nat {
        world_pending(self.world)
    }

    /// The world holds what a world is founded on: the table of entities
    /// and the queue of changes. A world from `new` does, and nothing in
    /// this library takes them away; `is_founded` tells.
    pub open spec fn wf(&self) -> bool {
        world_founded(self.world)
    }

    /// What waits for `maintain` can be carried out. A world from `new` is
    /// tidy, and this library and tame systems keep it so.
    pub open spec fn tidy(&self) -> bool {
        world_tidy(self.world)
    }

    /// The clock, if the world has one.
    pub open spec fn time(&self) -> Option<Time> {
        world_time(self.world)
    }

    /// The messages that wait in the queue of a channel, oldest first;
    /// `None` where the world has no such queue.
    pub open spec fn mail(&self, kind: MessageKind) -> Option<Seq<Message>> {
        world_mail(self.world, kind)
    }

    /// Whether the entity is one of the world's and has a component of the
    /// type.
    pub open spec fn holds<C: Stored>(&self, e: Entity) -> bool {
        self.rows().contains_key(e) && C::pick(self.rows()[e]).is_some()
    }

    /// A world without entities, registered components, clock or queues, in
    /// which nothing waits.
    pub fn new() -> (w: Self)
        ensures
            w.rows() == Map::<Entity, ComponentInfo>::empty(),
            w.entities() == Set::<Entity>::empty(),
            w.doomed() == Set::<Entity>::empty(),
            w.registered() == Set::<ComponentKind>::empty(),
            w.pending() == 0,
            world_raised(w.world) == Set::<Entity>::empty(),
            w.wf(),
            w.tidy(),
            w.time().is_none(),
            forall|k: MessageKind| w.mail(k).is_none(),
    {
        let w = SpecsWorld { world: world_new() };
        assert(w.rows() =~= Map::<Entity, ComponentInfo>::empty());
        w
    }

    /// Lets a registry register its component types: the world afterwards
    /// is what the registry's `register` makes of the world before.
    pub fn register_components<CR: ComponentRegistry>(&mut self)
        ensures
            CR::registers(old(self).world, final(self).world),
    {
        CR::register(&mut self.world)
    }

    /// Whether the world holds what a world is founded on.
    pub fn is_founded(&mut self) -> (r: bool)
        ensures
            r == old(self).wf(),
            final(self).world == old(self).world,
    {
        founded(&mut self.world)
    }

    /// Whether the component type is registered.
    pub fn is_registered<C: Stored + specs::Component + Send + Sync>(&mut self) -> (r: bool)
        ensures
            r == old(self).registered().contains(C::kind()),
            final(self).world == old(self).world,
    {
        world_is_registered::<C>(&mut self.world)
    }

    /// Makes the value the world's resource of its type. A second insert of
    /// the same type replaces the first.
    pub fn insert_resource<R: Resource>(&mut self, resource: R)
        ensures
            resource.held_in(final(self).world),
            R::only_this_differs(old(self).world, final(self).world),
            same_setup(old(self).world, final(self).world),
    {
        resource.install(&mut self.world);
    }

    /// A copy of the world's resource of the type; `None` if none was ever
    /// inserted.
    pub fn clone_resource<R: Inspect>(&mut self) -> (r: Option<R>)
        ensures
            r == R::current(old(self).world),
            final(self).world == old(self).world,
    {
        R::inspect(&mut self.world)
    }

    /// Puts a message at the back of the world's queue for its type. The
    /// result is `false`, and nothing changes, where the world has no such
    /// queue.
    pub fn enqueue_message<T: Payload + Send + Sync + 'static>(&mut self, message: T) -> (sent:
        bool)
        ensures
            sent == old(self).mail(T::channel()).is_some(),
            sent ==> final(self).mail(T::channel()) == Some(
                old(self).mail(T::channel()).unwrap().push(message.encode_spec()),
            ),
            !sent ==> final(self).world == old(self).world,
            same_mail_but(old(self).world, final(self).world, T::channel()),
            same_population(old(self).world, final(self).world),
            final(self).time() == old(self).time(),
    {
        if world_has_queue::<T>(&mut self.world) {
            let wire = message.encode();
            world_post::<T>(&mut self.world, wire);
            true
        } else {
            false
        }
    }

    /// Takes the oldest message out of the world's queue for the type.
    /// `None`, and nothing changes, where the world has no such queue or
    /// nothing waits in it.
    pub fn pop_message<T: Payload + Send + Sync + 'static>(&mut self) -> (r: Option<T>)
        ensures
            r == (match old(self).mail(T::channel()) {
                Some(waiting) => if waiting.len() > 0 {
                    T::decode_spec(waiting.first())
                } else {
                    None
                },
                None => None,
            }),
            final(self).mail(T::channel()) == (match old(self).mail(T::channel()) {
                Some(waiting) => if waiting.len() > 0 {
                    Some(waiting.drop_first())
                } else {
                    Some(waiting)
                },
                None => None,
            }),
            same_mail_but(old(self).world, final(self).world, T::channel()),
            same_population(old(self).world, final(self).world),
            final(self).time() == old(self).time(),
    {
        if !world_has_queue::<T>(&mut self.world) {
            return None;
        }
        match world_take::<T>(&mut self.world) {
            Some(wire) => T::decode(wire),
            None => None,
        }
    }

    /// Creates an entity with exactly the given components. Fails, and
    /// changes nothing, where the row holds a component of a kind that is
    /// not registered; kinds that the row does not hold need no storage.
    pub fn create_entity(&mut self, info: ComponentInfo) -> (r: Result<Entity, WorldError>)
        requires
            old(self).wf(),
        ensures
            r.is_ok() == fits_storages(info, old(self).registered()),
            r.is_err() ==> r == Err::<Entity, WorldError>(WorldError::UnregisteredComponent)
                && final(self).world == old(self).world,
            r.is_ok() ==> created(*old(self), *final(self), r.unwrap(), info),
    {
        if can_hold(&mut self.world, &info) {
            Ok(spawn(&mut self.world, info))
        } else {
            Err(WorldError::UnregisteredComponent)
        }
    }

    /// Whether the entity is one of the world's. An entity that is marked
    /// for removal is one until `maintain`.
    pub fn is_alive(&mut self, entity: Entity) -> (r: bool)
        requires
            old(self).wf(),
        ensures
            r == old(self).entities().contains(entity),
            final(self).world == old(self).world,
    {
        alive(&mut self.world, entity)
    }

    /// Marks the entity for removal at the next `maintain`. Until then it
    /// stays an entity of the world and keeps its components. Marking twice
    /// is marking once. Fails, and changes nothing, for an entity that is
    /// none of the world's.
    pub fn delete_entity(&mut self, entity: Entity) -> (r: Result<(), WorldError>)
        requires
            old(self).wf(),
        ensures
            r.is_ok() == old(self).entities().contains(entity),
            r.is_err() ==> r == Err::<(), WorldError>(WorldError::DeadEntity) && final(self).world
                == old(self).world,
            r.is_ok() ==> marked(*old(self), *final(self), entity),
    {
        if alive(&mut self.world, entity) {
            world_doom(&mut self.world, entity);
            Ok(())
        } else {
            Err(WorldError::DeadEntity)
        }
    }

    /// Removes the entities that are marked for removal, with their
    /// components. Where no system has left anything else to be done, that
    /// is all that happens. Else what systems created is entered and what
    /// they queued is carried out: of the entities that were not marked
    /// nothing is said then.
    pub fn maintain(&mut self)
        requires
            old(self).wf(),
            old(self).tidy(),
        ensures
            swept(old(self).world, final(self).world),
            maintained(*old(self), *final(self)),
    {
        world_maintain(&mut self.world);
    }

    /// The entity's component of the type, if it has one. Fails where the
    /// type is not registered.
    pub fn get_component<C: Stored + specs::Component + Clone + Send + Sync>(
        &mut self,
        entity: Entity,
    ) -> (r: Result<Option<C>, WorldError>)
        requires
            old(self).wf(),
        ensures
            final(self).world == old(self).world,
            r.is_ok() == old(self).registered().contains(C::kind()),
            r.is_err() ==> r == Err::<Option<C>, WorldError>(WorldError::UnregisteredComponent),
            r.is_ok() ==> r.unwrap() == (if old(self).rows().contains_key(entity) {
                C::pick(old(self).rows()[entity])
            } else {
                None
            }),
    {
        if world_is_registered::<C>(&mut self.world) {
            Ok(stored::<C>(&mut self.world, entity))
        } else {
            Err(WorldError::UnregisteredComponent)
        }
    }

    /// Replaces the entity's component of the type. An entity without such
    /// a component does not get one: that is `MissingComponent`, and nothing
    /// changes. The type is registered: to ask for the storage of a type
    /// that is not is a mistake in the setup, which `is_registered` tells
    /// beforehand.
    pub fn set_component_for_entity<C: Stored + specs::Component + Clone + Send + Sync>(
        &mut self,
        entity: Entity,
        component: C,
    ) -> (r: Result<(), WorldError>)
        requires
            old(self).wf(),
            old(self).registered().contains(C::kind()),
        ensures
            r == (if !old(self).holds::<C>(entity) {
                Err::<(), WorldError>(WorldError::MissingComponent)
            } else {
                Ok::<(), WorldError>(())
            }),
            r.is_err() ==> final(self).world == old(self).world,
            r.is_ok() ==> {
                &&& final(self).rows() == old(self).rows().insert(
                    entity,
                    C::put(old(self).rows()[entity], Some(component)),
                )
                &&& same_setup(old(self).world, final(self).world)
                &&& same_resources(old(self).world, final(self).world)
            },
    {
        match stored::<C>(&mut self.world, entity) {
            Some(_) => {
                world_store(&mut self.world, entity, component);
                Ok(())
            },
            None => Err(WorldError::MissingComponent),
        }
    }

    /// The entities that have a component of the type: each entity of the
    /// world that has one is in the result, and nothing is there twice.
    /// Where no system has left anything for `maintain`, everything in the
    /// result is an entity of the world and has one. Fails where the type
    /// is not registered.
    pub fn get_entities_with<C: Stored + specs::Component + Send + Sync>(&mut self) -> (r: Result<
        Vec<Entity>,
        WorldError,
    >)
        requires
            old(self).wf(),
        ensures
            final(self).world == old(self).world,
            r.is_ok() == old(self).registered().contains(C::kind()),
            r.is_err() ==> r == Err::<Vec<Entity>, WorldError>(WorldError::UnregisteredComponent),
            r.is_ok() ==> lists_holders::<C>(*old(self), r.unwrap()@),
    {
        if world_is_registered::<C>(&mut self.world) {
            Ok(world_holders::<C>(&mut self.world))
        } else {
            Err(WorldError::UnregisteredComponent)
        }
    }

    /// Runs a query of the user against the world: the result is what the
    /// query answers for this world and these arguments.
    pub fn query<Q: WorldQuery>(&self, args: Q::Args) -> (output: Q::Output)
        ensures
            Q::answers(self.world, args, output),
    {
        Q::query(&self.world, args)
    }

    /// Runs a command of the user against the world: the world afterwards
    /// and the result are what the command makes of this world and these
    /// arguments.
    pub fn command<C: WorldCommand>(&mut self, args: C::Args) -> (output: C::Output)
        ensures
            C::executes(old(self).world, args, final(self).world, output),
    {
        C::execute(&mut self.world, args)
    }

    /// Whether the world has a clock.
    pub fn has_clock(&mut self) -> (r: bool)
        ensures
            r == old(self).time().is_some(),
            final(self).world == old(self).world,
    {
        world_read_time(&mut self.world).is_some()
    }

    /// Sets the clock. The world has a clock: one is set up before the
    /// first tick, it is not made on the way, and to set a clock that is
    /// not there is a mistake in the setup, which `has_clock` tells
    /// beforehand.
    pub fn update_time(&mut self, time: Time)
        requires
            old(self).time().is_some(),
        ensures
            final(self).time() == Some(time),
            same_population(old(self).world, final(self).world),
            same_mail(old(self).world, final(self).world),
    {
        world_set_time(&mut self.world, time);
    }

    /// Which resource a run of the dispatcher would miss: where in the list
    /// of what its systems fetch the first one stands that the world does
    /// not hold. `None` where the world holds them all.
    pub fn missing_resource(&mut self, dispatcher: &Scheduled) -> (r: Option<usize>)
        ensures
            final(self).world == old(self).world,
            r.is_none() == dispatcher.fetches().subset_of(world_resources(old(self).world)),
            r.is_some() ==> r.unwrap() < dispatcher.fetched@.len() && !world_resources(
                old(self).world,
            ).contains(dispatcher.fetched@[r.unwrap() as int]) && forall|j: int|
                0 <= j < r.unwrap() ==> world_resources(old(self).world).contains(
                    #[trigger] dispatcher.fetched@[j],
                ),
    {
        first_missing(&mut self.world, &dispatcher.fetched)
    }

    /// Runs every system of the dispatcher once, then `maintain`, in this
    /// order. An entity that is marked for removal before the run is gone
    /// after it, and so is one that a system marks.
    ///
    /// Fails, and runs nothing, where the world lacks a resource that a
    /// system of the dispatcher fetches. That the systems are tame is the
    /// word of whoever built the dispatcher.
    pub fn run_with(&mut self, dispatcher: &mut Scheduled) -> (r: Result<(), WorldError>)
        requires
            old(self).wf(),
            old(self).tidy(),
            old(dispatcher).wf(),
            old(dispatcher).tame(),
        ensures
            final(self).wf(),
            final(self).tidy(),
            final(dispatcher).wf(),
            final(dispatcher).tame(),
            final(dispatcher).plan@ == old(dispatcher).plan@,
            r.is_ok() == old(dispatcher).fetches().subset_of(world_resources(old(self).world)),
            r.is_err() ==> r == Err::<(), WorldError>(WorldError::MissingResource) && final(self).world == old(self).world,
            r.is_ok() ==> ran(old(self).world, final(self).world),
            r.is_ok() ==> maintained(*old(self), *final(self)),
    {
        if !serves(&mut self.world, &dispatcher.fetched) {
            return Err(WorldError::MissingResource);
        }
        world_dispatch(&mut dispatcher.dispatcher, &mut self.world);
        let ghost between = self.world;
        world_maintain(&mut self.world);
        proof {
            assert(dispatched(old(self).world, between));
            assert(swept(between, self.world));
            assert forall|e: Entity| #[trigger] old(self).doomed().contains(e) implies !self.entities().contains(
                e,
            ) && !self.rows().contains_key(e) && !world_raised(self.world).contains(e) by {
                assert(world_doomed(between).contains(e));
            }
        }
        Ok(())
    }
}

/// An entity that is created and deleted before the end of a tick is in no
/// storage once the tick has ended: it is no entity of the world, it holds
/// no component of any type, and no list of the holders of a component
/// type has it.
pub proof fn lemma_created_then_deleted_is_gone<C: Stored>(
    start: SpecsWorld,
    with_entity: SpecsWorld,
    with_mark: SpecsWorld,
    end: SpecsWorld,
    e: Entity,
    info: ComponentInfo,
    found: Seq<Entity>,
)
    requires
        created(start, with_entity, e, info),
        marked(with_entity, with_mark, e),
        swept(with_mark.world, end.world),
        lists_holders::<C>(end, found),
    ensures
        !end.entities().contains(e),
        !end.holds::<C>(e),
        !found.contains(e),
{
    assert(with_mark.doomed().contains(e));
    if found.contains(e) {
        let i = choose|i: int| 0 <= i < found.len() && found[i] == e;
        assert(end.holds::<C>(found[i]) || world_raised(end.world).contains(found[i]));
    }
}

/// An entity that is not marked for removal comes through `maintain` with
/// the row it had, where no system has left anything else to be done.
pub proof fn lemma_unmarked_survive(before: SpecsWorld, after: SpecsWorld, e: Entity)
    requires
        swept(before.world, after.world),
        before.pending() == 0,
        before.entities().contains(e),
        !before.doomed().contains(e),
    ensures
        after.entities().contains(e),
        after.rows()[e] == before.rows()[e],
        after.registered() == before.registered(),
        after.time() == before.time(),
        after.pending() == 0,
{
}

} // verus!
