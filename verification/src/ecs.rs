//! The world of entities and what the library knows of it.
//!
//! Entities, component storages and resources live in a `specs::World`.
//! This module names what such a world holds and states, for each call that
//! the library makes into it, what the call does to those contents. Nothing
//! here is proved: the statements are read off the source of `specs` and
//! `shred`, and the rest of the library is proved from them.
//!
//! Every call takes the world by exclusive reference, so that no guard of a
//! storage or a resource is alive while it runs.
use vstd::prelude::*;
use specs::shred::ResourceId;
use specs::world::EntitiesRes;
use specs::{Builder, Dispatcher, Entity, Join, LazyUpdate, RunNow, World, WorldExt};
use specs::storage::MaskedStorage;
use crate::components::{
    AngularVelocity, ComponentInfo, ComponentKind, Counter, Player, Position, Rotation, Scale,
    SetVelocityIntent, ShaderParams, StayInsideBounds, Stored, StringContainer, TextureOverride,
    TreeRelationship, Velocity,
};
use crate::messages::{Message, MessageKind, Payload, WorldMsgQueue};
use crate::resources::Time;

verus! {

/// `specs::World`: entities, storages and resources. The proofs see it only
/// through the names below.
#[verifier::external_type_specification]
#[verifier::external_body]
pub struct ExWorld(World);

/// `specs::Entity`: an identifier with a generation. The proofs know
/// nothing of what is inside.
#[verifier::external_type_specification]
#[verifier::external_body]
pub struct ExEntity(Entity);

/// `specs::Dispatcher`: systems, ready to run. The proofs see it only
/// through `dispatcher_fetches`.
#[verifier::external_type_specification]
#[verifier::external_body]
pub struct ExDispatcher<'a, 'b>(Dispatcher<'a, 'b>);

/// `shred::ResourceId`: what a resource goes by in a world.
#[verifier::external_type_specification]
#[verifier::external_body]
pub struct ExResourceId(ResourceId);

/// `specs::DenseVecStorage`: the storage of the components that hold data.
#[verifier::external_type_specification]
#[verifier::external_body]
#[verifier::reject_recursive_types(T)]
pub struct ExDenseVecStorage<T>(specs::DenseVecStorage<T>);

/// `specs::NullStorage`: the storage of the markers, which hold no data.
#[verifier::external_type_specification]
#[verifier::external_body]
#[verifier::reject_recursive_types(T)]
pub struct ExNullStorage<T>(specs::NullStorage<T>);

/// The rows of the world: for each of its entities the components it
/// holds. The entities of the world are those that were created and
/// entered, and whose removal has not been carried out: those whose
/// generation is the one that the world has stored for their identifier.
pub uninterp spec fn world_rows(w: World) -> Map<Entity, ComponentInfo>;

/// The entities of the world that are marked for removal at the next
/// `maintain`.
pub uninterp spec fn world_doomed(w: World) -> Set<Entity>;

/// The component kinds for which the world has a storage.
pub uninterp spec fn world_registered(w: World) -> Set<ComponentKind>;

/// The clock resource of the world, if one was inserted.
pub uninterp spec fn world_time(w: World) -> Option<Time>;

/// The messages that wait in the world's queue for one channel, oldest
/// first; `None` where the world has no queue for the channel.
pub uninterp spec fn world_mail(w: World, kind: MessageKind) -> Option<Seq<Message>>;

/// How much waits for the next `maintain` beside the marks for removal of
/// the world's entities: entities that systems created while they ran, and
/// changes that systems queued. A world that only this library has worked
/// on has none of these.
pub uninterp spec fn world_pending(w: World) -> nat;

/// The resources that the world holds, storages, clock and queues among
/// them.
pub uninterp spec fn world_resources(w: World) -> Set<ResourceId>;

/// Whether the generation of an entity is a living one.
pub uninterp spec fn entity_live(e: Entity) -> bool;

/// The resources that the systems of a dispatcher fetch when they run, as
/// their accessors say.
pub uninterp spec fn dispatcher_fetches(d: Dispatcher<'static, 'static>) -> Set<ResourceId>;

/// The entities that systems created while they ran and that the next
/// `maintain` enters. They are none of the world's entities yet. Each has a
/// generation that no entity of its identifier had before.
pub uninterp spec fn world_raised(w: World) -> Set<Entity>;

/// Whether the world holds the table of entities, which `WorldExt::new`
/// inserts.
pub uninterp spec fn world_has_entities(w: World) -> bool;

/// Whether the world holds the queue of changes, which `WorldExt::new`
/// inserts.
pub uninterp spec fn world_has_changes(w: World) -> bool;

/// Whether what waits for `maintain` can be carried out: each mark for
/// removal stands on an entity of the world or on one that a system
/// created, and each change that a system queued does what a tame system
/// does (see `dispatcher_tame`). A world that only this library and tame
/// systems have worked on is tidy.
pub uninterp spec fn world_tidy(w: World) -> bool;

/// Whether the systems of a dispatcher are tame. A tame system does not
/// panic where it finds the resources that it fetches. It puts no resource
/// in the place of another, the table of entities least of all. It marks
/// for removal only entities of the world and entities that systems
/// created. The changes that it queues for `maintain` do the same, and they
/// remove no storage, clock, queue or other resource.
///
/// Nothing in the outside crate tells whether a system is tame: that is the
/// word of whoever wrote it.
pub uninterp spec fn dispatcher_tame(d: Dispatcher<'static, 'static>) -> bool;

/// Whether the world holds what `WorldExt::new` inserts and the calls below
/// rely on.
pub open spec fn world_founded(w: World) -> bool {
    world_has_entities(w) && world_has_changes(w)
}

/// The entities of a world.
pub open spec fn world_members(w: World) -> Set<Entity> {
    world_rows(w).dom()
}

/// Two worlds with the same queues, but perhaps for one channel.
pub open spec fn same_mail_but(a: World, b: World, kind: MessageKind) -> bool {
    forall|k: MessageKind| k != kind ==> world_mail(a, k) == world_mail(b, k)
}

/// Two worlds with the same queues.
pub open spec fn same_mail(a: World, b: World) -> bool {
    forall|k: MessageKind| world_mail(a, k) == world_mail(b, k)
}

/// Two worlds with the same clock and queues.
pub open spec fn same_resources(a: World, b: World) -> bool {
    &&& world_time(a) == world_time(b)
    &&& same_mail(a, b)
}

/// Two worlds that differ at most in rows, clock and queues: the marks for
/// removal and the storages are the same, the same waits for `maintain`,
/// and no resource is gone.
pub open spec fn same_setup(a: World, b: World) -> bool {
    &&& world_doomed(a) == world_doomed(b)
    &&& world_registered(a) == world_registered(b)
    &&& same_waiting(a, b)
    &&& same_base(a, b)
}

/// Two worlds in which the same waits for `maintain` beside the marks for
/// removal.
pub open spec fn same_waiting(a: World, b: World) -> bool {
    &&& world_pending(a) == world_pending(b)
    &&& world_raised(a) == world_raised(b)
    &&& world_tidy(a) == world_tidy(b)
}

/// Two worlds of which the second holds what the first holds of the things
/// that `WorldExt::new` inserts, and every other resource of the first.
pub open spec fn same_base(a: World, b: World) -> bool {
    &&& world_has_entities(a) == world_has_entities(b)
    &&& world_has_changes(a) == world_has_changes(b)
    &&& world_resources(a).subset_of(world_resources(b))
}

/// Two worlds with the same entities, rows, marks and storages.
pub open spec fn same_population(a: World, b: World) -> bool {
    &&& world_rows(a) == world_rows(b)
    &&& same_setup(a, b)
}

/// `World::new` of `specs::WorldExt`: a world without entities, storages,
/// clock or queues, in which nothing waits.
#[verifier::external_body]
pub(crate) fn world_new() -> (w: World)
    ensures
        world_members(w) == Set::<Entity>::empty(),
        world_doomed(w) == Set::<Entity>::empty(),
        world_registered(w) == Set::<ComponentKind>::empty(),
        world_pending(w) == 0,
        world_raised(w) == Set::<Entity>::empty(),
        world_tidy(w),
        world_founded(w),
        world_time(w).is_none(),
        forall|k: MessageKind| world_mail(w, k).is_none(),
{
    World::new()
}

/// Two worlds of which the second has a storage for one more component
/// kind, unless it had one, and nothing else is different.
pub open spec fn registered_one(before: World, after: World, kind: ComponentKind) -> bool {
    &&& world_registered(after) == world_registered(before).insert(kind)
    &&& world_rows(after) == world_rows(before)
    &&& world_doomed(after) == world_doomed(before)
    &&& same_waiting(before, after)
    &&& same_base(before, after)
    &&& same_resources(before, after)
}

/// `WorldExt::register` for `Position`: the world gets a storage for the
/// type unless it has one; nothing else changes.
#[verifier::external_body]
pub(crate) fn world_register_position(w: &mut World)
    ensures
        registered_one(*old(w), *final(w), ComponentKind::Position),
{
    w.register::<Position>();
}

/// `WorldExt::register` for `Rotation`: the world gets a storage for the
/// type unless it has one; nothing else changes.
#[verifier::external_body]
pub(crate) fn world_register_rotation(w: &mut World)
    ensures
        registered_one(*old(w), *final(w), ComponentKind::Rotation),
{
    w.register::<Rotation>();
}

/// `WorldExt::register` for `Scale`: the world gets a storage for the
/// type unless it has one; nothing else changes.
#[verifier::external_body]
pub(crate) fn world_register_scale(w: &mut World)
    ensures
        registered_one(*old(w), *final(w), ComponentKind::Scale),
{
    w.register::<Scale>();
}

/// `WorldExt::register` for `Velocity`: the world gets a storage for the
/// type unless it has one; nothing else changes.
#[verifier::external_body]
pub(crate) fn world_register_velocity(w: &mut World)
    ensures
        registered_one(*old(w), *final(w), ComponentKind::Velocity),
{
    w.register::<Velocity>();
}

/// `WorldExt::register` for `AngularVelocity`: the world gets a storage for the
/// type unless it has one; nothing else changes.
#[verifier::external_body]
pub(crate) fn world_register_angular_velocity(w: &mut World)
    ensures
        registered_one(*old(w), *final(w), ComponentKind::AngularVelocity),
{
    w.register::<AngularVelocity>();
}

/// `WorldExt::register` for `SetVelocityIntent`: the world gets a storage for the
/// type unless it has one; nothing else changes.
#[verifier::external_body]
pub(crate) fn world_register_set_velocity_intent(w: &mut World)
    ensures
        registered_one(*old(w), *final(w), ComponentKind::SetVelocityIntent),
{
    w.register::<SetVelocityIntent>();
}

/// `WorldExt::register` for `StayInsideBounds`: the world gets a storage for the
/// type unless it has one; nothing else changes.
#[verifier::external_body]
pub(crate) fn world_register_stay_inside_bounds(w: &mut World)
    ensures
        registered_one(*old(w), *final(w), ComponentKind::StayInsideBounds),
{
    w.register::<StayInsideBounds>();
}

/// `WorldExt::register` for `Player`: the world gets a storage for the
/// type unless it has one; nothing else changes.
#[verifier::external_body]
pub(crate) fn world_register_player(w: &mut World)
    ensures
        registered_one(*old(w), *final(w), ComponentKind::Player),
{
    w.register::<Player>();
}

/// `WorldExt::register` for `Counter`: the world gets a storage for the
/// type unless it has one; nothing else changes.
#[verifier::external_body]
pub(crate) fn world_register_counter(w: &mut World)
    ensures
        registered_one(*old(w), *final(w), ComponentKind::Counter),
{
    w.register::<Counter>();
}

/// `WorldExt::register` for `ShaderParams`: the world gets a storage for the
/// type unless it has one; nothing else changes.
#[verifier::external_body]
pub(crate) fn world_register_shader_params(w: &mut World)
    ensures
        registered_one(*old(w), *final(w), ComponentKind::ShaderParams),
{
    w.register::<ShaderParams>();
}

/// `WorldExt::register` for `TextureOverride`: the world gets a storage for the
/// type unless it has one; nothing else changes.
#[verifier::external_body]
pub(crate) fn world_register_texture_override(w: &mut World)
    ensures
        registered_one(*old(w), *final(w), ComponentKind::TextureOverride),
{
    w.register::<TextureOverride>();
}

/// `WorldExt::register` for `TreeRelationship`: the world gets a storage for the
/// type unless it has one; nothing else changes.
#[verifier::external_body]
pub(crate) fn world_register_tree_relationship(w: &mut World)
    ensures
        registered_one(*old(w), *final(w), ComponentKind::TreeRelationship),
{
    w.register::<TreeRelationship>();
}

/// `WorldExt::register` for `StringContainer`: the world gets a storage for the
/// type unless it has one; nothing else changes.
#[verifier::external_body]
pub(crate) fn world_register_string_container(w: &mut World)
    ensures
        registered_one(*old(w), *final(w), ComponentKind::StringContainer),
{
    w.register::<StringContainer>();
}

/// `World::has_value` of `shred`, asked for the storage of one component
/// type: whether the world has that storage. Without the storage no entity
/// holds a component of the type.
#[verifier::external_body]
pub(crate) fn world_is_registered<C: Stored + specs::Component + Send + Sync>(w: &mut World) -> (r:
    bool)
    ensures
        r == world_registered(*old(w)).contains(C::kind()),
        !r ==> forall|e: Entity| #[trigger]
            world_rows(*old(w)).contains_key(e) ==> C::pick(world_rows(*old(w))[e]).is_none(),
        *final(w) == *old(w),
{
    w.has_value::<MaskedStorage<C>>()
}

/// `WorldExt::create_entity` and `Builder::build` at once: a new entity,
/// which was none of the world's entities before and is one now. The call
/// fetches the table of entities and panics without it, so it is required. The rows
/// of the other entities stay as they are; of the new entity's row only
/// that it exists is claimed. The call panics when the identifiers run
/// out, which takes more entities than memory holds.
#[verifier::external_body]
pub(crate) fn world_create(w: &mut World) -> (e: Entity)
    requires
        world_founded(*old(w)),
    ensures
        !world_rows(*old(w)).contains_key(e),
        world_rows(*final(w)).dom() == world_rows(*old(w)).dom().insert(e),
        forall|x: Entity|
            x != e && world_rows(*old(w)).contains_key(x) ==> #[trigger] world_rows(*final(w))[x]
                == world_rows(*old(w))[x],
        same_setup(*old(w), *final(w)),
        same_resources(*old(w), *final(w)),
{
    w.create_entity().build()
}

/// `Storage::insert` on the storage of one component type: the row of an
/// entity of the world gets the component, in place of one it may have had;
/// for any other entity no row changes. `WorldExt::write_storage` panics
/// without a storage for the type and without the table of entities, so
/// both are required.
#[verifier::external_body]
pub(crate) fn world_store<C: Stored + specs::Component + Send + Sync>(
    w: &mut World,
    e: Entity,
    c: C,
)
    requires
        world_founded(*old(w)),
        world_registered(*old(w)).contains(C::kind()),
    ensures
        world_rows(*old(w)).contains_key(e) ==> world_rows(*final(w)) == world_rows(
            *old(w),
        ).insert(e, C::put(world_rows(*old(w))[e], Some(c))),
        !world_rows(*old(w)).contains_key(e) ==> world_rows(*final(w)) == world_rows(*old(w)),
        same_setup(*old(w), *final(w)),
        same_resources(*old(w), *final(w)),
{
    let _ = w.write_storage::<C>().insert(e, c);
}

/// `Storage::remove` on the storage of one component type: the row of an
/// entity of the world loses the component if it had one; for any other
/// entity no row changes. Requires what `world_store` requires, for the
/// same reason.
#[verifier::external_body]
pub(crate) fn world_clear<C: Stored + specs::Component + Send + Sync>(w: &mut World, e: Entity)
    requires
        world_founded(*old(w)),
        world_registered(*old(w)).contains(C::kind()),
    ensures
        world_rows(*old(w)).contains_key(e) ==> world_rows(*final(w)) == world_rows(
            *old(w),
        ).insert(e, C::put(world_rows(*old(w))[e], None)),
        !world_rows(*old(w)).contains_key(e) ==> world_rows(*final(w)) == world_rows(*old(w)),
        same_setup(*old(w), *final(w)),
        same_resources(*old(w), *final(w)),
{
    let _ = w.write_storage::<C>().remove(e);
}

/// `Storage::get` on the storage of one component type, and a clone of what
/// it finds: for an entity of the world, the component in its row. Of any
/// other entity nothing is claimed. Requires what `world_store` requires,
/// for the same reason.
#[verifier::external_body]
pub(crate) fn world_fetch<C: Stored + specs::Component + Clone + Send + Sync>(
    w: &mut World,
    e: Entity,
) -> (r: Option<C>)
    requires
        world_founded(*old(w)),
        world_registered(*old(w)).contains(C::kind()),
    ensures
        world_rows(*old(w)).contains_key(e) ==> r == C::pick(world_rows(*old(w))[e]),
        *final(w) == *old(w),
{
    w.read_storage::<C>().get(e).cloned()
}

/// The join of the entities with the storage of one component type: none
/// comes out twice, and every entity of the world with the component comes
/// out. Each entity that comes out is one of the world's and has the
/// component, or is one that a system created and `maintain` has not
/// entered yet. Requires what `world_store` requires, for the same reason.
#[verifier::external_body]
pub(crate) fn world_holders<C: Stored + specs::Component + Send + Sync>(w: &mut World) -> (r: Vec<
    Entity,
>)
    requires
        world_founded(*old(w)),
        world_registered(*old(w)).contains(C::kind()),
    ensures
        r@.no_duplicates(),
        forall|i: int|
            0 <= i < r@.len() ==> world_raised(*old(w)).contains(#[trigger] r@[i]) || (world_rows(
                *old(w),
            ).contains_key(r@[i]) && C::pick(world_rows(*old(w))[r@[i]]).is_some()),
        forall|e: Entity|
            world_rows(*old(w)).contains_key(e) && C::pick(world_rows(*old(w))[e]).is_some()
                ==> r@.contains(e),
        *final(w) == *old(w),
{
    (&w.entities(), &w.read_storage::<C>()).join().map(|(e, _)| e).collect()
}

/// `Generation::is_alive` on the generation of an entity. An entity with a
/// dead generation is an entity of no world: a world stores living
/// generations for its entities.
#[verifier::external_body]
pub(crate) fn entity_is_live(e: Entity) -> (r: bool)
    ensures
        r == entity_live(e),
        !r ==> forall|w: World| !(#[trigger] world_rows(w)).contains_key(e),
{
    e.gen().is_alive()
}

/// `WorldExt::is_alive`: whether the entity is one of the world's entities.
/// The call panics for an entity with a dead generation and without the
/// table of entities, so a living generation and the table are required.
#[verifier::external_body]
pub(crate) fn world_is_member(w: &mut World, e: Entity) -> (r: bool)
    requires
        world_founded(*old(w)),
        entity_live(e),
    ensures
        r == world_rows(*old(w)).contains_key(e),
        *final(w) == *old(w),
{
    w.is_alive(e)
}

/// `EntitiesRes::delete`: one of the world's entities is marked for
/// removal. It stays an entity of the world, and keeps its row, until
/// `maintain`. The call fetches the table of entities, so it is required.
#[verifier::external_body]
pub(crate) fn world_doom(w: &mut World, e: Entity)
    requires
        world_founded(*old(w)),
        world_rows(*old(w)).contains_key(e),
    ensures
        world_doomed(*final(w)) == world_doomed(*old(w)).insert(e),
        world_rows(*final(w)) == world_rows(*old(w)),
        world_registered(*final(w)) == world_registered(*old(w)),
        same_waiting(*old(w), *final(w)),
        same_base(*old(w), *final(w)),
        same_resources(*old(w), *final(w)),
{
    let _ = w.entities().delete(e);
}

/// `WorldExt::maintain`: every entity that was marked for removal is
/// removed, with its row, and is none of those that wait to be entered:
/// a generation that has died comes to no entity again. The entities that
/// systems created are entered and the changes that systems queued are
/// carried out.
///
/// The call fetches the table of entities and the queue of changes, and it
/// looks up every mark in the table: so the world is required to hold both
/// and to be tidy. In a tidy world the queued changes remove no resource
/// and leave the world tidy. Where nothing waited beside the marks, the
/// removal is all that happens.
#[verifier::external_body]
pub(crate) fn world_maintain(w: &mut World)
    requires
        world_founded(*old(w)),
        world_tidy(*old(w)),
    ensures
        forall|e: Entity| #[trigger]
            world_doomed(*old(w)).contains(e) ==> !world_rows(*final(w)).contains_key(e)
                && !world_raised(*final(w)).contains(e),
        world_founded(*final(w)),
        world_tidy(*final(w)),
        world_registered(*old(w)).subset_of(world_registered(*final(w))),
        world_resources(*old(w)).subset_of(world_resources(*final(w))),
        world_time(*old(w)).is_some() ==> world_time(*final(w)).is_some(),
        forall|k: MessageKind| #[trigger]
            world_mail(*old(w), k).is_some() ==> world_mail(*final(w), k).is_some(),
        world_pending(*old(w)) == 0 ==> {
            &&& world_rows(*final(w)) == world_rows(*old(w)).remove_keys(world_doomed(*old(w)))
            &&& world_doomed(*final(w)) == Set::<Entity>::empty()
            &&& world_registered(*final(w)) == world_registered(*old(w))
            &&& world_pending(*final(w)) == 0
            &&& world_raised(*final(w)) == Set::<Entity>::empty()
            &&& same_resources(*old(w), *final(w))
        },
{
    w.maintain();
}

/// `World::has_value` of `shred`, asked for the table of entities.
#[verifier::external_body]
pub(crate) fn world_holds_entities(w: &mut World) -> (r: bool)
    ensures
        r == world_has_entities(*old(w)),
        *final(w) == *old(w),
{
    w.has_value::<EntitiesRes>()
}

/// `World::has_value` of `shred`, asked for the queue of changes.
#[verifier::external_body]
pub(crate) fn world_holds_changes(w: &mut World) -> (r: bool)
    ensures
        r == world_has_changes(*old(w)),
        *final(w) == *old(w),
{
    w.has_value::<LazyUpdate>()
}

/// `World::has_value_raw` of `shred`: whether the world holds the resource.
#[verifier::external_body]
pub(crate) fn world_has_resource(w: &mut World, id: &ResourceId) -> (r: bool)
    ensures
        r == world_resources(*old(w)).contains(*id),
        *final(w) == *old(w),
{
    w.has_value_raw(id.clone())
}

/// `RunNow::run_now` of a dispatcher: every system runs once. A system
/// panics when it fetches a resource that the world lacks, so the world is
/// required to hold what the systems fetch.
///
/// Systems reach the world through shared access only. With that they
/// neither add nor remove a storage, a clock, a queue or any other
/// resource. What else they do is theirs: so the systems are required to
/// be tame. Then no entity of the world goes, no mark for removal is taken
/// back, and a tidy world stays tidy. Of the rows, the clock's value, the
/// queues' contents and of how much waits for `maintain` nothing is
/// claimed.
#[verifier::external_body]
pub(crate) fn world_dispatch(d: &mut Dispatcher<'static, 'static>, w: &mut World)
    requires
        dispatcher_fetches(*old(d)).subset_of(world_resources(*old(w))),
        dispatcher_tame(*old(d)),
    ensures
        dispatcher_fetches(*final(d)) == dispatcher_fetches(*old(d)),
        dispatcher_tame(*final(d)),
        world_registered(*final(w)) == world_registered(*old(w)),
        world_resources(*final(w)) == world_resources(*old(w)),
        world_has_entities(*final(w)) == world_has_entities(*old(w)),
        world_has_changes(*final(w)) == world_has_changes(*old(w)),
        world_time(*final(w)).is_some() == world_time(*old(w)).is_some(),
        forall|k: MessageKind| #[trigger]
            world_mail(*final(w), k).is_some() == world_mail(*old(w), k).is_some(),
        world_rows(*old(w)).dom().subset_of(world_rows(*final(w)).dom()),
        world_doomed(*old(w)).subset_of(world_doomed(*final(w))),
        world_tidy(*old(w)) ==> world_tidy(*final(w)),
{
    d.run_now(w);
}

/// `World::insert` of `shred` with a clock: the world's clock is the given
/// one, in place of one it may have had.
#[verifier::external_body]
pub(crate) fn world_set_time(w: &mut World, t: Time)
    ensures
        world_time(*final(w)) == Some(t),
        same_population(*old(w), *final(w)),
        same_mail(*old(w), *final(w)),
{
    w.insert(t);
}

/// `World::try_fetch` of `shred` for the clock, and a copy of what it finds.
#[verifier::external_body]
pub(crate) fn world_read_time(w: &mut World) -> (r: Option<Time>)
    ensures
        r == world_time(*old(w)),
        *final(w) == *old(w),
{
    w.try_fetch::<Time>().map(|t| *t)
}

/// `World::insert` of `shred` with a queue: the world's queue for the
/// payload's channel is the given one, in place of one it may have had.
#[verifier::external_body]
pub(crate) fn world_add_queue<T: Payload + Send + Sync + 'static>(
    w: &mut World,
    q: WorldMsgQueue<T>,
)
    ensures
        world_mail(*final(w), T::channel()) == Some(q.raw()),
        same_mail_but(*old(w), *final(w), T::channel()),
        same_population(*old(w), *final(w)),
        world_time(*final(w)) == world_time(*old(w)),
{
    w.insert(q);
}

/// `World::has_value` of `shred`, asked for the queue of one payload type:
/// whether the world has that queue.
#[verifier::external_body]
pub(crate) fn world_has_queue<T: Payload + Send + Sync + 'static>(w: &mut World) -> (r: bool)
    ensures
        r == world_mail(*old(w), T::channel()).is_some(),
        *final(w) == *old(w),
{
    w.has_value::<WorldMsgQueue<T>>()
}

/// `World::fetch` of `shred` for the queue of one payload type, and
/// `SegQueue::push` on it: the message goes to the back of that queue.
/// `fetch` panics without the queue, so it is required.
#[verifier::external_body]
pub(crate) fn world_post<T: Payload + Send + Sync + 'static>(w: &mut World, m: Message)
    requires
        world_mail(*old(w), T::channel()).is_some(),
    ensures
        world_mail(*final(w), T::channel()) == Some(
            world_mail(*old(w), T::channel()).unwrap().push(m),
        ),
        same_mail_but(*old(w), *final(w), T::channel()),
        same_population(*old(w), *final(w)),
        world_time(*final(w)) == world_time(*old(w)),
{
    w.fetch::<WorldMsgQueue<T>>().queue.push(m);
}

/// `World::fetch` of `shred` for the queue of one payload type, and
/// `SegQueue::pop` on it: the message at the front of that queue leaves it
/// and is returned; with nothing waiting, the result is `None` and nothing
/// changes. `fetch` panics without the queue, so it is required.
#[verifier::external_body]
pub(crate) fn world_take<T: Payload + Send + Sync + 'static>(w: &mut World) -> (r: Option<
    Message,
>)
    requires
        world_mail(*old(w), T::channel()).is_some(),
    ensures
        r == (if world_mail(*old(w), T::channel()).unwrap().len() > 0 {
            Some(world_mail(*old(w), T::channel()).unwrap().first())
        } else {
            None
        }),
        world_mail(*final(w), T::channel()) == (if world_mail(
            *old(w),
            T::channel(),
        ).unwrap().len() > 0 {
            Some(world_mail(*old(w), T::channel()).unwrap().drop_first())
        } else {
            world_mail(*old(w), T::channel())
        }),
        same_mail_but(*old(w), *final(w), T::channel()),
        same_population(*old(w), *final(w)),
        world_time(*final(w)) == world_time(*old(w)),
{
    w.fetch::<WorldMsgQueue<T>>().queue.pop()
}

} // verus!
