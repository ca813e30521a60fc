//! The world as the presentation layer holds it: a world with a clock, the
//! components of the library, and a dispatcher to run each tick.
use vstd::prelude::*;
use specs::{Entity, World};
use crate::components::{
    core_kinds, fits_storages, register_components, AngularVelocity, Color, ComponentInfo,
    ComponentKind, Counter, Player, Position, Rotation, Scale, SetVelocityIntent, ShaderParams,
    StayInsideBounds, Stored, TextureOverride, TreeRelationship, Velocity,
};
use crate::dispatcher::Scheduled;
use crate::ecs::{
    world_founded, same_mail_but, same_population, same_resources, same_setup, world_dispatch, world_doomed,
    world_maintain, world_members, world_read_time, world_registered, world_resources,
    world_rows, world_set_time,
};
use crate::error::WorldError;
use crate::messages::{MessageKind, Payload};
use crate::resources::Time;
use crate::scalar::Scalar;
use crate::specs_world::{
    can_hold, dispatched, lists_holders, maintained, marked, ran, serves, settle, spawn, swept,
    ticked, Inspect, Resource, SpecsWorld,
};
use crate::value::{Description, Value, Vector2};

verus! {

/// What the presentation layer shows under the name `sprite` below a node.
#[derive(Clone, Copy, Debug, PartialEq, Eq, Structural)]
pub enum SpriteKind {
    /// There is no such child.
    Absent,
    /// There is one, but it cannot be drawn on.
    NotCanvasItem,
    /// There is one that can be drawn on, without a material.
    WithoutMaterial,
    /// There is one that can be drawn on, with a material.
    WithMaterial,
}

/// Where a node of the presentation layer stands. The position is always
/// given; rotation and scale are given where the world is to track them.
#[derive(Clone, Copy, Debug, PartialEq, Eq, Structural)]
pub struct Transform {
    pub position: Position,
    pub rotation: Option<Rotation>,
    pub scale: Option<Scale>,
}

/// What the library reads of a node of the presentation layer when it makes
/// an entity for it.
#[derive(Debug)]
pub struct HostNode {
    pub transform: Transform,
    pub sprite: SpriteKind,
    /// The child nodes that are to have entities of their own, in their
    /// order. Of a child the library reads the transform and the children.
    pub children: Vec<HostNode>,
}

/// The bit pattern of 1.0.
pub const ONE: u32 = 0x3f80_0000;

/// The bit pattern of 0.789, the red of a player's foreground.
pub const PLAYER_RED: u32 = 0x3f49_fbe7;

/// The bit pattern of 0.832, the green of a player's foreground.
pub const PLAYER_GREEN: u32 = 0x3f54_fdf4;

/// The foreground colour of an entity: white, or the player's own colour.
pub open spec fn foreground(player: bool) -> Color {
    if player {
        Color {
            r: Scalar { bits: PLAYER_RED },
            g: Scalar { bits: PLAYER_GREEN },
            b: Scalar { bits: 0 },
            a: Scalar { bits: ONE },
        }
    } else {
        Color {
            r: Scalar { bits: ONE },
            g: Scalar { bits: ONE },
            b: Scalar { bits: ONE },
            a: Scalar { bits: ONE },
        }
    }
}

/// The background colour of an entity: nothing at all.
pub open spec fn background() -> Color {
    Color {
        r: Scalar { bits: 0 },
        g: Scalar { bits: 0 },
        b: Scalar { bits: 0 },
        a: Scalar { bits: 0 },
    }
}

/// The velocity that a description names: one under `Velocity` that is a
/// vector.
pub open spec fn described_velocity(desc: Map<Seq<char>, Value>) -> Option<Velocity> {
    if desc.contains_key("Velocity"@) {
        match desc["Velocity"@] {
            Value::Vector2(v) => Some(Velocity { x: v.x, y: v.y }),
            _ => None,
        }
    } else {
        None
    }
}

/// The angular velocity that a description names: one under
/// `AngularVelocity` that is a real number.
pub open spec fn described_angular_velocity(desc: Map<Seq<char>, Value>) -> Option<
    AngularVelocity,
> {
    if desc.contains_key("AngularVelocity"@) {
        match desc["AngularVelocity"@] {
            Value::Real(x) => Some(AngularVelocity { radians: x }),
            _ => None,
        }
    } else {
        None
    }
}

/// The counter that a description names: the integer under `Counter`, cut
/// to 32 bits, or zero where the value is no integer.
pub open spec fn described_counter(desc: Map<Seq<char>, Value>) -> Option<Counter> {
    if desc.contains_key("Counter"@) {
        match desc["Counter"@] {
            Value::Int(n) => Some(Counter(n as i32)),
            _ => Some(Counter(0)),
        }
    } else {
        None
    }
}

/// The texture that a description names: one under `TextureOverride` that
/// is an object.
pub open spec fn described_texture(desc: Map<Seq<char>, Value>) -> Option<TextureOverride> {
    if desc.contains_key("TextureOverride"@) {
        match desc["TextureOverride"@] {
            Value::Object(id) => Some(TextureOverride { texture: id }),
            _ => None,
        }
    } else {
        None
    }
}

/// The components that an entity gets from its description and its node,
/// but for its place in the tree. A component that the description does not
/// name is absent.
pub open spec fn described_row(desc: Map<Seq<char>, Value>, node: HostNode) -> ComponentInfo {
    ComponentInfo {
        position: Some(node.transform.position),
        scale: node.transform.scale,
        rotation: node.transform.rotation,
        velocity: described_velocity(desc),
        angular_velocity: described_angular_velocity(desc),
        set_velocity_intent: if desc.contains_key("SetVelocityIntent"@) {
            Some(SetVelocityIntent { x: Scalar { bits: 0 }, y: Scalar { bits: 0 } })
        } else {
            None
        },
        stay_inside_bounds: if desc.contains_key("StayInsideBounds"@) {
            Some(StayInsideBounds)
        } else {
            None
        },
        player: if desc.contains_key("Player"@) {
            Some(Player)
        } else {
            None
        },
        counter: described_counter(desc),
        shader_params: if node.sprite == SpriteKind::WithMaterial {
            Some(
                ShaderParams { fg: foreground(desc.contains_key("Player"@)), bg: background() },
            )
        } else {
            None
        },
        texture_override: described_texture(desc),
        tree: None,
        text: None,
    }
}

/// Whether a row is that of the entity of a child node: it holds the node's
/// transform and a place in the tree, and nothing else.
pub open spec fn is_child_row(row: ComponentInfo, transform: Transform) -> bool {
    &&& row.position == Some(transform.position)
    &&& row.rotation == transform.rotation
    &&& row.scale == transform.scale
    &&& row.velocity.is_none()
    &&& row.angular_velocity.is_none()
    &&& row.set_velocity_intent.is_none()
    &&& row.stay_inside_bounds.is_none()
    &&& row.player.is_none()
    &&& row.counter.is_none()
    &&& row.shader_params.is_none()
    &&& row.texture_override.is_none()
    &&& row.text.is_none()
    &&& row.tree.is_some()
}

/// Whether the tree of entities below and with `e` mirrors the tree of nodes
/// below and with `node`: `e` is one of the entities in `inside`, its row is
/// that of the node, its parent is `parent`, it has as many children as the
/// node, no two the same, and each child mirrors the child node at its
/// place.
pub open spec fn mirrors(
    rows: Map<Entity, ComponentInfo>,
    inside: Set<Entity>,
    node: HostNode,
    e: Entity,
    parent: Option<Entity>,
) -> bool
    decreases node,
{
    &&& inside.contains(e)
    &&& rows.contains_key(e)
    &&& is_child_row(rows[e], node.transform)
    &&& rows[e].tree.unwrap().parent == parent
    &&& rows[e].tree.unwrap().children@.len() == node.children@.len()
    &&& rows[e].tree.unwrap().children@.no_duplicates()
    &&& forall|i: int|
        0 <= i < node.children@.len() ==> mirrors(
            rows,
            inside,
            #[trigger] node.children@[i],
            rows[e].tree.unwrap().children@[i],
            Some(e),
        )
}

/// Whether the entities of one world are entities of another with the rows
/// they had.
pub open spec fn kept(before: World, after: World) -> bool {
    forall|x: Entity| #[trigger]
        world_rows(before).contains_key(x) ==> world_rows(after).contains_key(x) && world_rows(
            after,
        )[x] == world_rows(before)[x]
}

/// The kinds that the row of a child node's entity can hold.
pub open spec fn child_kinds_registered(registered: Set<ComponentKind>) -> bool {
    &&& registered.contains(ComponentKind::Position)
    &&& registered.contains(ComponentKind::Rotation)
    &&& registered.contains(ComponentKind::Scale)
    &&& registered.contains(ComponentKind::TreeRelationship)
}

/// Whether a world can hold the entities of a node: there is a storage for
/// each component that the entity of the node gets, and, where the node has
/// children, for each kind that the row of a child can hold.
pub open spec fn can_be_created(
    desc: Map<Seq<char>, Value>,
    node: HostNode,
    registered: Set<ComponentKind>,
) -> bool {
    &&& fits_storages(described_row(desc, node), registered)
    &&& node.children@.len() > 0 ==> child_kinds_registered(registered)
}

/// A tree of entities that mirrors a tree of nodes still does so when rows
/// change outside of it.
pub proof fn lemma_mirrors_frame(
    rows1: Map<Entity, ComponentInfo>,
    rows2: Map<Entity, ComponentInfo>,
    inside1: Set<Entity>,
    inside2: Set<Entity>,
    node: HostNode,
    e: Entity,
    parent: Option<Entity>,
)
    requires
        mirrors(rows1, inside1, node, e, parent),
        inside1.subset_of(inside2),
        forall|x: Entity|
            inside1.contains(x) && rows1.contains_key(x) ==> rows2.contains_key(x) && rows2[x]
                == rows1[x],
    ensures
        mirrors(rows2, inside2, node, e, parent),
    decreases node,
{
    assert forall|i: int| 0 <= i < node.children@.len() implies mirrors(
        rows2,
        inside2,
        #[trigger] node.children@[i],
        rows2[e].tree.unwrap().children@[i],
        Some(e),
    ) by {
        lemma_mirrors_frame(
            rows1,
            rows2,
            inside1,
            inside2,
            node.children@[i],
            rows1[e].tree.unwrap().children@[i],
            Some(e),
        );
    }
}

/// Creates the entities for the children of a node, each with the entities
/// below it, and returns those of the children in the order of the nodes.
fn create_children(w: &mut World, node: &HostNode, parent: Entity) -> (kids: Vec<Entity>)
    requires
        world_founded(*old(w)),
        child_kinds_registered(world_registered(*old(w))),
        world_members(*old(w)).contains(parent),
    ensures
        kids@.len() == node.children@.len(),
        kids@.no_duplicates(),
        kept(*old(w), *final(w)),
        forall|j: int|
            0 <= j < kids@.len() ==> mirrors(
                world_rows(*final(w)),
                world_members(*final(w)).difference(world_members(*old(w))),
                #[trigger] node.children@[j],
                kids@[j],
                Some(parent),
            ),
        same_setup(*old(w), *final(w)),
        same_resources(*old(w), *final(w)),
    decreases node, 0nat,
{
    let ghost rooted = *w;
    let mut kids: Vec<Entity> = Vec::new();
    let mut i: usize = 0;
    while i < node.children.len()
        invariant
            i <= node.children@.len(),
            kids@.len() == i,
            kids@.no_duplicates(),
            world_founded(*w),
            child_kinds_registered(world_registered(*w)),
            same_setup(rooted, *w),
            same_resources(rooted, *w),
            world_members(rooted).contains(parent),
            kept(rooted, *w),
            forall|j: int|
                0 <= j < i ==> mirrors(
                    world_rows(*w),
                    world_members(*w).difference(world_members(rooted)),
                    #[trigger] node.children@[j],
                    kids@[j],
                    Some(parent),
                ),
        decreases node.children@.len() - i,
    {
        let ghost before = *w;
        let ghost seen = kids@;
        let kid = create_child(w, &node.children[i], parent);
        kids.push(kid);
        proof {
            assert forall|a: int, b: int|
                0 <= a < kids@.len() && 0 <= b < kids@.len() && a != b implies kids@[a]
                != kids@[b] by {
                if a < i {
                    assert(kids@[a] == seen[a]);
                    assert(mirrors(
                        world_rows(before),
                        world_members(before).difference(world_members(rooted)),
                        node.children@[a],
                        seen[a],
                        Some(parent),
                    ));
                    assert(world_members(before).contains(seen[a]));
                }
                if b < i {
                    assert(kids@[b] == seen[b]);
                    assert(mirrors(
                        world_rows(before),
                        world_members(before).difference(world_members(rooted)),
                        node.children@[b],
                        seen[b],
                        Some(parent),
                    ));
                    assert(world_members(before).contains(seen[b]));
                }
            }
            assert forall|j: int| 0 <= j < i + 1 implies mirrors(
                world_rows(*w),
                world_members(*w).difference(world_members(rooted)),
                #[trigger] node.children@[j],
                kids@[j],
                Some(parent),
            ) by {
                if j < i {
                    assert(kids@[j] == seen[j]);
                    assert forall|x: Entity|
                        world_members(before).difference(world_members(rooted)).contains(x)
                            && world_rows(before).contains_key(x) implies world_rows(
                        *w,
                    ).contains_key(x) && world_rows(*w)[x] == world_rows(before)[x] by {
                        assert(world_members(before).contains(x));
                    }
                    lemma_mirrors_frame(
                        world_rows(before),
                        world_rows(*w),
                        world_members(before).difference(world_members(rooted)),
                        world_members(*w).difference(world_members(rooted)),
                        node.children@[j],
                        kids@[j],
                        Some(parent),
                    );
                } else {
                    lemma_mirrors_frame(
                        world_rows(*w),
                        world_rows(*w),
                        world_members(*w).difference(world_members(before)),
                        world_members(*w).difference(world_members(rooted)),
                        node.children@[j],
                        kids@[j],
                        Some(parent),
                    );
                }
            }
            assert forall|x: Entity| #[trigger]
                world_members(rooted).contains(x) && world_rows(rooted).contains_key(
                    x,
                ) implies world_rows(*w).contains_key(x) && world_rows(*w)[x] == world_rows(
                rooted,
            )[x] by {
                assert(world_members(before).contains(x));
            }
        }
        i += 1;
    }
    kids
}

/// Creates the entity for a child node, with the entities below it.
fn create_child(w: &mut World, node: &HostNode, parent: Entity) -> (e: Entity)
    requires
        world_founded(*old(w)),
        child_kinds_registered(world_registered(*old(w))),
        world_members(*old(w)).contains(parent),
    ensures
        !world_members(*old(w)).contains(e),
        kept(*old(w), *final(w)),
        mirrors(
            world_rows(*final(w)),
            world_members(*final(w)).difference(world_members(*old(w))),
            *node,
            e,
            Some(parent),
        ),
        same_setup(*old(w), *final(w)),
        same_resources(*old(w), *final(w)),
    decreases node, 1nat,
{
    let mut row = ComponentInfo::empty();
    row.position = Some(node.transform.position);
    row.rotation = node.transform.rotation;
    row.scale = node.transform.scale;
    row.tree = Some(TreeRelationship { parent: Some(parent), children: Vec::new() });
    let e = spawn(w, row);
    let ghost rooted = *w;
    let kids = create_children(w, node, e);
    let ghost grown = *w;
    let ghost family = kids@;
    proof {
        assert(world_members(rooted).contains(e));
        assert(world_rows(grown).contains_key(e));
    }
    settle(w, e, Some(TreeRelationship { parent: Some(parent), children: kids }));
    proof {
        let fresh = world_members(*w).difference(world_members(*old(w)));
        assert forall|j: int| 0 <= j < node.children@.len() implies mirrors(
            world_rows(*w),
            fresh,
            #[trigger] node.children@[j],
            world_rows(*w)[e].tree.unwrap().children@[j],
            Some(e),
        ) by {
            assert forall|x: Entity|
                world_members(grown).difference(world_members(rooted)).contains(x) && world_rows(
                    grown,
                ).contains_key(x) implies world_rows(*w).contains_key(x) && world_rows(*w)[x]
                == world_rows(grown)[x] by {
                assert(x != e);
            }
            lemma_mirrors_frame(
                world_rows(grown),
                world_rows(*w),
                world_members(grown).difference(world_members(rooted)),
                fresh,
                node.children@[j],
                family[j],
                Some(e),
            );
        }
        assert forall|x: Entity| #[trigger]
            world_members(*old(w)).contains(x) && world_rows(*old(w)).contains_key(
                x,
            ) implies world_rows(*w).contains_key(x) && world_rows(*w)[x] == world_rows(
            *old(w),
        )[x] by {
            assert(x != e);
            assert(world_members(rooted).contains(x));
            assert(world_rows(rooted)[x] == world_rows(*old(w))[x]);
        }
    }
    e
}

/// The components that a description and a node name.
pub fn components_from(description: &Description, node: &HostNode) -> (info: ComponentInfo)
    ensures
        info == described_row(description@, *node),
{
    let player = description.contains_key("Player");
    let velocity = match description.get("Velocity") {
        Some(value) => match value.try_to_vector2() {
            Some(v) => Some(Velocity { x: v.x, y: v.y }),
            None => None,
        },
        None => None,
    };
    let angular_velocity = match description.get("AngularVelocity") {
        Some(value) => match value.try_to_real() {
            Some(x) => Some(AngularVelocity { radians: x }),
            None => None,
        },
        None => None,
    };
    let counter = match description.get("Counter") {
        Some(value) => match value.try_to_i64() {
            Some(n) => Some(Counter(#[verifier::truncate] (n as i32))),
            None => Some(Counter(0)),
        },
        None => None,
    };
    let texture_override = match description.get("TextureOverride") {
        Some(value) => match value.try_to_object() {
            Some(id) => Some(TextureOverride { texture: id }),
            None => None,
        },
        None => None,
    };
    let fg = if player {
        Color {
            r: Scalar { bits: PLAYER_RED },
            g: Scalar { bits: PLAYER_GREEN },
            b: Scalar { bits: 0 },
            a: Scalar { bits: ONE },
        }
    } else {
        Color {
            r: Scalar { bits: ONE },
            g: Scalar { bits: ONE },
            b: Scalar { bits: ONE },
            a: Scalar { bits: ONE },
        }
    };
    let bg = Color {
        r: Scalar { bits: 0 },
        g: Scalar { bits: 0 },
        b: Scalar { bits: 0 },
        a: Scalar { bits: 0 },
    };
    ComponentInfo {
        position: Some(node.transform.position),
        scale: node.transform.scale,
        rotation: node.transform.rotation,
        velocity,
        angular_velocity,
        set_velocity_intent: if description.contains_key("SetVelocityIntent") {
            Some(SetVelocityIntent { x: Scalar { bits: 0 }, y: Scalar { bits: 0 } })
        } else {
            None
        },
        stay_inside_bounds: if description.contains_key("StayInsideBounds") {
            Some(StayInsideBounds)
        } else {
            None
        },
        player: if player {
            Some(Player)
        } else {
            None
        },
        counter,
        shader_params: match node.sprite {
            SpriteKind::WithMaterial => Some(ShaderParams { fg, bg }),
            _ => None,
        },
        texture_override,
        tree: None,
        text: None,
    }
}

/// What the creation of the entities for a node makes of a world, where
/// `e` is the entity of the node itself.
///
/// The entity is new. Its row holds the node's transform and each
/// component that the description names, and no other. Without children
/// that is all. With children the entity stands at the top of a tree that
/// mirrors the tree of nodes: it has no parent, it has as many children as
/// the node, no two the same, and the tree of entities below each child
/// mirrors the tree of nodes below the child node at its place. The
/// entities that the world had keep their rows.
pub open spec fn grown(
    before: World,
    after: World,
    desc: Map<Seq<char>, Value>,
    node: HostNode,
    e: Entity,
) -> bool {
    let row = world_rows(after)[e];
    &&& !world_rows(before).contains_key(e)
    &&& world_rows(after).contains_key(e)
    &&& kept(before, after)
    &&& node.children@.len() == 0 ==> world_rows(after) == world_rows(before).insert(
        e,
        described_row(desc, node),
    )
    &&& node.children@.len() > 0 ==> {
        &&& (ComponentInfo { tree: None, ..row }) == described_row(desc, node)
        &&& row.tree.is_some()
        &&& row.tree.unwrap().parent.is_none()
        &&& row.tree.unwrap().children@.len() == node.children@.len()
        &&& row.tree.unwrap().children@.no_duplicates()
        &&& forall|i: int|
            0 <= i < node.children@.len() ==> mirrors(
                world_rows(after),
                world_members(after).difference(world_members(before).insert(e)),
                #[trigger] node.children@[i],
                row.tree.unwrap().children@[i],
                Some(e),
            )
    }
    &&& same_setup(before, after)
    &&& same_resources(before, after)
}

/// A world with the clock and the components of the library set up, and
/// perhaps a dispatcher.
pub struct GDWorld {
    pub world: SpecsWorld,
    pub dispatcher: Option<Scheduled>,
}

impl GDWorld {
    /// The world holds what a world is founded on and is tidy, and the
    /// dispatcher, if there is one, is as it was built and its systems are
    /// tame.
    pub open spec fn wf(&self) -> bool {
        &&& self.world.wf()
        &&& self.world.tidy()
        &&& self.dispatcher.is_some() ==> self.dispatcher.unwrap().wf()
            && self.dispatcher.unwrap().tame()
    }

    /// A world without entities, with the clock at zero, every component
    /// kind of the library registered, nothing waiting, and no dispatcher.
    pub fn new() -> (w: Self)
        ensures
            w.wf(),
            w.world.rows() == Map::<Entity, ComponentInfo>::empty(),
            w.world.doomed() == Set::<Entity>::empty(),
            w.world.registered() == core_kinds(),
            w.world.pending() == 0,
            w.world.time() == Some(Time { delta: Scalar { bits: 0 }, total: Scalar { bits: 0 } }),
            forall|k: MessageKind| w.world.mail(k).is_none(),
            w.dispatcher.is_none(),
    {
        let mut world = SpecsWorld::new();
        let ghost fresh = world;
        world_set_time(&mut world.world, Time::new());
        let ghost timed = world.world;
        register_components(&mut world.world);
        assert(world.registered() =~= core_kinds());
        assert forall|k: MessageKind| world.mail(k).is_none() by {
            assert(fresh.mail(k).is_none());
            assert(crate::ecs::world_mail(timed, k) == crate::ecs::world_mail(fresh.world, k));
        }
        GDWorld { world, dispatcher: None }
    }

    /// Makes the value the world's resource of its type. A second insert of
    /// the same type replaces the first.
    pub fn insert_resource<R: Resource>(&mut self, resource: R)
        requires
            old(self).wf(),
        ensures
            final(self).wf(),
            resource.held_in(final(self).world.world),
            R::only_this_differs(old(self).world.world, final(self).world.world),
            final(self).dispatcher == old(self).dispatcher,
    {
        self.world.insert_resource(resource);
    }

    /// A copy of the world's resource of the type; `None` if none was ever
    /// inserted.
    pub fn clone_resource<R: Inspect>(&mut self) -> (r: Option<R>)
        ensures
            r == R::current(old(self).world.world),
            *final(self) == *old(self),
    {
        self.world.clone_resource::<R>()
    }

    /// Puts a message at the back of the world's queue for its type. The
    /// result is `false`, and nothing changes, where the world has no such
    /// queue.
    pub fn enqueue_message<T: Payload + Send + Sync + 'static>(&mut self, message: T) -> (sent:
        bool)
        requires
            old(self).wf(),
        ensures
            final(self).wf(),
            sent == old(self).world.mail(T::channel()).is_some(),
            sent ==> final(self).world.mail(T::channel()) == Some(
                old(self).world.mail(T::channel()).unwrap().push(message.encode_spec()),
            ),
            !sent ==> final(self).world.world == old(self).world.world,
            same_mail_but(old(self).world.world, final(self).world.world, T::channel()),
            same_population(old(self).world.world, final(self).world.world),
            final(self).world.time() == old(self).world.time(),
            final(self).dispatcher == old(self).dispatcher,
    {
        self.world.enqueue_message(message)
    }

    /// Takes the oldest message out of the world's queue for the type.
    /// `None`, and nothing changes, where the world has no such queue or
    /// nothing waits in it.
    pub fn pop_message<T: Payload + Send + Sync + 'static>(&mut self) -> (r: Option<T>)
        requires
            old(self).wf(),
        ensures
            final(self).wf(),
            r == (match old(self).world.mail(T::channel()) {
                Some(waiting) => if waiting.len() > 0 {
                    T::decode_spec(waiting.first())
                } else {
                    None
                },
                None => None,
            }),
            final(self).world.mail(T::channel()) == (match old(self).world.mail(T::channel()) {
                Some(waiting) => if waiting.len() > 0 {
                    Some(waiting.drop_first())
                } else {
                    Some(waiting)
                },
                None => None,
            }),
            same_mail_but(old(self).world.world, final(self).world.world, T::channel()),
            same_population(old(self).world.world, final(self).world.world),
            final(self).world.time() == old(self).world.time(),
            final(self).dispatcher == old(self).dispatcher,
    {
        self.world.pop_message::<T>()
    }

    /// Gives the world the dispatcher that `run` runs, with the plan it was
    /// built from, in place of one it may have had. That the systems are
    /// tame is the word of whoever hands the dispatcher in.
    pub fn set_dispatcher(&mut self, dispatcher: Scheduled)
        requires
            old(self).wf(),
            dispatcher.wf(),
            dispatcher.tame(),
        ensures
            final(self).dispatcher == Some(dispatcher),
            final(self).wf(),
            final(self).world == old(self).world,
    {
        self.dispatcher = Some(dispatcher)
    }

    /// Replaces the entity's component of the type. An entity without such
    /// a component does not get one: that is `MissingComponent`, and nothing
    /// changes. The type is registered: to ask for the storage of a type
    /// that is not is a mistake in the setup.
    pub fn set_component_for_entity<C: Stored + specs::Component + Clone + Send + Sync>(
        &mut self,
        entity: Entity,
        component: C,
    ) -> (r: Result<(), WorldError>)
        requires
            old(self).wf(),
            old(self).world.registered().contains(C::kind()),
        ensures
            final(self).wf(),
            r == (if !old(self).world.holds::<C>(entity) {
                Err::<(), WorldError>(WorldError::MissingComponent)
            } else {
                Ok::<(), WorldError>(())
            }),
            r.is_err() ==> final(self).world.world == old(self).world.world,
            r.is_ok() ==> {
                &&& final(self).world.rows() == old(self).world.rows().insert(
                    entity,
                    C::put(old(self).world.rows()[entity], Some(component)),
                )
                &&& same_setup(old(self).world.world, final(self).world.world)
                &&& same_resources(old(self).world.world, final(self).world.world)
            },
            final(self).dispatcher == old(self).dispatcher,
    {
        self.world.set_component_for_entity(entity, component)
    }

    /// The entities that have a component of the type: each entity of the
    /// world that has one is in the result, and nothing is there twice.
    /// Where no system has left anything for `maintain`, everything in the
    /// result is an entity of the world and has one. Fails where the type
    /// is not registered.
    pub fn get_entities_with<C: Stored + specs::Component + Send + Sync>(&mut self) -> (r: Result<
        Vec<Entity>,
        WorldError,
    >)
        requires
            old(self).wf(),
        ensures
            final(self).wf(),
            final(self).world.world == old(self).world.world,
            final(self).dispatcher == old(self).dispatcher,
            r.is_ok() == old(self).world.registered().contains(C::kind()),
            r.is_err() ==> r == Err::<Vec<Entity>, WorldError>(WorldError::UnregisteredComponent),
            r.is_ok() ==> lists_holders::<C>(old(self).world, r.unwrap()@),
    {
        self.world.get_entities_with::<C>()
    }

    /// Marks the entity for removal at the end of the next tick. Until then
    /// it stays an entity of the world. Fails, and changes nothing, for an
    /// entity that is none of the world's.
    pub fn delete_entity(&mut self, entity: Entity) -> (r: Result<(), WorldError>)
        requires
            old(self).wf(),
        ensures
            final(self).wf(),
            r.is_ok() == old(self).world.entities().contains(entity),
            r.is_err() ==> r == Err::<(), WorldError>(WorldError::DeadEntity) && final(self).world.world == old(self).world.world,
            r.is_ok() ==> marked(old(self).world, final(self).world, entity),
            final(self).dispatcher == old(self).dispatcher,
    {
        self.world.delete_entity(entity)
    }

    /// Creates the entity for a node of the presentation layer.
    ///
    /// The entity gets the node's transform and each component that the
    /// description names, and no other. Where the node has children, an
    /// entity is created for each node below it, with that node's transform
    /// and a place in the tree: the entity of its parent node above it and
    /// the entities of its child nodes below it, in the order of the nodes.
    /// The new entity stands at the top, without a parent. Without children
    /// it gets no place in a tree.
    ///
    /// The entities that the world had keep their rows. `grown` says all of
    /// this.
    ///
    /// Fails, and changes nothing, where a component that the entity gets is
    /// of a kind that is not registered, or, with children, a kind that the
    /// row of a child can hold.
    pub fn create_entity_from(&mut self, description: &Description, node: &HostNode) -> (r:
        Option<Entity>)
        requires
            old(self).wf(),
        ensures
            final(self).wf(),
            final(self).dispatcher == old(self).dispatcher,
            r.is_some() == can_be_created(description@, *node, old(self).world.registered()),
            r.is_none() ==> final(self).world.world == old(self).world.world,
            r.is_some() ==> grown(
                old(self).world.world,
                final(self).world.world,
                description@,
                *node,
                r.unwrap(),
            ),
    {
        let info = components_from(description, node);
        if !can_hold(&mut self.world.world, &info) {
            return None;
        }
        if node.children.len() > 0 && !(self.world.is_registered::<Position>()
            && self.world.is_registered::<Rotation>() && self.world.is_registered::<Scale>()
            && self.world.is_registered::<TreeRelationship>()) {
            return None;
        }
        let root = spawn(&mut self.world.world, info);
        let ghost rooted = self.world.world;
        proof {
            assert forall|x: Entity| #[trigger]
                world_members(old(self).world.world).contains(x) && world_rows(
                    old(self).world.world,
                ).contains_key(x) implies world_rows(rooted).contains_key(x) && world_rows(
                rooted,
            )[x] == world_rows(old(self).world.world)[x] by {
                assert(x != root);
            }
        }
        if node.children.len() == 0 {
            return Some(root);
        }
        let kids = create_children(&mut self.world.world, node, root);
        let ghost grown = self.world.world;
        let ghost family = kids@;
        proof {
            assert(world_members(rooted).contains(root));
            assert(world_rows(grown).contains_key(root));
            assert(world_rows(grown)[root] == world_rows(rooted)[root]);
        }
        settle(&mut self.world.world, root, Some(TreeRelationship { parent: None, children: kids }));
        proof {
            let now = self.world.world;
            let fresh = world_members(now).difference(
                world_members(old(self).world.world).insert(root),
            );
            assert(world_members(rooted) =~= world_members(old(self).world.world).insert(root));
            assert forall|i: int| 0 <= i < node.children@.len() implies mirrors(
                world_rows(now),
                fresh,
                #[trigger] node.children@[i],
                world_rows(now)[root].tree.unwrap().children@[i],
                Some(root),
            ) by {
                assert forall|x: Entity|
                    world_members(grown).difference(world_members(rooted)).contains(x)
                        && world_rows(grown).contains_key(x) implies world_rows(now).contains_key(
                    x,
                ) && world_rows(now)[x] == world_rows(grown)[x] by {
                    assert(x != root);
                }
                lemma_mirrors_frame(
                    world_rows(grown),
                    world_rows(now),
                    world_members(grown).difference(world_members(rooted)),
                    fresh,
                    node.children@[i],
                    family[i],
                    Some(root),
                );
            }
            assert forall|x: Entity| #[trigger]
                world_members(old(self).world.world).contains(x) && world_rows(
                    old(self).world.world,
                ).contains_key(x) implies world_rows(now).contains_key(x) && world_rows(now)[x]
                == world_rows(old(self).world.world)[x] by {
                assert(x != root);
                assert(world_members(rooted).contains(x));
            }
        }
        Some(root)
    }

    /// One tick: the clock is set, every system of the dispatcher runs once,
    /// and the entities that are marked for removal are removed, in this
    /// order and each once. An `Ok` says that the tick is completed: only
    /// then is the world to be shown to anyone.
    ///
    /// Without a dispatcher nothing happens. Nothing happens either where
    /// the world lacks the clock or a resource that a system of the
    /// dispatcher fetches: the tick is refused before anything runs.
    ///
    /// An entity that is marked for removal before the tick is gone after
    /// it: it is no entity of the world, holds no component, and no list of
    /// holders has it. What else the tick leaves is the systems' doing. The
    /// world is valid afterwards, so the next tick can follow.
    ///
    /// A valid world has tame systems (`wf`): that is a premise which the
    /// library takes from whoever handed the dispatcher in.
    pub fn run(&mut self, time: Time) -> (r: Result<(), WorldError>)
        requires
            old(self).wf(),
        ensures
            final(self).wf(),
            r == (if old(self).dispatcher.is_none() {
                Err::<(), WorldError>(WorldError::NoDispatcher)
            } else if old(self).world.time().is_none() || !old(self).dispatcher.unwrap().fetches().subset_of(world_resources(old(self).world.world)) {
                Err::<(), WorldError>(WorldError::MissingResource)
            } else {
                Ok::<(), WorldError>(())
            }),
            r.is_err() ==> final(self).world.world == old(self).world.world,
            final(self).dispatcher.is_some() == old(self).dispatcher.is_some(),
            final(self).dispatcher.is_some() ==> final(self).dispatcher.unwrap().plan@ == old(self).dispatcher.unwrap().plan@,
            r.is_ok() ==> ticked(old(self).world.world, final(self).world.world, time),
            r.is_ok() ==> maintained(old(self).world, final(self).world),
    {
        match &mut self.dispatcher {
            None => Err(WorldError::NoDispatcher),
            Some(scheduled) => {
                if world_read_time(&mut self.world.world).is_none() {
                    return Err(WorldError::MissingResource);
                }
                if !serves(&mut self.world.world, &scheduled.fetched) {
                    return Err(WorldError::MissingResource);
                }
                world_set_time(&mut self.world.world, time);
                let ghost timed = self.world.world;
                world_dispatch(&mut scheduled.dispatcher, &mut self.world.world);
                let ghost between = self.world.world;
                world_maintain(&mut self.world.world);
                proof {
                    assert(dispatched(timed, between));
                    assert(swept(between, self.world.world));
                    assert(ran(timed, self.world.world));
                    assert forall|e: Entity| #[trigger]
                        old(self).world.doomed().contains(e) implies !self.world.entities().contains(
                        e,
                    ) && !self.world.rows().contains_key(e) by {
                        assert(world_doomed(timed).contains(e));
                        assert(world_doomed(between).contains(e));
                    }
                }
                Ok(())
            },
        }
    }
}

} // verus!
