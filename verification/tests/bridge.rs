use gd_specs::{
    components_from, AngularVelocity, Color, ComponentInfo, Counter, Description, GDEntity,
    GDWorld, HostNode, Player, Position, Rotation, Scalar, Scale, SetVelocityIntent,
    ShaderParams, SpecsWorld, SpriteKind, StayInsideBounds, SyncReport, TextureOverride,
    Transform, TreeRelationship, Value, Vector2, Velocity, WorldError,
};
use specs::{Builder, WorldExt};

fn scalar(value: f32) -> Scalar {
    Scalar::from_bits(value.to_bits())
}

fn vector(x: f32, y: f32) -> Value {
    Value::Vector2(Vector2 { x: scalar(x), y: scalar(y) })
}

fn at(x: f32, y: f32) -> Transform {
    Transform { position: Position { x: scalar(x), y: scalar(y) }, rotation: None, scale: None }
}

fn node(x: f32, y: f32) -> HostNode {
    HostNode { transform: at(x, y), sprite: SpriteKind::Absent, children: Vec::new() }
}

fn color(r: f32, g: f32, b: f32, a: f32) -> Color {
    Color { r: scalar(r), g: scalar(g), b: scalar(b), a: scalar(a) }
}

fn idle() -> SyncReport {
    SyncReport {
        dispose: false,
        position: None,
        scale: None,
        rotation: None,
        texture: None,
        shader_params: None,
    }
}

#[test]
fn an_empty_description_gives_only_the_position() {
    let description = Description::new();
    let info = components_from(&description, &node(5.0, 6.0));
    let mut expected = ComponentInfo::empty();
    expected.position = Some(Position { x: scalar(5.0), y: scalar(6.0) });
    assert_eq!(info, expected);
}

#[test]
fn each_named_component_is_attached() {
    let mut description = Description::new();
    description.insert("Velocity".to_owned(), vector(3.0, 4.0));
    description.insert("AngularVelocity".to_owned(), Value::Real(scalar(1.5)));
    description.insert("Player".to_owned(), Value::Nil);
    description.insert("SetVelocityIntent".to_owned(), vector(9.0, 9.0));
    description.insert("StayInsideBounds".to_owned(), Value::Bool(true));
    description.insert("Counter".to_owned(), Value::Int(12));
    description.insert("TextureOverride".to_owned(), Value::Object(77));
    let host = HostNode {
        transform: Transform {
            position: Position { x: scalar(1.0), y: scalar(2.0) },
            rotation: Some(Rotation { radians: scalar(0.5) }),
            scale: Some(Scale { x: scalar(2.0), y: scalar(2.0) }),
        },
        sprite: SpriteKind::WithMaterial,
        children: Vec::new(),
    };
    let info = components_from(&description, &host);
    assert_eq!(info.position, Some(Position { x: scalar(1.0), y: scalar(2.0) }));
    assert_eq!(info.rotation, Some(Rotation { radians: scalar(0.5) }));
    assert_eq!(info.scale, Some(Scale { x: scalar(2.0), y: scalar(2.0) }));
    assert_eq!(info.velocity, Some(Velocity { x: scalar(3.0), y: scalar(4.0) }));
    assert_eq!(info.angular_velocity, Some(AngularVelocity { radians: scalar(1.5) }));
    assert_eq!(info.player, Some(Player));
    // The intent starts at zero, whatever the description holds under its name.
    assert_eq!(
        info.set_velocity_intent,
        Some(SetVelocityIntent { x: scalar(0.0), y: scalar(0.0) })
    );
    assert_eq!(info.stay_inside_bounds, Some(StayInsideBounds));
    assert_eq!(info.counter, Some(Counter(12)));
    assert_eq!(info.texture_override, Some(TextureOverride { texture: 77 }));
    // A player's foreground has a colour of its own.
    assert_eq!(
        info.shader_params,
        Some(ShaderParams { fg: color(0.789, 0.832, 0.0, 1.0), bg: color(0.0, 0.0, 0.0, 0.0) })
    );
    assert_eq!(info.tree, None);
    assert_eq!(info.text, None);
}

#[test]
fn values_of_the_wrong_shape_attach_nothing() {
    let mut description = Description::new();
    description.insert("Velocity".to_owned(), Value::Int(3));
    description.insert("AngularVelocity".to_owned(), vector(1.0, 1.0));
    description.insert("TextureOverride".to_owned(), Value::Nil);
    description.insert("Counter".to_owned(), Value::Text("many".to_owned()));
    let info = components_from(&description, &node(0.0, 0.0));
    assert_eq!(info.velocity, None);
    assert_eq!(info.angular_velocity, None);
    assert_eq!(info.texture_override, None);
    // A counter that is no integer starts at zero.
    assert_eq!(info.counter, Some(Counter(0)));
}

#[test]
fn a_counter_is_cut_to_32_bits() {
    let mut description = Description::new();
    description.insert("Counter".to_owned(), Value::Int(4_294_967_301));
    let info = components_from(&description, &node(0.0, 0.0));
    assert_eq!(info.counter, Some(Counter(5)));
    let mut description = Description::new();
    description.insert("Counter".to_owned(), Value::Int(-1));
    assert_eq!(components_from(&description, &node(0.0, 0.0)).counter, Some(Counter(-1)));
}

#[test]
fn a_sprite_without_material_gets_no_colours() {
    let description = Description::new();
    for sprite in [SpriteKind::Absent, SpriteKind::NotCanvasItem, SpriteKind::WithoutMaterial] {
        let host = HostNode { transform: at(0.0, 0.0), sprite, children: Vec::new() };
        assert_eq!(components_from(&description, &host).shader_params, None);
    }
    let host =
        HostNode { transform: at(0.0, 0.0), sprite: SpriteKind::WithMaterial, children: Vec::new() };
    assert_eq!(
        components_from(&description, &host).shader_params,
        Some(ShaderParams { fg: color(1.0, 1.0, 1.0, 1.0), bg: color(0.0, 0.0, 0.0, 0.0) })
    );
}

#[test]
fn create_then_synchronize_then_dispose_once() {
    let mut world = GDWorld::new();
    let mut entity = GDEntity::new();
    entity.set_component("Velocity", vector(3.0, 4.0));
    let e = entity.ready(&mut world, &node(99.0, 50.0)).expect("the entity is created");
    assert_eq!(entity.entity, Some(e));

    // While the entity lives, position and velocity come out unchanged.
    let report = entity.synchronize(&mut world.world).unwrap();
    assert!(!report.dispose);
    assert_eq!(report.position, Some(Position { x: scalar(99.0), y: scalar(50.0) }));
    assert_eq!(report.scale, None);
    assert_eq!(report.rotation, None);
    assert_eq!(entity.inner_components.get("Velocity"), Some(&vector(3.0, 4.0)));
    assert_eq!(
        world.world.get_component::<Velocity>(e),
        Ok(Some(Velocity { x: scalar(3.0), y: scalar(4.0) }))
    );

    // Marked for removal, the entity lives until the tick ends.
    world.delete_entity(e).unwrap();
    let report = entity.synchronize(&mut world.world).unwrap();
    assert!(!report.dispose);
    world.world.maintain();

    // Gone: one dispose signal, and the link is dropped.
    let report = entity.synchronize(&mut world.world).unwrap();
    assert!(report.dispose);
    assert_eq!(entity.entity, None);

    // From then on nothing happens.
    let report = entity.synchronize(&mut world.world).unwrap();
    assert_eq!(report, idle());
    assert_eq!(entity.entity, None);
}

#[test]
fn synchronize_without_an_entity_does_nothing() {
    let mut world = GDWorld::new();
    let mut entity = GDEntity::new();
    assert_eq!(entity.synchronize(&mut world.world), Ok(idle()));
    assert_eq!(entity.entity, None);
}

#[test]
fn synchronize_copies_the_world_into_the_description() {
    let mut world = GDWorld::new();
    let mut entity = GDEntity::new();
    entity.set_component("Counter", Value::Int(3));
    entity.set_component("Player", Value::Nil);
    entity.set_component("StayInsideBounds", Value::Nil);
    let e = entity.ready(&mut world, &node(1.0, 1.0)).unwrap();
    entity.synchronize(&mut world.world).unwrap();
    // A system changes the counter and the position.
    world.set_component_for_entity(e, Counter(8)).unwrap();
    world
        .set_component_for_entity(e, Position { x: scalar(7.0), y: scalar(8.0) })
        .unwrap();
    let report = entity.synchronize(&mut world.world).unwrap();
    assert_eq!(report.position, Some(Position { x: scalar(7.0), y: scalar(8.0) }));
    assert_eq!(entity.inner_components.get("Counter"), Some(&Value::Int(8)));
    assert_eq!(entity.inner_components.get("Player"), Some(&Value::Nil));
    assert_eq!(entity.inner_components.get("StayInsideBounds"), Some(&Value::Nil));
    // What the entity does not have is not made up.
    assert_eq!(entity.inner_components.get("Velocity"), None);
    assert_eq!(entity.inner_components.get("ShaderParams"), None);
}

#[test]
fn a_value_set_from_outside_wins_at_the_next_synchronization() {
    let mut world = GDWorld::new();
    let mut entity = GDEntity::new();
    entity.set_component("Velocity", vector(3.0, 4.0));
    let e = entity.ready(&mut world, &node(0.0, 0.0)).unwrap();
    entity.synchronize(&mut world.world).unwrap();
    assert!(!entity.edited);

    // The world changes the velocity, then the outside sets another one.
    world
        .set_component_for_entity(e, Velocity { x: scalar(-3.0), y: scalar(4.0) })
        .unwrap();
    entity.set_component("Velocity", vector(10.0, 0.0));
    entity.synchronize(&mut world.world).unwrap();
    assert_eq!(
        world.world.get_component::<Velocity>(e),
        Ok(Some(Velocity { x: scalar(10.0), y: scalar(0.0) }))
    );
    assert_eq!(entity.inner_components.get("Velocity"), Some(&vector(10.0, 0.0)));

    // Without a new value from outside, the world's value goes out.
    world
        .set_component_for_entity(e, Velocity { x: scalar(1.0), y: scalar(1.0) })
        .unwrap();
    entity.synchronize(&mut world.world).unwrap();
    assert_eq!(entity.inner_components.get("Velocity"), Some(&vector(1.0, 1.0)));
}

#[test]
fn what_is_set_before_ready_goes_before_the_editor() {
    let mut entity = GDEntity::new();
    entity.components.insert("Velocity".to_owned(), vector(1.0, 1.0));
    entity.components.insert("Counter".to_owned(), Value::Int(5));
    entity.set_component("Velocity", vector(3.0, 4.0));
    entity.adopt_editor_components();
    assert_eq!(entity.inner_components.get("Velocity"), Some(&vector(3.0, 4.0)));
    assert_eq!(entity.inner_components.get("Counter"), Some(&Value::Int(5)));
    // The editor's side is as it was.
    assert_eq!(entity.components.get("Velocity"), Some(&vector(1.0, 1.0)));
}

#[test]
fn on_world_updated_shows_the_editor_the_working_description() {
    let mut world = GDWorld::new();
    let mut entity = GDEntity::new();
    entity.set_component("Counter", Value::Int(3));
    let e = entity.ready(&mut world, &node(1.0, 1.0)).unwrap();
    world.set_component_for_entity(e, Counter(4)).unwrap();
    entity.on_world_updated(&mut world.world).unwrap();
    assert_eq!(entity.components.get("Counter"), Some(&Value::Int(4)));
}

fn leaf(transform: Transform) -> HostNode {
    HostNode { transform, sprite: SpriteKind::Absent, children: Vec::new() }
}

#[test]
fn children_become_entities_with_the_parent_above_them() {
    let mut world = GDWorld::new();
    let description = Description::new();
    let host = HostNode {
        transform: at(0.0, 0.0),
        sprite: SpriteKind::Absent,
        children: vec![
            leaf(Transform {
                position: Position { x: scalar(1.0), y: scalar(0.0) },
                rotation: Some(Rotation { radians: scalar(0.25) }),
                scale: Some(Scale { x: scalar(1.0), y: scalar(1.0) }),
            }),
            leaf(at(2.0, 0.0)),
        ],
    };
    let root = world.create_entity_from(&description, &host).unwrap();
    let tree = world.world.get_component::<TreeRelationship>(root).unwrap().unwrap();
    assert_eq!(tree.parent, None);
    assert_eq!(tree.children.len(), 2);
    let first = tree.children[0];
    let second = tree.children[1];
    assert_ne!(first, second);
    assert_ne!(first, root);
    assert_eq!(
        world.world.get_component::<Position>(first),
        Ok(Some(Position { x: scalar(1.0), y: scalar(0.0) }))
    );
    assert_eq!(
        world.world.get_component::<Rotation>(first),
        Ok(Some(Rotation { radians: scalar(0.25) }))
    );
    assert_eq!(
        world.world.get_component::<Position>(second),
        Ok(Some(Position { x: scalar(2.0), y: scalar(0.0) }))
    );
    assert_eq!(world.world.get_component::<Rotation>(second), Ok(None));
    for child in [first, second] {
        let relation = world.world.get_component::<TreeRelationship>(child).unwrap().unwrap();
        assert_eq!(relation.parent, Some(root));
        assert!(relation.children.is_empty());
    }
    assert_eq!(world.get_entities_with::<TreeRelationship>().unwrap().len(), 3);
}

#[test]
fn the_whole_tree_below_a_node_is_mirrored() {
    let mut world = GDWorld::new();
    let before = world.world.create_entity(ComponentInfo::empty()).unwrap();
    let mut description = Description::new();
    description.insert("Counter".to_owned(), Value::Int(1));
    let host = HostNode {
        transform: at(0.0, 0.0),
        sprite: SpriteKind::Absent,
        children: vec![
            HostNode {
                transform: at(1.0, 0.0),
                sprite: SpriteKind::WithMaterial,
                children: vec![
                    leaf(at(1.0, 1.0)),
                    HostNode {
                        transform: at(1.0, 2.0),
                        sprite: SpriteKind::Absent,
                        children: vec![leaf(at(1.0, 3.0))],
                    },
                ],
            },
            leaf(at(2.0, 0.0)),
        ],
    };
    let root = world.create_entity_from(&description, &host).unwrap();
    let tree_of = |world: &mut GDWorld, e| {
        world.world.get_component::<TreeRelationship>(e).unwrap().unwrap()
    };
    let position_of = |world: &mut GDWorld, e| {
        let p = world.world.get_component::<Position>(e).unwrap().unwrap();
        (f32::from_bits(p.x.bits), f32::from_bits(p.y.bits))
    };
    let top = tree_of(&mut world, root);
    assert_eq!(top.parent, None);
    assert_eq!(top.children.len(), 2);
    let (a, b) = (top.children[0], top.children[1]);
    assert_eq!(position_of(&mut world, a), (1.0, 0.0));
    assert_eq!(position_of(&mut world, b), (2.0, 0.0));
    assert_eq!(tree_of(&mut world, b), TreeRelationship { parent: Some(root), children: vec![] });
    let below_a = tree_of(&mut world, a);
    assert_eq!(below_a.parent, Some(root));
    assert_eq!(below_a.children.len(), 2);
    let (a1, a2) = (below_a.children[0], below_a.children[1]);
    assert_eq!(position_of(&mut world, a1), (1.0, 1.0));
    assert_eq!(position_of(&mut world, a2), (1.0, 2.0));
    assert_eq!(tree_of(&mut world, a1), TreeRelationship { parent: Some(a), children: vec![] });
    let below_a2 = tree_of(&mut world, a2);
    assert_eq!(below_a2.parent, Some(a));
    assert_eq!(below_a2.children.len(), 1);
    let a21 = below_a2.children[0];
    assert_eq!(position_of(&mut world, a21), (1.0, 3.0));
    assert_eq!(tree_of(&mut world, a21), TreeRelationship { parent: Some(a2), children: vec![] });
    // Six new entities, all different, beside the one that was there.
    let all = world.get_entities_with::<Position>().unwrap();
    assert_eq!(all.len(), 6);
    assert!(!all.contains(&before));
    assert!(world.world.is_alive(before));
    // Only the top entity has what the description names; a child's sprite is not read.
    assert_eq!(world.get_entities_with::<Counter>().unwrap(), vec![root]);
    assert_eq!(world.world.get_component::<ShaderParams>(a), Ok(None));
}

#[test]
fn deleting_a_parent_leaves_its_children() {
    let mut world = GDWorld::new();
    let host = HostNode {
        transform: at(0.0, 0.0),
        sprite: SpriteKind::Absent,
        children: vec![leaf(at(1.0, 0.0))],
    };
    let root = world.create_entity_from(&Description::new(), &host).unwrap();
    let tree = world.world.get_component::<TreeRelationship>(root).unwrap().unwrap();
    let child = tree.children[0];
    world.delete_entity(root).unwrap();
    world.world.maintain();
    assert!(!world.world.is_alive(root));
    assert!(world.world.is_alive(child));
    // The child still names its parent: the reference is weak.
    let relation = world.world.get_component::<TreeRelationship>(child).unwrap().unwrap();
    assert_eq!(relation.parent, Some(root));
}

#[test]
fn no_entity_is_created_in_a_world_without_storages() {
    let mut bare = GDWorld { world: SpecsWorld::new(), dispatcher: None };
    let mut entity = GDEntity::new();
    assert_eq!(entity.ready(&mut bare, &node(0.0, 0.0)), None);
    assert_eq!(entity.entity, None);
    assert_eq!(bare.create_entity_from(&Description::new(), &node(0.0, 0.0)), None);
}

#[test]
fn a_living_entity_in_a_world_without_storages_is_a_configuration_error() {
    let mut bare = SpecsWorld::new();
    let e = bare.world.create_entity().build();
    let mut entity = GDEntity::new();
    entity.entity = Some(e);
    // What is read needs no storage: the entity has no such component.
    assert_eq!(entity.synchronize(&mut bare), Ok(idle()));
    // What is to be copied into the world does.
    entity.set_component("Velocity", vector(1.0, 1.0));
    assert_eq!(entity.synchronize(&mut bare), Err(WorldError::UnregisteredComponent));
    assert_eq!(entity.entity, Some(e));
    assert!(entity.edited);
}
