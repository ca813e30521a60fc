use gd_specs::spawner::{child_slot, children_required, ENTITIES_PER_CHILD};
use gd_specs::{
    register_components, AngularVelocity, ComponentRegistry, ComponentInfo, CoreComponents, CreateEntityFromComponentInfo, Counter,
    Description, EntityNode2D, EntitySprite, GDEntity, Position, Scalar, Scale,
    SetVelocityIntent, SpecsWorld, Time, Value, Vector2, Velocity, WorldCommand, WorldRegistry,
};

fn scalar(value: f32) -> Scalar {
    Scalar::from_bits(value.to_bits())
}

fn vector(x: f32, y: f32) -> Vector2 {
    Vector2 { x: scalar(x), y: scalar(y) }
}

#[test]
fn a_scalar_keeps_its_bits() {
    assert_eq!(Scalar::from_bits(0x3f80_0000).to_bits(), 0x3f80_0000);
    assert_eq!(f32::from_bits(scalar(-312.0).to_bits()), -312.0);
    assert_eq!(f32::from_bits(Scalar::zero().to_bits()), 0.0);
    assert!(f32::from_bits(scalar(f32::NAN).to_bits()).is_nan());
}

#[test]
fn the_clock_starts_at_zero() {
    let time = Time::new();
    assert_eq!(f32::from_bits(time.delta.bits), 0.0);
    assert_eq!(f32::from_bits(time.total.bits), 0.0);
    assert_eq!(Time::default(), time);
}

#[test]
fn a_description_is_a_map() {
    let mut description = Description::new();
    assert!(!description.contains_key("Velocity"));
    assert_eq!(description.get("Velocity"), None);
    description.insert("Velocity".to_owned(), Value::Int(1));
    description.insert("Counter".to_owned(), Value::Int(2));
    description.insert("Velocity".to_owned(), Value::Int(3));
    assert_eq!(description.get("Velocity"), Some(&Value::Int(3)));
    assert_eq!(description.get("Counter"), Some(&Value::Int(2)));
    assert_eq!(description.get("velocity"), None);
    assert_eq!(description.get(""), None);
    // A name is held once.
    assert_eq!(description.entries.len(), 2);
    let copy = description.duplicate();
    assert_eq!(copy.get("Velocity"), Some(&Value::Int(3)));
    assert_eq!(copy.get("Counter"), Some(&Value::Int(2)));
}

#[test]
fn a_later_entry_goes_before_an_earlier_one() {
    let description = Description {
        entries: vec![
            gd_specs::Entry { key: "a".to_owned(), value: Value::Int(1) },
            gd_specs::Entry { key: "a".to_owned(), value: Value::Int(2) },
        ],
    };
    assert_eq!(description.get("a"), Some(&Value::Int(2)));
    let mut entity = GDEntity::new();
    entity.components = description;
    entity.adopt_editor_components();
    assert_eq!(entity.inner_components.get("a"), Some(&Value::Int(2)));
}

#[test]
fn values_give_what_they_are() {
    assert_eq!(Value::Vector2(vector(1.0, 2.0)).try_to_vector2(), Some(vector(1.0, 2.0)));
    assert_eq!(Value::Int(1).try_to_vector2(), None);
    assert_eq!(Value::Int(-4).try_to_i64(), Some(-4));
    assert_eq!(Value::Real(scalar(4.0)).try_to_i64(), None);
    assert_eq!(Value::Real(scalar(4.0)).try_to_real(), Some(scalar(4.0)));
    assert_eq!(Value::Object(9).try_to_object(), Some(9));
    assert_eq!(Value::Nil.try_to_object(), None);
    assert_eq!(Value::Text("t".to_owned()).duplicate(), Value::Text("t".to_owned()));
}

#[test]
fn components_and_vectors_convert() {
    let v = vector(3.0, 4.0);
    assert_eq!(Position::from(&v), Position { x: scalar(3.0), y: scalar(4.0) });
    assert_eq!(Scale::from(&v), Scale { x: scalar(3.0), y: scalar(4.0) });
    assert_eq!(Velocity::from(&v), Velocity { x: scalar(3.0), y: scalar(4.0) });
    assert_eq!(SetVelocityIntent::from(&v), SetVelocityIntent { x: scalar(3.0), y: scalar(4.0) });
    assert_eq!(Vector2::from(&Position { x: scalar(3.0), y: scalar(4.0) }), v);
    assert_eq!(Vector2::from(&Scale { x: scalar(3.0), y: scalar(4.0) }), v);
    assert_eq!(Vector2::from(&Velocity { x: scalar(3.0), y: scalar(4.0) }), v);
    assert_eq!(AngularVelocity::from(scalar(0.5)), AngularVelocity { radians: scalar(0.5) });
}

#[test]
fn values_convert_to_components_or_say_why_not() {
    let v = Value::Vector2(vector(3.0, 4.0));
    assert_eq!(Velocity::try_from(&v), Ok(Velocity { x: scalar(3.0), y: scalar(4.0) }));
    assert_eq!(
        SetVelocityIntent::try_from(&v),
        Ok(SetVelocityIntent { x: scalar(3.0), y: scalar(4.0) })
    );
    assert_eq!(Velocity::try_from(&Value::Int(3)), Err("Variant cannot be converted to f64"));
    assert_eq!(
        SetVelocityIntent::try_from(&Value::Nil),
        Err("Variant cannot be converted to f64")
    );
    assert_eq!(
        AngularVelocity::try_from(&Value::Real(scalar(1.0))),
        Ok(AngularVelocity { radians: scalar(1.0) })
    );
    assert_eq!(AngularVelocity::try_from(&v), Err("Variant cannot be converted to f64"));
}

#[test]
fn a_description_gives_three_components_by_value() {
    let mut description = Description::new();
    description.insert("Velocity".to_owned(), Value::Vector2(vector(3.0, 4.0)));
    description.insert("AngularVelocity".to_owned(), Value::Real(scalar(1.0)));
    description.insert("SetVelocityIntent".to_owned(), Value::Int(1));
    description.insert("Counter".to_owned(), Value::Int(1));
    let info = ComponentInfo::from(&description);
    let mut expected = ComponentInfo::empty();
    expected.velocity = Some(Velocity { x: scalar(3.0), y: scalar(4.0) });
    expected.angular_velocity = Some(AngularVelocity { radians: scalar(1.0) });
    assert_eq!(info, expected);
    assert_eq!(ComponentInfo::from_description(&Description::new()), ComponentInfo::empty());
}

#[test]
fn the_empty_row_has_nothing() {
    let info = ComponentInfo::empty();
    assert_eq!(info.position, None);
    assert_eq!(info.scale, None);
    assert_eq!(info.rotation, None);
    assert_eq!(info.velocity, None);
    assert_eq!(info.angular_velocity, None);
    assert_eq!(info.set_velocity_intent, None);
    assert_eq!(info.counter, None);
    assert_eq!(info.tree, None);
}

#[test]
fn the_command_creates_an_entity_from_its_components() {
    let mut world = SpecsWorld::new();
    let mut info = ComponentInfo::empty();
    info.counter = Some(Counter(3));
    assert_eq!(world.command::<CreateEntityFromComponentInfo>(info.clone()), None);
    world.register_components::<CoreComponents>();
    let e = world.command::<CreateEntityFromComponentInfo>(info.clone()).unwrap();
    assert_eq!(world.get_component::<Counter>(e), Ok(Some(Counter(3))));
    let other = CreateEntityFromComponentInfo::execute(&mut world.world, info).unwrap();
    assert_ne!(e, other);
}

#[test]
fn nodes_know_whether_they_have_an_entity() {
    let mut world = SpecsWorld::new();
    world.register_components::<CoreComponents>();
    let e = world.create_entity(ComponentInfo::empty()).unwrap();
    let mut node = EntityNode2D::new();
    assert!(!node.has_entity());
    assert!(node.entity().is_none());
    node.entity = Some(e);
    assert!(node.has_entity());
    assert_eq!(node.entity().unwrap().entity, e);
    let mut sprite = EntitySprite::new();
    assert!(!sprite.has_entity());
    assert!(sprite.entity().is_none());
    assert_eq!(sprite.components, ComponentInfo::empty());
    sprite.entity = Some(e);
    assert!(sprite.has_entity());
    assert_eq!(sprite.entity().unwrap().entity, e);
}

#[test]
fn a_new_node_side_looks_for_its_world_at_the_parent() {
    let entity = GDEntity::new();
    assert_eq!(entity.world_path, "..");
    assert!(entity.components.entries.is_empty());
    assert!(entity.inner_components.entries.is_empty());
    assert_eq!(entity.entity, None);
    assert!(!entity.edited);
}

#[test]
fn worlds_are_found_by_name() {
    let mut registry = WorldRegistry::new();
    assert!(registry.borrow_world("main").is_none());
    assert!(!registry.register_world("main", SpecsWorld::new()));
    assert!(!registry.register_world("other", SpecsWorld::new()));
    assert!(registry.borrow_world("main").is_some());
    assert!(registry.borrow_world("Main").is_none());

    // Registering components reaches the world under the name, and only it.
    assert!(registry.register("main", CoreComponents));
    assert!(!registry.register("nowhere", CoreComponents));
    let mut probe = ComponentInfo::empty();
    probe.counter = Some(Counter(1));
    assert_eq!(registry.worlds.len(), 2);
    assert!(registry.worlds[0].value.create_entity(probe.clone()).is_ok());
    assert!(registry.worlds[1].value.create_entity(probe.clone()).is_err());

    // A world under a taken name replaces the one that was there.
    assert!(registry.register_world("main", SpecsWorld::new()));
    assert_eq!(registry.worlds.len(), 2);
    assert!(registry.worlds[0].value.create_entity(probe).is_err());
}

#[test]
fn spawned_nodes_are_spread_over_children() {
    assert_eq!(ENTITIES_PER_CHILD, 512);
    assert_eq!(children_required(0, 0), 1);
    assert_eq!(children_required(0, 511), 1);
    assert_eq!(children_required(0, 512), 2);
    assert_eq!(children_required(500, 600), 3);
    assert_eq!(child_slot(0, 0), 0);
    assert_eq!(child_slot(0, 511), 0);
    assert_eq!(child_slot(0, 512), 1);
    assert_eq!(child_slot(500, 11), 0);
    assert_eq!(child_slot(500, 12), 1);
    for index in 0..600 {
        assert!(child_slot(500, index) < children_required(500, 600));
    }
}

#[test]
fn registering_the_components_is_done_once_or_often() {
    let mut world = SpecsWorld::new();
    let mut probe = ComponentInfo::empty();
    probe.counter = Some(Counter(1));
    assert!(world.create_entity(probe.clone()).is_err());
    register_components(&mut world.world);
    let e = world.create_entity(probe.clone()).unwrap();
    // A second registration keeps what the storages hold.
    register_components(&mut world.world);
    assert_eq!(world.get_component::<Counter>(e), Ok(Some(Counter(1))));
    assert!(world.is_alive(e));
}

#[test]
fn the_registry_of_the_library_registers_its_components() {
    let mut world = SpecsWorld::new();
    let mut probe = ComponentInfo::empty();
    probe.counter = Some(Counter(2));
    assert!(world.create_entity(probe.clone()).is_err());
    CoreComponents::register(&mut world.world);
    let e = world.create_entity(probe).unwrap();
    assert_eq!(world.get_component::<Counter>(e), Ok(Some(Counter(2))));
    assert_eq!(world.get_entities_with::<Position>(), Ok(vec![]));
}
