use gd_specs::{
    ComponentInfo, ComponentRegistry, CoreComponents, Counter, GDWorld, Position, Scalar,
    SpecsWorld, Velocity, WorldCommand, WorldError, WorldQuery,
};
use specs::{Builder, Entity, World, WorldExt};

fn scalar(value: f32) -> Scalar {
    Scalar::from_bits(value.to_bits())
}

fn at(x: f32, y: f32) -> Position {
    Position { x: scalar(x), y: scalar(y) }
}

#[test]
fn util_test_query_struct() {
    struct GetPosition {}
    impl WorldQuery for GetPosition {
        type Args = Entity;
        type Output = (f32, f32);
        fn query(world: &World, entity: Self::Args) -> Self::Output {
            let mut position = world.write_storage::<Position>();
            let pos = position.get_mut(entity).expect("this should work");
            (f32::from_bits(pos.x.bits), f32::from_bits(pos.y.bits))
        }
    }
    let mut world = World::new();
    world.register::<Position>();
    let entity = world.create_entity().with(at(1123.0, -312.0)).build();
    let (x, y) = GetPosition::query(&world, entity);
    assert_eq!(x, 1123.0);
    assert_eq!(y, -312.0);
}

#[test]
fn util_test_command_struct() {
    struct ChangePosition {}
    impl WorldCommand for ChangePosition {
        type Args = (Entity, (f32, f32));
        type Output = (f32, f32);
        fn execute(world: &mut World, args: Self::Args) -> Self::Output {
            let (entity, (x, y)) = args;
            let mut position = world.write_storage::<Position>();
            let pos = position.get_mut(entity).expect("this should work");
            pos.x = Scalar::from_bits(x.to_bits());
            pos.y = Scalar::from_bits(y.to_bits());
            (f32::from_bits(pos.x.bits), f32::from_bits(pos.y.bits))
        }
    }
    let mut world = World::new();
    world.register::<Position>();
    let entity = world.create_entity().with(at(1123.0, -312.0)).build();

    ChangePosition::execute(&mut world, (entity, (0.0, 0.0)));
    let positions = world.read_storage::<Position>();
    let position = positions.get(entity);
    assert!(position.is_some());
    assert_eq!(f32::from_bits(position.unwrap().x.bits), 0.0);
    assert_eq!(f32::from_bits(position.unwrap().y.bits), 0.0);
}

#[test]
fn specs_world_test_query_struct() {
    struct GetPosition {}
    impl WorldQuery for GetPosition {
        type Args = Entity;
        type Output = (f32, f32);
        fn query(world: &World, entity: Self::Args) -> Self::Output {
            let mut position = world.write_storage::<Position>();
            let pos = position.get_mut(entity).expect("this should work");
            (f32::from_bits(pos.x.bits), f32::from_bits(pos.y.bits))
        }
    }
    let mut world = SpecsWorld::new();
    world.world.register::<Position>();
    let entity = world.world.create_entity().with(at(1123.0, -312.0)).build();
    let (x, y) = world.query::<GetPosition>(entity);
    assert_eq!(x, 1123.0);
    assert_eq!(y, -312.0);
}

#[test]
fn specs_world_test_command_struct() {
    struct ChangePosition {}
    impl WorldCommand for ChangePosition {
        type Args = (Entity, (f32, f32));
        type Output = ();
        fn execute(world: &mut World, args: Self::Args) -> Self::Output {
            let (entity, (x, y)) = args;
            let mut position = world.write_storage::<Position>();
            let pos = position.get_mut(entity).expect("this should work");
            pos.x = Scalar::from_bits(x.to_bits());
            pos.y = Scalar::from_bits(y.to_bits());
        }
    }
    let mut world = SpecsWorld::new();
    world.world.register::<Position>();
    let entity = world.world.create_entity().with(at(1123.0, -312.0)).build();

    world.command::<ChangePosition>((entity, (0.0, 0.0)));
    let positions = world.world.read_storage::<Position>();
    let position = positions.get(entity);
    assert!(position.is_some());
    assert_eq!(f32::from_bits(position.unwrap().x.bits), 0.0);
    assert_eq!(f32::from_bits(position.unwrap().y.bits), 0.0);
}

#[test]
fn create_entity_needs_registered_components() {
    let mut world = SpecsWorld::new();
    let mut info = ComponentInfo::empty();
    info.counter = Some(Counter(1));
    let r = world.create_entity(info.clone());
    assert_eq!(r, Err(WorldError::UnregisteredComponent));
    assert!(world.get_entities_with::<Counter>().is_err());
    world.register_components::<CoreComponents>();
    assert!(world.create_entity(info).is_ok());
}

#[test]
fn created_entity_has_exactly_its_components() {
    let mut world = SpecsWorld::new();
    world.register_components::<CoreComponents>();
    let mut info = ComponentInfo::empty();
    info.position = Some(at(1.0, 2.0));
    info.counter = Some(Counter(7));
    let e = world.create_entity(info).unwrap();
    assert!(world.is_alive(e));
    assert_eq!(world.get_component::<Position>(e), Ok(Some(at(1.0, 2.0))));
    assert_eq!(world.get_component::<Counter>(e), Ok(Some(Counter(7))));
    assert_eq!(world.get_component::<Velocity>(e), Ok(None));
    assert_eq!(world.get_entities_with::<Counter>().unwrap(), vec![e]);
    assert!(world.get_entities_with::<Velocity>().unwrap().is_empty());
}

#[test]
fn set_component_replaces_but_does_not_attach() {
    let mut world = SpecsWorld::new();
    world.register_components::<CoreComponents>();
    let mut info = ComponentInfo::empty();
    info.counter = Some(Counter(7));
    let e = world.create_entity(info).unwrap();
    assert_eq!(world.set_component_for_entity(e, Counter(9)), Ok(()));
    assert_eq!(world.get_component::<Counter>(e), Ok(Some(Counter(9))));
    assert_eq!(
        world.set_component_for_entity(e, at(0.0, 0.0)),
        Err(WorldError::MissingComponent)
    );
    assert_eq!(world.get_component::<Position>(e), Ok(None));
}

#[test]
fn unregistered_component_is_a_configuration_error() {
    let mut world = SpecsWorld::new();
    assert_eq!(
        world.get_entities_with::<Counter>(),
        Err(WorldError::UnregisteredComponent)
    );
    struct OnlyCounter;
    impl ComponentRegistry for OnlyCounter {
        fn register(world: &mut World) {
            world.register::<Counter>();
        }
    }
    world.register_components::<OnlyCounter>();
    assert_eq!(world.get_entities_with::<Counter>(), Ok(vec![]));
    assert_eq!(
        world.get_entities_with::<Position>(),
        Err(WorldError::UnregisteredComponent)
    );
}

#[test]
fn entity_created_and_deleted_in_one_tick_is_gone_after_maintain() {
    let mut world = SpecsWorld::new();
    world.register_components::<CoreComponents>();
    let mut info = ComponentInfo::empty();
    info.position = Some(at(1.0, 2.0));
    info.counter = Some(Counter(1));
    let e = world.create_entity(info).unwrap();
    assert_eq!(world.delete_entity(e), Ok(()));
    // Marked, not removed: the population is stable until `maintain`.
    assert!(world.is_alive(e));
    assert_eq!(world.get_entities_with::<Position>().unwrap(), vec![e]);
    world.maintain();
    assert!(!world.is_alive(e));
    assert!(world.get_entities_with::<Position>().unwrap().is_empty());
    assert!(world.get_entities_with::<Counter>().unwrap().is_empty());
    assert_eq!(world.get_component::<Position>(e), Ok(None));
    assert_eq!(world.delete_entity(e), Err(WorldError::DeadEntity));
}

#[test]
fn deleting_twice_is_deleting_once() {
    let mut world = SpecsWorld::new();
    world.register_components::<CoreComponents>();
    let e = world.create_entity(ComponentInfo::empty()).unwrap();
    let other = world.create_entity(ComponentInfo::empty()).unwrap();
    assert_eq!(world.delete_entity(e), Ok(()));
    assert_eq!(world.delete_entity(e), Ok(()));
    world.maintain();
    assert!(!world.is_alive(e));
    assert!(world.is_alive(other));
}

#[test]
fn a_new_entity_is_not_an_old_one() {
    let mut world = SpecsWorld::new();
    world.register_components::<CoreComponents>();
    let mut info = ComponentInfo::empty();
    info.counter = Some(Counter(1));
    let old = world.create_entity(info).unwrap();
    world.delete_entity(old).unwrap();
    world.maintain();
    let new = world.create_entity(ComponentInfo::empty()).unwrap();
    assert_ne!(old, new);
    assert!(!world.is_alive(old));
    assert!(world.is_alive(new));
    // The new entity does not inherit what the old one held.
    assert_eq!(world.get_component::<Counter>(new), Ok(None));
}

#[test]
fn gd_world_starts_with_a_clock_at_zero() {
    let mut world = GDWorld::new();
    let time = world.clone_resource::<gd_specs::Time>().unwrap();
    assert_eq!(f32::from_bits(time.delta.bits), 0.0);
    assert_eq!(f32::from_bits(time.total.bits), 0.0);
}

#[test]
fn an_entity_needs_storages_for_what_it_holds_only() {
    struct SixKinds;
    impl ComponentRegistry for SixKinds {
        fn register(world: &mut World) {
            world.register::<Position>();
            world.register::<gd_specs::Rotation>();
            world.register::<gd_specs::Scale>();
            world.register::<Velocity>();
            world.register::<gd_specs::AngularVelocity>();
            world.register::<gd_specs::SetVelocityIntent>();
        }
    }
    let mut world = SpecsWorld::new();
    // A row without components needs no storage at all.
    let bare = world.create_entity(ComponentInfo::empty()).unwrap();
    assert!(world.is_alive(bare));
    world.register_components::<SixKinds>();
    let mut info = ComponentInfo::empty();
    info.position = Some(at(1.0, 2.0));
    info.velocity = Some(Velocity { x: scalar(3.0), y: scalar(4.0) });
    let e = world.create_entity(info).unwrap();
    assert_eq!(world.get_component::<Position>(e), Ok(Some(at(1.0, 2.0))));
    assert_eq!(world.get_entities_with::<Velocity>(), Ok(vec![e]));
    assert_eq!(world.get_entities_with::<Position>(), Ok(vec![e]));
    // A component of another kind is refused, and nothing is created for it.
    let mut more = ComponentInfo::empty();
    more.position = Some(at(0.0, 0.0));
    more.counter = Some(Counter(1));
    assert_eq!(world.create_entity(more), Err(WorldError::UnregisteredComponent));
    assert_eq!(world.get_entities_with::<Position>(), Ok(vec![e]));
}

#[test]
fn an_entity_with_a_dead_generation_is_alive_nowhere() {
    let mut world = SpecsWorld::new();
    world.register_components::<CoreComponents>();
    let e = world.create_entity(ComponentInfo::empty()).unwrap();
    world.delete_entity(e).unwrap();
    world.maintain();
    // What the allocator now gives for the slot has a dead generation.
    let dead = world.world.entities().entity(e.id());
    assert!(!dead.gen().is_alive());
    assert!(!world.is_alive(dead));
    assert_eq!(world.delete_entity(dead), Err(WorldError::DeadEntity));
    assert_eq!(world.get_component::<Counter>(dead), Ok(None));
    world.maintain();
    // The slot is used again, under a new generation.
    let next = world.create_entity(ComponentInfo::empty()).unwrap();
    assert_eq!(next.id(), e.id());
    assert_ne!(next, e);
    assert!(world.is_alive(next));
    assert!(!world.is_alive(e));
}

#[test]
fn those_that_are_not_marked_come_through_maintain() {
    let mut world = SpecsWorld::new();
    world.register_components::<CoreComponents>();
    let mut info = ComponentInfo::empty();
    info.counter = Some(Counter(4));
    info.position = Some(at(1.0, 1.0));
    let stays = world.create_entity(info.clone()).unwrap();
    let goes = world.create_entity(info).unwrap();
    world.delete_entity(goes).unwrap();
    world.maintain();
    assert!(world.is_alive(stays));
    assert_eq!(world.get_component::<Counter>(stays), Ok(Some(Counter(4))));
    assert_eq!(world.get_component::<Position>(stays), Ok(Some(at(1.0, 1.0))));
    assert_eq!(world.get_entities_with::<Counter>(), Ok(vec![stays]));
    assert!(world.is_registered::<Counter>());
}

#[test]
fn storages_and_the_clock_can_be_asked_for() {
    let mut world = SpecsWorld::new();
    assert!(!world.is_registered::<Position>());
    assert!(!world.has_clock());
    world.register_components::<CoreComponents>();
    world.insert_resource(gd_specs::Time::new());
    assert!(world.is_registered::<Position>());
    assert!(world.has_clock());
}

#[test]
fn a_world_that_is_founded_on_nothing_is_told_apart() {
    // A world that was not made by `new` holds no table of entities.
    let mut hollow = SpecsWorld { world: World::default() };
    assert!(!hollow.is_founded());
    assert!(SpecsWorld::new().is_founded());
    let mut world = World::default();
    assert_eq!(
        gd_specs::CreateEntityFromComponentInfo::execute(&mut world, ComponentInfo::empty()),
        None
    );
    // Registering needs no table, and does not make one.
    gd_specs::register_components(&mut world);
    assert_eq!(
        gd_specs::CreateEntityFromComponentInfo::execute(&mut world, ComponentInfo::empty()),
        None
    );
    let mut sound = World::new();
    assert!(gd_specs::CreateEntityFromComponentInfo::execute(
        &mut sound,
        ComponentInfo::empty()
    )
    .is_some());
}
