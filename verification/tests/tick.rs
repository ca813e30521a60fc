use gd_specs::{
    ComponentInfo, ComponentKind, Counter, GDWorld, PlannedDispatcher, Position, Scalar,
    ScheduleError, StringMessage, SystemDecl, SystemId, Target, Time, WorldError, WorldMsgQueue,
};
use specs::{Entities, Join, ReadExpect, ReadStorage, System, WriteExpect, WriteStorage};

fn scalar(value: f32) -> Scalar {
    Scalar::from_bits(value.to_bits())
}

fn clock(delta: f32, total: f32) -> Time {
    Time { delta: scalar(delta), total: scalar(total) }
}

fn decl(name: &str, reads: Vec<Target>, writes: Vec<Target>, after: &[&str]) -> SystemDecl {
    SystemDecl {
        id: SystemId::Custom(0),
        name: name.to_owned(),
        reads,
        writes,
        dependencies: after.iter().map(|d| (*d).to_owned()).collect(),
    }
}

struct AddToCounters(i32);

impl<'a> System<'a> for AddToCounters {
    type SystemData = WriteStorage<'a, Counter>;

    fn run(&mut self, mut counters: Self::SystemData) {
        for counter in (&mut counters).join() {
            counter.0 += self.0;
        }
    }
}

struct DoubleCounters;

impl<'a> System<'a> for DoubleCounters {
    type SystemData = WriteStorage<'a, Counter>;

    fn run(&mut self, mut counters: Self::SystemData) {
        for counter in (&mut counters).join() {
            counter.0 *= 2;
        }
    }
}

struct ShiftPositions;

impl<'a> System<'a> for ShiftPositions {
    type SystemData = WriteStorage<'a, Position>;

    fn run(&mut self, mut positions: Self::SystemData) {
        for position in (&mut positions).join() {
            position.x = Scalar::from_bits((f32::from_bits(position.x.bits) + 1.0).to_bits());
        }
    }
}

struct DeleteAboveTen;

impl<'a> System<'a> for DeleteAboveTen {
    type SystemData = (Entities<'a>, ReadStorage<'a, Counter>);

    fn run(&mut self, (entities, counters): Self::SystemData) {
        for (entity, counter) in (&entities, &counters).join() {
            if counter.0 > 10 {
                entities.delete(entity).unwrap();
            }
        }
    }
}

struct ReportClock;

impl<'a> System<'a> for ReportClock {
    type SystemData = (ReadExpect<'a, Time>, WriteExpect<'a, WorldMsgQueue<StringMessage>>);

    fn run(&mut self, (time, mut queue): Self::SystemData) {
        queue.push(StringMessage {
            message: format!(
                "{} {}",
                f32::from_bits(time.delta.bits),
                f32::from_bits(time.total.bits)
            ),
        });
    }
}

fn counter_world(values: &[i32]) -> (GDWorld, Vec<specs::Entity>) {
    let mut world = GDWorld::new();
    let mut entities = Vec::new();
    for value in values {
        let mut info = ComponentInfo::empty();
        info.counter = Some(Counter(*value));
        info.position = Some(Position { x: scalar(0.0), y: scalar(0.0) });
        entities.push(world.world.create_entity(info).unwrap());
    }
    (world, entities)
}

fn counters(world: &mut GDWorld, entities: &[specs::Entity]) -> Vec<Option<i32>> {
    entities
        .iter()
        .map(|e| world.world.get_component::<Counter>(*e).unwrap().map(|c| c.0))
        .collect()
}

#[test]
fn a_world_without_a_dispatcher_does_not_tick() {
    let (mut world, entities) = counter_world(&[1]);
    assert_eq!(world.run(clock(1.0, 1.0)), Err(WorldError::NoDispatcher));
    // Nothing happened: not even the clock was set.
    assert_eq!(world.clone_resource::<Time>(), Some(clock(0.0, 0.0)));
    assert_eq!(counters(&mut world, &entities), vec![Some(1)]);
}

#[test]
fn a_tick_sets_the_clock_before_the_systems_run() {
    let mut world = GDWorld::new();
    world.insert_resource(WorldMsgQueue::<StringMessage>::new());
    let mut builder = PlannedDispatcher::new();
    builder
        .add(
            ReportClock,
            decl("report", vec![Target::Time], vec![Target::Queue(gd_specs::MessageKind::Text)], &[]),
        )
        .unwrap();
    let dispatcher = builder.build();
    world.set_dispatcher(dispatcher);
    assert_eq!(world.run(clock(0.5, 0.5)), Ok(()));
    assert_eq!(world.run(clock(0.25, 0.75)), Ok(()));
    assert_eq!(
        world.pop_message::<StringMessage>(),
        Some(StringMessage { message: "0.5 0.5".to_owned() })
    );
    assert_eq!(
        world.pop_message::<StringMessage>(),
        Some(StringMessage { message: "0.25 0.75".to_owned() })
    );
    assert_eq!(world.pop_message::<StringMessage>(), None);
    assert_eq!(world.clone_resource::<Time>(), Some(clock(0.25, 0.75)));
}

#[test]
fn a_system_that_depends_on_another_sees_its_writes() {
    let (mut world, entities) = counter_world(&[1, 5]);
    let mut builder = PlannedDispatcher::new();
    let counter = Target::Component(ComponentKind::Counter);
    builder.add(AddToCounters(3), decl("add", vec![], vec![counter], &[])).unwrap();
    builder.add(DoubleCounters, decl("double", vec![], vec![counter], &["add"])).unwrap();
    let dispatcher = builder.build();
    assert!(!dispatcher.plan.may_run_concurrently(0, 1));
    world.set_dispatcher(dispatcher);
    world.run(clock(1.0, 1.0)).unwrap();
    assert_eq!(counters(&mut world, &entities), vec![Some(8), Some(16)]);
}

#[test]
fn a_system_behind_a_barrier_sees_what_was_written_before_it() {
    let (mut world, entities) = counter_world(&[1, 5]);
    let mut builder = PlannedDispatcher::new();
    let counter = Target::Component(ComponentKind::Counter);
    builder.add(DoubleCounters, decl("double", vec![], vec![counter], &[])).unwrap();
    builder.add_barrier();
    builder.add(AddToCounters(3), decl("add", vec![], vec![counter], &[])).unwrap();
    let dispatcher = builder.build();
    assert_eq!(dispatcher.plan.stage_of(0), 0);
    assert_eq!(dispatcher.plan.stage_of(2), 1);
    world.set_dispatcher(dispatcher);
    world.run(clock(1.0, 1.0)).unwrap();
    assert_eq!(counters(&mut world, &entities), vec![Some(5), Some(13)]);
}

fn run_two(first_counters: bool) -> (Vec<Option<i32>>, Vec<Option<Position>>) {
    let (mut world, entities) = counter_world(&[1, 5]);
    let mut builder = PlannedDispatcher::new();
    let counter = Target::Component(ComponentKind::Counter);
    let position = Target::Component(ComponentKind::Position);
    if first_counters {
        builder.add(AddToCounters(3), decl("add", vec![], vec![counter], &[])).unwrap();
        builder.add(ShiftPositions, decl("shift", vec![], vec![position], &[])).unwrap();
    } else {
        builder.add(ShiftPositions, decl("shift", vec![], vec![position], &[])).unwrap();
        builder.add(AddToCounters(3), decl("add", vec![], vec![counter], &[])).unwrap();
    }
    let dispatcher = builder.build();
    assert!(dispatcher.plan.may_run_concurrently(0, 1));
    world.set_dispatcher(dispatcher);
    world.run(clock(1.0, 1.0)).unwrap();
    let positions =
        entities.iter().map(|e| world.world.get_component::<Position>(*e).unwrap()).collect();
    (counters(&mut world, &entities), positions)
}

#[test]
fn independent_systems_give_the_same_state_in_either_order() {
    let one = run_two(true);
    let other = run_two(false);
    assert_eq!(one, other);
    assert_eq!(one.0, vec![Some(4), Some(8)]);
    assert_eq!(one.1[0], Some(Position { x: scalar(1.0), y: scalar(0.0) }));
}

#[test]
fn what_a_system_deletes_is_gone_when_the_tick_ends() {
    let (mut world, entities) = counter_world(&[1, 50]);
    let mut builder = PlannedDispatcher::new();
    builder
        .add(
            DeleteAboveTen,
            decl("reap", vec![Target::Component(ComponentKind::Counter)], vec![], &[]),
        )
        .unwrap();
    let dispatcher = builder.build();
    world.set_dispatcher(dispatcher);
    world.run(clock(1.0, 1.0)).unwrap();
    assert!(world.world.is_alive(entities[0]));
    assert!(!world.world.is_alive(entities[1]));
    assert_eq!(world.get_entities_with::<Counter>().unwrap(), vec![entities[0]]);
}

#[test]
fn what_is_marked_before_a_tick_is_gone_after_it() {
    let (mut world, entities) = counter_world(&[1, 2]);
    let mut builder = PlannedDispatcher::new();
    builder
        .add(
            AddToCounters(1),
            decl("add", vec![], vec![Target::Component(ComponentKind::Counter)], &[]),
        )
        .unwrap();
    let dispatcher = builder.build();
    world.set_dispatcher(dispatcher);
    world.delete_entity(entities[0]).unwrap();
    world.run(clock(1.0, 1.0)).unwrap();
    assert!(!world.world.is_alive(entities[0]));
    assert_eq!(counters(&mut world, &entities), vec![None, Some(3)]);
}

#[test]
fn the_builder_takes_a_system_or_leaves_the_plan_alone() {
    let mut builder = PlannedDispatcher::new();
    let r = builder.add(DoubleCounters, decl("double", vec![], vec![], &["nobody"]));
    assert_eq!(r, Err(ScheduleError::UnknownDependency));
    assert_eq!(builder.plan.len(), 0);
    builder.add(DoubleCounters, decl("double", vec![], vec![], &[])).unwrap();
    let r = builder.add(AddToCounters(1), decl("double", vec![], vec![], &[]));
    assert_eq!(r, Err(ScheduleError::DuplicateName));
    assert_eq!(builder.plan.len(), 1);
    // The outside builder was never handed what it refuses: it builds.
    let built = builder.build();
    assert_eq!(built.plan.len(), 1);
}

#[test]
fn a_tick_needs_a_clock() {
    let mut world = GDWorld { world: gd_specs::SpecsWorld::new(), dispatcher: None };
    let mut builder = PlannedDispatcher::new();
    builder.add_barrier();
    let dispatcher = builder.build();
    world.set_dispatcher(dispatcher);
    assert_eq!(world.run(clock(1.0, 1.0)), Err(WorldError::MissingResource));
    assert!(!world.world.has_clock());
    world.insert_resource(Time::new());
    assert!(world.world.has_clock());
    world.world.update_time(clock(1.0, 1.0));
    assert_eq!(world.clone_resource::<Time>(), Some(clock(1.0, 1.0)));
    assert_eq!(world.run(clock(1.0, 2.0)), Ok(()));
}

#[test]
fn a_tick_is_refused_where_a_system_would_miss_its_resource() {
    // The system reports into a queue that the world does not have.
    let (mut world, entities) = counter_world(&[1]);
    let mut builder = PlannedDispatcher::new();
    builder
        .add(
            ReportClock,
            decl("report", vec![Target::Time], vec![Target::Queue(gd_specs::MessageKind::Text)], &[]),
        )
        .unwrap();
    builder
        .add(
            AddToCounters(1),
            decl("add", vec![], vec![Target::Component(ComponentKind::Counter)], &[]),
        )
        .unwrap();
    let scheduled = builder.build();
    // The queue is what is missing, and the world tells where it stands in the list.
    let missing = world.world.missing_resource(&scheduled).expect("a resource is missing");
    assert_eq!(
        scheduled.fetched[missing],
        specs::shred::ResourceId::new::<WorldMsgQueue<StringMessage>>()
    );
    world.set_dispatcher(scheduled);
    world.delete_entity(entities[0]).unwrap();
    assert_eq!(world.run(clock(1.0, 1.0)), Err(WorldError::MissingResource));
    // Nothing ran: the clock stands, the counter too, and the mark waits.
    assert_eq!(world.clone_resource::<Time>(), Some(clock(0.0, 0.0)));
    assert_eq!(counters(&mut world, &entities), vec![Some(1)]);
    assert!(world.world.is_alive(entities[0]));
    // With the queue the same dispatcher runs.
    world.insert_resource(WorldMsgQueue::<StringMessage>::new());
    assert_eq!(world.world.missing_resource(world.dispatcher.as_ref().unwrap()), None);
    assert_eq!(world.run(clock(1.0, 1.0)), Ok(()));
    assert!(!world.world.is_alive(entities[0]));
    assert_eq!(
        world.pop_message::<StringMessage>(),
        Some(StringMessage { message: "1 1".to_owned() })
    );
}

#[test]
fn a_world_runs_with_a_dispatcher_that_is_handed_in() {
    let (mut world, entities) = counter_world(&[1, 2]);
    let mut builder = PlannedDispatcher::new();
    builder
        .add(
            AddToCounters(2),
            decl("add", vec![], vec![Target::Component(ComponentKind::Counter)], &[]),
        )
        .unwrap();
    let mut scheduled = builder.build();
    world.delete_entity(entities[1]).unwrap();
    assert_eq!(world.world.run_with(&mut scheduled), Ok(()));
    assert_eq!(world.world.run_with(&mut scheduled), Ok(()));
    assert_eq!(counters(&mut world, &entities), vec![Some(5), None]);
    let mut bare = gd_specs::SpecsWorld::new();
    assert_eq!(bare.run_with(&mut scheduled), Err(WorldError::MissingResource));
}

struct DoublePositions;

impl<'a> System<'a> for DoublePositions {
    type SystemData = WriteStorage<'a, Position>;

    fn run(&mut self, mut positions: Self::SystemData) {
        for position in (&mut positions).join() {
            position.x = Scalar::from_bits((f32::from_bits(position.x.bits) * 2.0).to_bits());
        }
    }
}

#[test]
fn systems_in_conflict_run_in_the_order_of_their_declaration() {
    // A writes counters; B follows A and writes positions; C writes positions too.
    // Left to itself the outside builder would run C beside A, before B.
    let (mut world, entities) = counter_world(&[1]);
    let e = entities[0];
    world
        .set_component_for_entity(e, Position { x: scalar(1.0), y: scalar(0.0) })
        .unwrap();
    let counter = Target::Component(ComponentKind::Counter);
    let position = Target::Component(ComponentKind::Position);
    let mut builder = PlannedDispatcher::new();
    builder.add(AddToCounters(1), decl("a", vec![], vec![counter], &[])).unwrap();
    builder.add(ShiftPositions, decl("b", vec![], vec![position], &["a"])).unwrap();
    let third = decl("c", vec![], vec![position], &[]);
    assert_eq!(builder.plan.forced_names(&third), vec!["b".to_owned()]);
    builder.add(DoublePositions, third).unwrap();
    world.set_dispatcher(builder.build());
    world.run(clock(1.0, 1.0)).unwrap();
    // (1 + 1) * 2, not 1 * 2 + 1.
    assert_eq!(
        world.world.get_component::<Position>(e),
        Ok(Some(Position { x: scalar(4.0), y: scalar(0.0) }))
    );
}

#[test]
fn only_the_last_stage_forces_an_order() {
    let counter = Target::Component(ComponentKind::Counter);
    let mut builder = PlannedDispatcher::new();
    builder.add(AddToCounters(1), decl("a", vec![], vec![counter], &[])).unwrap();
    builder.add(AddToCounters(1), decl("", vec![], vec![counter], &[])).unwrap();
    builder.add(DoubleCounters, decl("r", vec![counter], vec![], &[])).unwrap();
    // The reader is in conflict with both writers; one of them has a name.
    let next = decl("n", vec![], vec![counter], &[]);
    assert_eq!(builder.plan.forced_names(&next), vec!["r".to_owned(), "a".to_owned()]);
    builder.add_barrier();
    // Behind a barrier nothing of the stage before is to be followed by name.
    assert!(builder.plan.forced_names(&next).is_empty());
    let free = decl("f", vec![], vec![Target::Time], &[]);
    assert!(builder.plan.forced_names(&free).is_empty());
}
