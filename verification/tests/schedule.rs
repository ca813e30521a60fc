use gd_specs::schedule::Step;
use gd_specs::{
    example_1_dispatcher, example_2_dispatcher, example_3_dispatcher, example_4_dispatcher,
    example_5_dispatcher, example_6_dispatcher, example_8_dispatcher, hybrid_sync_dispatcher,
    signal_sync_dispatcher, vs_sync_dispatcher, ComponentKind, DispatchPlan, MessageKind,
    ScheduleError, SystemDecl, SystemId, Target,
};

fn system(name: &str, reads: Vec<Target>, writes: Vec<Target>, after: &[&str]) -> SystemDecl {
    SystemDecl {
        id: SystemId::Custom(0),
        name: name.to_owned(),
        reads,
        writes,
        dependencies: after.iter().map(|d| (*d).to_owned()).collect(),
    }
}

fn storage(kind: ComponentKind) -> Target {
    Target::Component(kind)
}

fn shape(plan: &DispatchPlan) -> Vec<String> {
    plan.steps
        .iter()
        .map(|step| match step {
            Step::System(decl) => {
                format!("{:?} {} {:?}", decl.id, decl.name, decl.dependencies)
            }
            Step::Barrier => "barrier".to_owned(),
        })
        .collect()
}

#[test]
fn a_dependency_must_be_declared_before() {
    let mut plan = DispatchPlan::new();
    let r = plan.add(system("b", vec![], vec![], &["a"]));
    assert_eq!(r, Err(ScheduleError::UnknownDependency));
    assert_eq!(plan.len(), 0);
    assert_eq!(plan.add(system("a", vec![], vec![], &[])), Ok(()));
    assert_eq!(plan.add(system("b", vec![], vec![], &["a"])), Ok(()));
    assert_eq!(plan.len(), 2);
}

#[test]
fn a_dependency_may_stand_before_a_barrier() {
    let mut plan = DispatchPlan::new();
    plan.add(system("a", vec![], vec![], &[])).unwrap();
    plan.add_barrier();
    assert_eq!(plan.add(system("b", vec![], vec![], &["a"])), Ok(()));
}

#[test]
fn a_name_is_given_once() {
    let mut plan = DispatchPlan::new();
    plan.add(system("a", vec![], vec![], &[])).unwrap();
    assert_eq!(plan.add(system("a", vec![], vec![], &[])), Err(ScheduleError::DuplicateName));
    assert_eq!(plan.len(), 1);
}

#[test]
fn the_empty_name_is_no_name() {
    let mut plan = DispatchPlan::new();
    assert_eq!(plan.add(system("", vec![], vec![], &[])), Ok(()));
    assert_eq!(plan.add(system("", vec![], vec![], &[])), Ok(()));
    // Nothing can depend on a system without a name.
    assert_eq!(
        plan.add(system("c", vec![], vec![], &[""])),
        Err(ScheduleError::UnknownDependency)
    );
}

#[test]
fn an_unknown_dependency_is_reported_before_a_taken_name() {
    let mut plan = DispatchPlan::new();
    plan.add(system("a", vec![], vec![], &[])).unwrap();
    assert_eq!(
        plan.add(system("a", vec![], vec![], &["nobody"])),
        Err(ScheduleError::UnknownDependency)
    );
}

#[test]
fn barriers_count_the_stages() {
    let mut plan = DispatchPlan::new();
    plan.add(system("a", vec![], vec![], &[])).unwrap();
    plan.add(system("b", vec![], vec![], &[])).unwrap();
    plan.add_barrier();
    plan.add(system("c", vec![], vec![], &[])).unwrap();
    plan.add_barrier();
    plan.add_barrier();
    plan.add(system("d", vec![], vec![], &[])).unwrap();
    assert_eq!(plan.stage_of(0), 0);
    assert_eq!(plan.stage_of(1), 0);
    assert_eq!(plan.stage_of(3), 1);
    assert_eq!(plan.stage_of(6), 3);
    assert_eq!(plan.stage_count(), 4);
    assert_eq!(DispatchPlan::new().stage_count(), 1);
}

#[test]
fn systems_with_disjoint_access_may_run_together() {
    let mut plan = DispatchPlan::new();
    plan.add(system(
        "move",
        vec![storage(ComponentKind::Velocity)],
        vec![storage(ComponentKind::Position)],
        &[],
    ))
    .unwrap();
    plan.add(system(
        "turn",
        vec![storage(ComponentKind::AngularVelocity)],
        vec![storage(ComponentKind::Rotation)],
        &[],
    ))
    .unwrap();
    plan.add(system("watch", vec![storage(ComponentKind::Velocity)], vec![], &[])).unwrap();
    assert!(plan.may_run_concurrently(0, 1));
    assert!(plan.may_run_concurrently(1, 0));
    // Two readers of one storage do not disturb each other.
    assert!(plan.may_run_concurrently(0, 2));
    // A system does not run beside itself, and an index out of range is no system.
    assert!(!plan.may_run_concurrently(0, 0));
    assert!(!plan.may_run_concurrently(0, 9));
}

#[test]
fn a_writer_runs_beside_no_reader_or_writer_of_the_same_storage() {
    let mut plan = DispatchPlan::new();
    plan.add(system("w1", vec![], vec![storage(ComponentKind::Position)], &[])).unwrap();
    plan.add(system("w2", vec![], vec![storage(ComponentKind::Position)], &[])).unwrap();
    plan.add(system("r", vec![storage(ComponentKind::Position)], vec![], &[])).unwrap();
    plan.add(system("q", vec![Target::Queue(MessageKind::Text)], vec![Target::Time], &[]))
        .unwrap();
    assert!(!plan.may_run_concurrently(0, 1));
    assert!(!plan.may_run_concurrently(0, 2));
    assert!(!plan.may_run_concurrently(2, 1));
    assert!(plan.may_run_concurrently(0, 3));
}

#[test]
fn a_dependency_keeps_two_systems_apart() {
    let mut plan = DispatchPlan::new();
    plan.add(system("a", vec![], vec![], &[])).unwrap();
    plan.add(system("b", vec![], vec![], &["a"])).unwrap();
    plan.add(system("c", vec![], vec![], &[])).unwrap();
    assert!(plan.depends_on(1, 0));
    assert!(!plan.depends_on(0, 1));
    assert!(!plan.may_run_concurrently(0, 1));
    assert!(!plan.may_run_concurrently(1, 0));
    assert!(plan.may_run_concurrently(0, 2));
}

#[test]
fn a_barrier_keeps_two_systems_apart() {
    let mut plan = DispatchPlan::new();
    plan.add(system("a", vec![], vec![], &[])).unwrap();
    plan.add_barrier();
    plan.add(system("b", vec![], vec![], &[])).unwrap();
    assert!(!plan.may_run_concurrently(0, 2));
    // A barrier is no system.
    assert!(!plan.may_run_concurrently(0, 1));
}

#[test]
fn the_first_example_moves_and_may_colour() {
    assert_eq!(
        shape(&example_1_dispatcher(false)),
        vec![
            "ChangeVelocityAtBounds update_velocity []",
            "UpdatePosition update_position []",
        ]
    );
    assert_eq!(
        shape(&example_1_dispatcher(true)),
        vec![
            "ChangeVelocityAtBounds update_velocity []",
            "UpdatePosition update_position []",
            "RainbowColor change_color []",
        ]
    );
}

#[test]
fn the_examples_without_switches() {
    assert_eq!(
        shape(&example_2_dispatcher()),
        vec!["SetVelocity update_velocity []", "UpdatePositionWithBounds update_position []"]
    );
    assert_eq!(
        shape(&example_3_dispatcher()),
        vec![
            "ChangeVelocityAtBounds change_vel_at_bound []",
            "SetVelocity update_velocity [\"change_vel_at_bound\"]",
            "barrier",
            "UpdateUnboundedPosition update_unbounded_position []",
            "UpdateBoundedPosition update_bounded_position []",
        ]
    );
    assert_eq!(shape(&example_4_dispatcher()), vec!["MessagePrinting printer []"]);
    assert_eq!(
        shape(&example_5_dispatcher()),
        vec![
            "FizzBuzzDispatch fizzbuzz_dispatcher []",
            "Fizz fizz [\"fizzbuzz_dispatcher\"]",
            "Buzz buzz [\"fizzbuzz_dispatcher\"]",
            "FizzBuzz fizzbuzz [\"fizzbuzz_dispatcher\"]",
        ]
    );
    assert_eq!(
        shape(&example_6_dispatcher()),
        vec![
            "CountModifier1 mod_1 []",
            "CountModifier2 mod_2 []",
            "CountModifier3 mod_3 []",
            "CountModifier4 mod_4 []",
            "barrier",
            "CounterSideEffects side_effects []",
            "ColorBasedOnCount color_change [\"side_effects\"]",
        ]
    );
    assert_eq!(shape(&example_8_dispatcher()), vec!["Messenger messenger []"]);
}

#[test]
fn the_synchronizing_dispatchers_follow_their_switches() {
    assert!(shape(&signal_sync_dispatcher(false, false, false)).is_empty());
    assert_eq!(
        shape(&signal_sync_dispatcher(true, true, true)),
        vec![
            "ChangeVelocityAtBounds update_velocity []",
            "UpdatePosition update_position [\"update_velocity\"]",
            "UpdateChildRotation update_rotation []",
            "UpdateChildScale update_scale []",
        ]
    );
    assert_eq!(
        shape(&signal_sync_dispatcher(false, false, true)),
        vec!["UpdateChildScale update_scale []"]
    );
    assert_eq!(
        shape(&hybrid_sync_dispatcher(true, false, true, false)),
        vec![
            "UpdateChildRotation update_rotation []",
            "barrier",
            "VSUpdateTransformsParallel update_transforms []",
        ]
    );
    assert_eq!(
        shape(&hybrid_sync_dispatcher(false, true, false, false)),
        vec![
            "ChangeVelocityAtBounds update_velocity []",
            "UpdatePosition update_position [\"update_velocity\"]",
            "barrier",
            "VSUpdateTransforms update_transforms []",
        ]
    );
    assert_eq!(
        shape(&vs_sync_dispatcher(false, false, false)),
        vec![
            "RainbowColor change_color []",
            "barrier",
            "VSUpdateTransforms update_transforms []",
            "VSUpdateShaderParams update_shader_materials []",
        ]
    );
    assert_eq!(shape(&vs_sync_dispatcher(true, true, true)).len(), 8);
}

#[test]
fn the_example_systems_declare_what_they_touch() {
    let plan = example_3_dispatcher();
    let Step::System(bounds) = &plan.steps[0] else { panic!("a system") };
    assert_eq!(
        bounds.reads,
        vec![Target::BoundingBox, Target::Time, storage(ComponentKind::Position)]
    );
    assert_eq!(bounds.writes, vec![storage(ComponentKind::Velocity)]);
    // Both write velocities: they run one after the other.
    assert!(!plan.may_run_concurrently(0, 1));
    // Both write positions: they run one after the other.
    assert!(!plan.may_run_concurrently(3, 4));
    // The four modifiers push to one queue: they run one after the other.
    let plan = example_6_dispatcher();
    assert!(!plan.may_run_concurrently(0, 1));
    assert!(!plan.may_run_concurrently(2, 3));
    assert!(!plan.may_run_concurrently(5, 6));
    let Step::System(modifier) = &plan.steps[0] else { panic!("a system") };
    assert_eq!(modifier.reads, vec![storage(ComponentKind::Counter)]);
    assert_eq!(modifier.writes, vec![Target::Queue(MessageKind::SideEffect)]);
}
