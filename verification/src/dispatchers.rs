//! The dispatchers of the example projects, as plans: which systems run,
//! under which names, after which others, and where the barriers stand.
use vstd::prelude::*;
use crate::components::ComponentKind;
use crate::dispatcher::lemma_names_push;
use crate::messages::MessageKind;
use crate::schedule::{fits, names, DispatchPlan, Step, SystemDecl, SystemId, Target};

verus! {

/// The number under which the storage of canvas items goes.
pub const CANVAS_ITEM: u32 = 1;

/// The number under which the storage of canvas item shaders goes.
pub const CANVAS_ITEM_SHADER: u32 = 2;

/// What a system of the library reads. A system that goes by a number
/// declares for itself. A queue counts as written by whoever pushes to it
/// or pops from it: both take the queue for themselves.
pub open spec fn reads_of(id: SystemId) -> Seq<Target> {
    match id {
        SystemId::ChangeVelocityAtBounds => seq![Target::BoundingBox, Target::Time, Target::Component(ComponentKind::Position)],
        SystemId::UpdatePosition => seq![Target::Time, Target::Component(ComponentKind::Velocity)],
        SystemId::UpdateRotation => seq![Target::Time, Target::Component(ComponentKind::AngularVelocity)],
        SystemId::SetVelocity => Seq::<Target>::empty(),
        SystemId::UpdatePositionWithBounds => seq![Target::BoundingBox, Target::Component(ComponentKind::Velocity)],
        SystemId::UpdateBoundedPosition => seq![Target::BoundingBox, Target::Component(ComponentKind::StayInsideBounds), Target::Component(ComponentKind::Velocity)],
        SystemId::UpdateUnboundedPosition => seq![Target::Component(ComponentKind::StayInsideBounds), Target::Component(ComponentKind::Velocity)],
        SystemId::MessagePrinting => Seq::<Target>::empty(),
        SystemId::FizzBuzzDispatch => Seq::<Target>::empty(),
        SystemId::Fizz => Seq::<Target>::empty(),
        SystemId::Buzz => Seq::<Target>::empty(),
        SystemId::FizzBuzz => Seq::<Target>::empty(),
        SystemId::CountModifier1 => seq![Target::Component(ComponentKind::Counter)],
        SystemId::CountModifier2 => seq![Target::Component(ComponentKind::Counter)],
        SystemId::CountModifier3 => seq![Target::Component(ComponentKind::Counter)],
        SystemId::CountModifier4 => seq![Target::Component(ComponentKind::Counter)],
        SystemId::CounterSideEffects => Seq::<Target>::empty(),
        SystemId::RainbowColor => seq![Target::Time],
        SystemId::ColorBasedOnCount => seq![Target::Component(ComponentKind::Counter)],
        SystemId::Messenger => Seq::<Target>::empty(),
        SystemId::UpdateChildRotation => seq![Target::Time, Target::Component(ComponentKind::AngularVelocity), Target::Component(ComponentKind::TreeRelationship)],
        SystemId::UpdateChildScale => seq![Target::Time, Target::Component(ComponentKind::TreeRelationship)],
        SystemId::VSUpdateTransforms => seq![Target::Host(CANVAS_ITEM), Target::Component(ComponentKind::Position), Target::Component(ComponentKind::Rotation), Target::Component(ComponentKind::Scale)],
        SystemId::VSUpdateTransformsParallel => seq![Target::Host(CANVAS_ITEM), Target::Component(ComponentKind::Position), Target::Component(ComponentKind::Rotation), Target::Component(ComponentKind::Scale)],
        SystemId::VSUpdateShaderParams => seq![Target::Host(CANVAS_ITEM_SHADER), Target::Component(ComponentKind::ShaderParams)],
        SystemId::Custom(_) => Seq::<Target>::empty(),
    }
}

/// What a system of the library writes. A system that goes by a number
/// declares for itself.
pub open spec fn writes_of(id: SystemId) -> Seq<Target> {
    match id {
        SystemId::ChangeVelocityAtBounds => seq![Target::Component(ComponentKind::Velocity)],
        SystemId::UpdatePosition => seq![Target::Component(ComponentKind::Position)],
        SystemId::UpdateRotation => seq![Target::Component(ComponentKind::Rotation)],
        SystemId::SetVelocity => seq![Target::Component(ComponentKind::SetVelocityIntent), Target::Component(ComponentKind::Velocity)],
        SystemId::UpdatePositionWithBounds => seq![Target::Component(ComponentKind::Position)],
        SystemId::UpdateBoundedPosition => seq![Target::Component(ComponentKind::Position)],
        SystemId::UpdateUnboundedPosition => seq![Target::Component(ComponentKind::Position)],
        SystemId::MessagePrinting => seq![Target::Queue(MessageKind::Text)],
        SystemId::FizzBuzzDispatch => seq![Target::Queue(MessageKind::FizzbuzzInput), Target::Queue(MessageKind::Fizz), Target::Queue(MessageKind::Buzz), Target::Queue(MessageKind::FizzBuzz), Target::Queue(MessageKind::FizzbuzzOutput)],
        SystemId::Fizz => seq![Target::Queue(MessageKind::Fizz), Target::Queue(MessageKind::FizzbuzzOutput)],
        SystemId::Buzz => seq![Target::Queue(MessageKind::Buzz), Target::Queue(MessageKind::FizzbuzzOutput)],
        SystemId::FizzBuzz => seq![Target::Queue(MessageKind::FizzBuzz), Target::Queue(MessageKind::FizzbuzzOutput)],
        SystemId::CountModifier1 => seq![Target::Queue(MessageKind::SideEffect)],
        SystemId::CountModifier2 => seq![Target::Queue(MessageKind::SideEffect)],
        SystemId::CountModifier3 => seq![Target::Queue(MessageKind::SideEffect)],
        SystemId::CountModifier4 => seq![Target::Queue(MessageKind::SideEffect)],
        SystemId::CounterSideEffects => seq![Target::Queue(MessageKind::SideEffect), Target::Component(ComponentKind::Counter)],
        SystemId::RainbowColor => seq![Target::Component(ComponentKind::ShaderParams)],
        SystemId::ColorBasedOnCount => seq![Target::Component(ComponentKind::ShaderParams)],
        SystemId::Messenger => seq![Target::Queue(MessageKind::Text)],
        SystemId::UpdateChildRotation => seq![Target::Component(ComponentKind::Rotation)],
        SystemId::UpdateChildScale => seq![Target::Component(ComponentKind::Scale)],
        SystemId::VSUpdateTransforms => Seq::<Target>::empty(),
        SystemId::VSUpdateTransformsParallel => Seq::<Target>::empty(),
        SystemId::VSUpdateShaderParams => Seq::<Target>::empty(),
        SystemId::Custom(_) => Seq::<Target>::empty(),
    }
}

/// What a system of the library reads.
pub fn system_reads(id: SystemId) -> (targets: Vec<Target>)
    ensures
        targets@ == reads_of(id),
{
    let targets: Vec<Target> = match id {
        SystemId::ChangeVelocityAtBounds => vec![Target::BoundingBox, Target::Time, Target::Component(ComponentKind::Position)],
        SystemId::UpdatePosition => vec![Target::Time, Target::Component(ComponentKind::Velocity)],
        SystemId::UpdateRotation => vec![Target::Time, Target::Component(ComponentKind::AngularVelocity)],
        SystemId::SetVelocity => Vec::new(),
        SystemId::UpdatePositionWithBounds => vec![Target::BoundingBox, Target::Component(ComponentKind::Velocity)],
        SystemId::UpdateBoundedPosition => vec![Target::BoundingBox, Target::Component(ComponentKind::StayInsideBounds), Target::Component(ComponentKind::Velocity)],
        SystemId::UpdateUnboundedPosition => vec![Target::Component(ComponentKind::StayInsideBounds), Target::Component(ComponentKind::Velocity)],
        SystemId::MessagePrinting => Vec::new(),
        SystemId::FizzBuzzDispatch => Vec::new(),
        SystemId::Fizz => Vec::new(),
        SystemId::Buzz => Vec::new(),
        SystemId::FizzBuzz => Vec::new(),
        SystemId::CountModifier1 => vec![Target::Component(ComponentKind::Counter)],
        SystemId::CountModifier2 => vec![Target::Component(ComponentKind::Counter)],
        SystemId::CountModifier3 => vec![Target::Component(ComponentKind::Counter)],
        SystemId::CountModifier4 => vec![Target::Component(ComponentKind::Counter)],
        SystemId::CounterSideEffects => Vec::new(),
        SystemId::RainbowColor => vec![Target::Time],
        SystemId::ColorBasedOnCount => vec![Target::Component(ComponentKind::Counter)],
        SystemId::Messenger => Vec::new(),
        SystemId::UpdateChildRotation => vec![Target::Time, Target::Component(ComponentKind::AngularVelocity), Target::Component(ComponentKind::TreeRelationship)],
        SystemId::UpdateChildScale => vec![Target::Time, Target::Component(ComponentKind::TreeRelationship)],
        SystemId::VSUpdateTransforms => vec![Target::Host(CANVAS_ITEM), Target::Component(ComponentKind::Position), Target::Component(ComponentKind::Rotation), Target::Component(ComponentKind::Scale)],
        SystemId::VSUpdateTransformsParallel => vec![Target::Host(CANVAS_ITEM), Target::Component(ComponentKind::Position), Target::Component(ComponentKind::Rotation), Target::Component(ComponentKind::Scale)],
        SystemId::VSUpdateShaderParams => vec![Target::Host(CANVAS_ITEM_SHADER), Target::Component(ComponentKind::ShaderParams)],
        SystemId::Custom(_) => Vec::new(),
    };
    assert(targets@ =~= reads_of(id));
    targets
}

/// What a system of the library writes.
pub fn system_writes(id: SystemId) -> (targets: Vec<Target>)
    ensures
        targets@ == writes_of(id),
{
    let targets: Vec<Target> = match id {
        SystemId::ChangeVelocityAtBounds => vec![Target::Component(ComponentKind::Velocity)],
        SystemId::UpdatePosition => vec![Target::Component(ComponentKind::Position)],
        SystemId::UpdateRotation => vec![Target::Component(ComponentKind::Rotation)],
        SystemId::SetVelocity => vec![Target::Component(ComponentKind::SetVelocityIntent), Target::Component(ComponentKind::Velocity)],
        SystemId::UpdatePositionWithBounds => vec![Target::Component(ComponentKind::Position)],
        SystemId::UpdateBoundedPosition => vec![Target::Component(ComponentKind::Position)],
        SystemId::UpdateUnboundedPosition => vec![Target::Component(ComponentKind::Position)],
        SystemId::MessagePrinting => vec![Target::Queue(MessageKind::Text)],
        SystemId::FizzBuzzDispatch => vec![Target::Queue(MessageKind::FizzbuzzInput), Target::Queue(MessageKind::Fizz), Target::Queue(MessageKind::Buzz), Target::Queue(MessageKind::FizzBuzz), Target::Queue(MessageKind::FizzbuzzOutput)],
        SystemId::Fizz => vec![Target::Queue(MessageKind::Fizz), Target::Queue(MessageKind::FizzbuzzOutput)],
        SystemId::Buzz => vec![Target::Queue(MessageKind::Buzz), Target::Queue(MessageKind::FizzbuzzOutput)],
        SystemId::FizzBuzz => vec![Target::Queue(MessageKind::FizzBuzz), Target::Queue(MessageKind::FizzbuzzOutput)],
        SystemId::CountModifier1 => vec![Target::Queue(MessageKind::SideEffect)],
        SystemId::CountModifier2 => vec![Target::Queue(MessageKind::SideEffect)],
        SystemId::CountModifier3 => vec![Target::Queue(MessageKind::SideEffect)],
        SystemId::CountModifier4 => vec![Target::Queue(MessageKind::SideEffect)],
        SystemId::CounterSideEffects => vec![Target::Queue(MessageKind::SideEffect), Target::Component(ComponentKind::Counter)],
        SystemId::RainbowColor => vec![Target::Component(ComponentKind::ShaderParams)],
        SystemId::ColorBasedOnCount => vec![Target::Component(ComponentKind::ShaderParams)],
        SystemId::Messenger => vec![Target::Queue(MessageKind::Text)],
        SystemId::UpdateChildRotation => vec![Target::Component(ComponentKind::Rotation)],
        SystemId::UpdateChildScale => vec![Target::Component(ComponentKind::Scale)],
        SystemId::VSUpdateTransforms => Vec::new(),
        SystemId::VSUpdateTransformsParallel => Vec::new(),
        SystemId::VSUpdateShaderParams => Vec::new(),
        SystemId::Custom(_) => Vec::new(),
    };
    assert(targets@ =~= writes_of(id));
    targets
}

/// A step of a plan, by what matters of it: the system, its name and the
/// names it depends on; or a barrier.
pub enum Outline {
    System { id: SystemId, name: Seq<char>, dependencies: Seq<Seq<char>> },
    Barrier,
}

/// The names in a list of texts.
pub open spec fn texts(list: Seq<String>) -> Seq<Seq<char>> {
    Seq::new(list.len(), |k: int| list[k]@)
}

/// The outline of a step.
pub open spec fn outline_of(step: Step) -> Outline {
    match step {
        Step::System(decl) => Outline::System {
            id: decl.id,
            name: decl.name@,
            dependencies: texts(decl.dependencies@),
        },
        Step::Barrier => Outline::Barrier,
    }
}

/// The outline of a plan.
pub open spec fn outline(steps: Seq<Step>) -> Seq<Outline> {
    Seq::new(steps.len(), |i: int| outline_of(steps[i]))
}

/// Whether each system of the steps declares what the library knows of it.
pub open spec fn by_the_book(steps: Seq<Step>) -> bool {
    forall|i: int|
        0 <= i < steps.len() && (#[trigger] steps[i]) is System ==> steps[i]->System_0.reads@
            == reads_of(steps[i]->System_0.id) && steps[i]->System_0.writes@ == writes_of(
            steps[i]->System_0.id,
        )
}

/// The outline of a system without dependencies.
pub open spec fn free(id: SystemId, name: Seq<char>) -> Outline {
    Outline::System { id, name, dependencies: Seq::empty() }
}

/// The outline of a system with one dependency.
pub open spec fn after(id: SystemId, name: Seq<char>, dependency: Seq<char>) -> Outline {
    Outline::System { id, name, dependencies: seq![dependency] }
}

/// Adds a system of the library, under a name that is not taken, behind
/// systems that are there.
fn must_add(plan: &mut DispatchPlan, id: SystemId, name: &str, dependencies: Vec<String>)
    requires
        old(plan).wf(),
        by_the_book(old(plan)@),
        name@.len() > 0,
        !names(old(plan)@).contains(name@),
        forall|k: int|
            0 <= k < dependencies@.len() ==> names(old(plan)@).contains(
                #[trigger] dependencies@[k]@,
            ),
    ensures
        final(plan).wf(),
        by_the_book(final(plan)@),
        names(final(plan)@) == names(old(plan)@).insert(name@),
        outline(final(plan)@) == outline(old(plan)@).push(
            Outline::System { id, name: name@, dependencies: texts(dependencies@) },
        ),
{
    let decl = SystemDecl {
        id,
        name: name.to_owned(),
        reads: system_reads(id),
        writes: system_writes(id),
        dependencies,
    };
    proof {
        lemma_names_push(plan@, decl);
        assert(fits(plan@, decl));
    }
    let r = plan.add(decl);
    proof {
        assert(r.is_ok());
        assert(outline(plan@) =~= outline(old(plan)@).push(
            Outline::System { id, name: name@, dependencies: texts(dependencies@) },
        ));
        assert forall|i: int| 0 <= i < plan@.len() && (#[trigger] plan@[i]) is System implies plan@[i]->System_0.reads@
            == reads_of(plan@[i]->System_0.id) && plan@[i]->System_0.writes@ == writes_of(
            plan@[i]->System_0.id,
        ) by {
            if i < old(plan)@.len() {
                assert(plan@[i] == old(plan)@[i]);
            }
        }
    }
}

/// Adds a barrier.
fn must_add_barrier(plan: &mut DispatchPlan)
    requires
        old(plan).wf(),
        by_the_book(old(plan)@),
    ensures
        final(plan).wf(),
        by_the_book(final(plan)@),
        names(final(plan)@) == names(old(plan)@),
        outline(final(plan)@) == outline(old(plan)@).push(Outline::Barrier),
{
    plan.add_barrier();
    proof {
        crate::dispatcher::lemma_names_barrier(old(plan)@);
        assert(outline(plan@) =~= outline(old(plan)@).push(Outline::Barrier));
        assert forall|i: int| 0 <= i < plan@.len() && (#[trigger] plan@[i]) is System implies plan@[i]->System_0.reads@
            == reads_of(plan@[i]->System_0.id) && plan@[i]->System_0.writes@ == writes_of(
            plan@[i]->System_0.id,
        ) by {
            assert(plan@[i] == old(plan)@[i]);
        }
    }
}

/// The empty plan.
fn start() -> (plan: DispatchPlan)
    ensures
        plan.wf(),
        by_the_book(plan@),
        names(plan@) == Set::<Seq<char>>::empty(),
        outline(plan@) == Seq::<Outline>::empty(),
{
    let plan = DispatchPlan::new();
    assert(names(plan@) =~= Set::<Seq<char>>::empty());
    assert(outline(plan@) =~= Seq::<Outline>::empty());
    plan
}

/// A list with one name.
fn one(name: &str) -> (list: Vec<String>)
    ensures
        list@.len() == 1,
        list@[0]@ == name@,
        texts(list@) == seq![name@],
{
    let mut list: Vec<String> = Vec::new();
    list.push(name.to_owned());
    assert(texts(list@) =~= seq![name@]);
    list
}

/// A list without names.
fn none() -> (list: Vec<String>)
    ensures
        list@.len() == 0,
        texts(list@) == Seq::<Seq<char>>::empty(),
{
    let list: Vec<String> = Vec::new();
    assert(texts(list@) =~= Seq::<Seq<char>>::empty());
    list
}

} // verus!

verus! {

/// The outline of `example_1_dispatcher`.
pub open spec fn example_1_outline(change_color: bool) -> Seq<Outline> {
    seq![free(SystemId::ChangeVelocityAtBounds, "update_velocity"@), free(SystemId::UpdatePosition, "update_position"@)].add(
        (if change_color {
        seq![free(SystemId::RainbowColor, "change_color"@)]
    } else {
        Seq::<Outline>::empty()
    }),
    )
}

/// Movement inside a bounding box, and the colour of time if it is
/// wanted.
pub fn example_1_dispatcher(change_color: bool) -> (plan: DispatchPlan)
    ensures
        plan.wf(),
        by_the_book(plan@),
        outline(plan@) == example_1_outline(change_color),
{
    proof {
        reveal_strlit("update_velocity");
        reveal_strlit("update_position");
        reveal_strlit("change_color");
        assert("update_velocity"@.len() == 15);
        assert("update_position"@.len() == 15);
        assert("change_color"@.len() == 12);
        assert("update_velocity"@[7] != "update_position"@[7]);
    }
    let mut plan = start();
    must_add(&mut plan, SystemId::ChangeVelocityAtBounds, "update_velocity", none());
    must_add(&mut plan, SystemId::UpdatePosition, "update_position", none());
    if change_color {
        must_add(&mut plan, SystemId::RainbowColor, "change_color", none());
    }
    assert(outline(plan@) =~= example_1_outline(change_color));
    plan
}

/// The outline of `example_2_dispatcher`.
pub open spec fn example_2_outline() -> Seq<Outline> {
    seq![free(SystemId::SetVelocity, "update_velocity"@), free(SystemId::UpdatePositionWithBounds, "update_position"@)]
}

/// Velocities as the entities wish, and movement that stops at the
/// bounds.
pub fn example_2_dispatcher() -> (plan: DispatchPlan)
    ensures
        plan.wf(),
        by_the_book(plan@),
        outline(plan@) == example_2_outline(),
{
    proof {
        reveal_strlit("update_velocity");
        reveal_strlit("update_position");
        assert("update_velocity"@.len() == 15);
        assert("update_position"@.len() == 15);
        assert("update_velocity"@[7] != "update_position"@[7]);
    }
    let mut plan = start();
    must_add(&mut plan, SystemId::SetVelocity, "update_velocity", none());
    must_add(&mut plan, SystemId::UpdatePositionWithBounds, "update_position", none());
    assert(outline(plan@) =~= example_2_outline());
    plan
}

/// The outline of `example_3_dispatcher`.
pub open spec fn example_3_outline() -> Seq<Outline> {
    seq![free(SystemId::ChangeVelocityAtBounds, "change_vel_at_bound"@), after(SystemId::SetVelocity, "update_velocity"@, "change_vel_at_bound"@), Outline::Barrier, free(SystemId::UpdateUnboundedPosition, "update_unbounded_position"@), free(SystemId::UpdateBoundedPosition, "update_bounded_position"@)]
}

/// Velocities first, and behind a barrier the positions: of the entities
/// that stay inside the bounds and of those that do not.
pub fn example_3_dispatcher() -> (plan: DispatchPlan)
    ensures
        plan.wf(),
        by_the_book(plan@),
        outline(plan@) == example_3_outline(),
{
    proof {
        reveal_strlit("change_vel_at_bound");
        reveal_strlit("update_velocity");
        reveal_strlit("update_unbounded_position");
        reveal_strlit("update_bounded_position");
        assert("change_vel_at_bound"@.len() == 19);
        assert("update_velocity"@.len() == 15);
        assert("update_unbounded_position"@.len() == 25);
        assert("update_bounded_position"@.len() == 23);
    }
    let mut plan = start();
    must_add(&mut plan, SystemId::ChangeVelocityAtBounds, "change_vel_at_bound", none());
    must_add(&mut plan, SystemId::SetVelocity, "update_velocity", one("change_vel_at_bound"));
    must_add_barrier(&mut plan);
    must_add(&mut plan, SystemId::UpdateUnboundedPosition, "update_unbounded_position", none());
    must_add(&mut plan, SystemId::UpdateBoundedPosition, "update_bounded_position", none());
    assert(outline(plan@) =~= example_3_outline());
    plan
}

/// The outline of `example_4_dispatcher`.
pub open spec fn example_4_outline() -> Seq<Outline> {
    seq![free(SystemId::MessagePrinting, "printer"@)]
}

/// One system that prints what is in the queue of texts.
pub fn example_4_dispatcher() -> (plan: DispatchPlan)
    ensures
        plan.wf(),
        by_the_book(plan@),
        outline(plan@) == example_4_outline(),
{
    proof {
        reveal_strlit("printer");
        assert("printer"@.len() == 7);
    }
    let mut plan = start();
    must_add(&mut plan, SystemId::MessagePrinting, "printer", none());
    assert(outline(plan@) =~= example_4_outline());
    plan
}

/// The outline of `example_5_dispatcher`.
pub open spec fn example_5_outline() -> Seq<Outline> {
    seq![free(SystemId::FizzBuzzDispatch, "fizzbuzz_dispatcher"@), after(SystemId::Fizz, "fizz"@, "fizzbuzz_dispatcher"@), after(SystemId::Buzz, "buzz"@, "fizzbuzz_dispatcher"@), after(SystemId::FizzBuzz, "fizzbuzz"@, "fizzbuzz_dispatcher"@)]
}

/// The game of fizz and buzz: one system sends each number on, three
/// others speak up.
pub fn example_5_dispatcher() -> (plan: DispatchPlan)
    ensures
        plan.wf(),
        by_the_book(plan@),
        outline(plan@) == example_5_outline(),
{
    proof {
        reveal_strlit("fizzbuzz_dispatcher");
        reveal_strlit("fizz");
        reveal_strlit("buzz");
        reveal_strlit("fizzbuzz");
        assert("fizzbuzz_dispatcher"@.len() == 19);
        assert("fizz"@.len() == 4);
        assert("buzz"@.len() == 4);
        assert("fizzbuzz"@.len() == 8);
        assert("fizz"@[0] != "buzz"@[0]);
    }
    let mut plan = start();
    must_add(&mut plan, SystemId::FizzBuzzDispatch, "fizzbuzz_dispatcher", none());
    must_add(&mut plan, SystemId::Fizz, "fizz", one("fizzbuzz_dispatcher"));
    must_add(&mut plan, SystemId::Buzz, "buzz", one("fizzbuzz_dispatcher"));
    must_add(&mut plan, SystemId::FizzBuzz, "fizzbuzz", one("fizzbuzz_dispatcher"));
    assert(outline(plan@) =~= example_5_outline());
    plan
}

/// The outline of `example_6_dispatcher`.
pub open spec fn example_6_outline() -> Seq<Outline> {
    seq![free(SystemId::CountModifier1, "mod_1"@), free(SystemId::CountModifier2, "mod_2"@), free(SystemId::CountModifier3, "mod_3"@), free(SystemId::CountModifier4, "mod_4"@), Outline::Barrier, free(SystemId::CounterSideEffects, "side_effects"@), after(SystemId::ColorBasedOnCount, "color_change"@, "side_effects"@)]
}

/// Four systems propose changes to the counters, and behind a barrier one
/// system applies them and another colours by the count.
pub fn example_6_dispatcher() -> (plan: DispatchPlan)
    ensures
        plan.wf(),
        by_the_book(plan@),
        outline(plan@) == example_6_outline(),
{
    proof {
        reveal_strlit("mod_1");
        reveal_strlit("mod_2");
        reveal_strlit("mod_3");
        reveal_strlit("mod_4");
        reveal_strlit("side_effects");
        reveal_strlit("color_change");
        assert("mod_1"@.len() == 5);
        assert("mod_2"@.len() == 5);
        assert("mod_3"@.len() == 5);
        assert("mod_4"@.len() == 5);
        assert("side_effects"@.len() == 12);
        assert("color_change"@.len() == 12);
        assert("mod_1"@[4] != "mod_2"@[4]);
        assert("mod_1"@[4] != "mod_3"@[4]);
        assert("mod_1"@[4] != "mod_4"@[4]);
        assert("mod_2"@[4] != "mod_3"@[4]);
        assert("mod_2"@[4] != "mod_4"@[4]);
        assert("mod_3"@[4] != "mod_4"@[4]);
        assert("side_effects"@[0] != "color_change"@[0]);
    }
    let mut plan = start();
    must_add(&mut plan, SystemId::CountModifier1, "mod_1", none());
    must_add(&mut plan, SystemId::CountModifier2, "mod_2", none());
    must_add(&mut plan, SystemId::CountModifier3, "mod_3", none());
    must_add(&mut plan, SystemId::CountModifier4, "mod_4", none());
    must_add_barrier(&mut plan);
    must_add(&mut plan, SystemId::CounterSideEffects, "side_effects", none());
    must_add(&mut plan, SystemId::ColorBasedOnCount, "color_change", one("side_effects"));
    assert(outline(plan@) =~= example_6_outline());
    plan
}

/// The outline of `example_8_dispatcher`.
pub open spec fn example_8_outline() -> Seq<Outline> {
    seq![free(SystemId::Messenger, "messenger"@)]
}

/// One system that passes messages on.
pub fn example_8_dispatcher() -> (plan: DispatchPlan)
    ensures
        plan.wf(),
        by_the_book(plan@),
        outline(plan@) == example_8_outline(),
{
    proof {
        reveal_strlit("messenger");
        assert("messenger"@.len() == 9);
    }
    let mut plan = start();
    must_add(&mut plan, SystemId::Messenger, "messenger", none());
    assert(outline(plan@) =~= example_8_outline());
    plan
}

/// The outline of `signal_sync_dispatcher`.
pub open spec fn signal_sync_outline(enable_velocity: bool, enable_rotation: bool, enable_scaling: bool) -> Seq<Outline> {
    (if enable_velocity {
        seq![free(SystemId::ChangeVelocityAtBounds, "update_velocity"@), after(SystemId::UpdatePosition, "update_position"@, "update_velocity"@)]
    } else {
        Seq::<Outline>::empty()
    }).add(
        (if enable_rotation {
        seq![free(SystemId::UpdateChildRotation, "update_rotation"@)]
    } else {
        Seq::<Outline>::empty()
    }),
    ).add(
        (if enable_scaling {
        seq![free(SystemId::UpdateChildScale, "update_scale"@)]
    } else {
        Seq::<Outline>::empty()
    }),
    )
}

/// The systems of a world whose nodes are told after each tick: movement,
/// rotation and scaling, each if it is wanted.
pub fn signal_sync_dispatcher(enable_velocity: bool, enable_rotation: bool, enable_scaling: bool) -> (plan: DispatchPlan)
    ensures
        plan.wf(),
        by_the_book(plan@),
        outline(plan@) == signal_sync_outline(enable_velocity, enable_rotation, enable_scaling),
{
    proof {
        reveal_strlit("update_velocity");
        reveal_strlit("update_position");
        reveal_strlit("update_rotation");
        reveal_strlit("update_scale");
        assert("update_velocity"@.len() == 15);
        assert("update_position"@.len() == 15);
        assert("update_rotation"@.len() == 15);
        assert("update_scale"@.len() == 12);
        assert("update_velocity"@[7] != "update_position"@[7]);
        assert("update_velocity"@[7] != "update_rotation"@[7]);
        assert("update_position"@[7] != "update_rotation"@[7]);
    }
    let mut plan = start();
    if enable_velocity {
        must_add(&mut plan, SystemId::ChangeVelocityAtBounds, "update_velocity", none());
        must_add(&mut plan, SystemId::UpdatePosition, "update_position", one("update_velocity"));
    }
    if enable_rotation {
        must_add(&mut plan, SystemId::UpdateChildRotation, "update_rotation", none());
    }
    if enable_scaling {
        must_add(&mut plan, SystemId::UpdateChildScale, "update_scale", none());
    }
    assert(outline(plan@) =~= signal_sync_outline(enable_velocity, enable_rotation, enable_scaling));
    plan
}

/// The outline of `hybrid_sync_dispatcher`.
pub open spec fn hybrid_sync_outline(parallel: bool, enable_velocity: bool, enable_rotation: bool, enable_scaling: bool) -> Seq<Outline> {
    (if enable_velocity {
        seq![free(SystemId::ChangeVelocityAtBounds, "update_velocity"@), after(SystemId::UpdatePosition, "update_position"@, "update_velocity"@)]
    } else {
        Seq::<Outline>::empty()
    }).add(
        (if enable_rotation {
        seq![free(SystemId::UpdateChildRotation, "update_rotation"@)]
    } else {
        Seq::<Outline>::empty()
    }),
    ).add(
        (if enable_scaling {
        seq![free(SystemId::UpdateChildScale, "update_scale"@)]
    } else {
        Seq::<Outline>::empty()
    }),
    ).add(
        seq![Outline::Barrier],
    ).add(
        (if parallel {
        seq![free(SystemId::VSUpdateTransformsParallel, "update_transforms"@)]
    } else {
        Seq::<Outline>::empty()
    }),
    ).add(
        (if !parallel {
        seq![free(SystemId::VSUpdateTransforms, "update_transforms"@)]
    } else {
        Seq::<Outline>::empty()
    }),
    )
}

/// The systems of a world that pushes transforms itself: movement,
/// rotation and scaling, each if it is wanted, and behind a barrier the
/// push of the transforms, through a queue if `parallel` is set.
pub fn hybrid_sync_dispatcher(parallel: bool, enable_velocity: bool, enable_rotation: bool, enable_scaling: bool) -> (plan: DispatchPlan)
    ensures
        plan.wf(),
        by_the_book(plan@),
        outline(plan@) == hybrid_sync_outline(parallel, enable_velocity, enable_rotation, enable_scaling),
{
    proof {
        reveal_strlit("update_velocity");
        reveal_strlit("update_position");
        reveal_strlit("update_rotation");
        reveal_strlit("update_scale");
        reveal_strlit("update_transforms");
        assert("update_velocity"@.len() == 15);
        assert("update_position"@.len() == 15);
        assert("update_rotation"@.len() == 15);
        assert("update_scale"@.len() == 12);
        assert("update_transforms"@.len() == 17);
        assert("update_velocity"@[7] != "update_position"@[7]);
        assert("update_velocity"@[7] != "update_rotation"@[7]);
        assert("update_position"@[7] != "update_rotation"@[7]);
    }
    let mut plan = start();
    if enable_velocity {
        must_add(&mut plan, SystemId::ChangeVelocityAtBounds, "update_velocity", none());
        must_add(&mut plan, SystemId::UpdatePosition, "update_position", one("update_velocity"));
    }
    if enable_rotation {
        must_add(&mut plan, SystemId::UpdateChildRotation, "update_rotation", none());
    }
    if enable_scaling {
        must_add(&mut plan, SystemId::UpdateChildScale, "update_scale", none());
    }
    must_add_barrier(&mut plan);
    if parallel {
        must_add(&mut plan, SystemId::VSUpdateTransformsParallel, "update_transforms", none());
    }
    if !parallel {
        must_add(&mut plan, SystemId::VSUpdateTransforms, "update_transforms", none());
    }
    assert(outline(plan@) =~= hybrid_sync_outline(parallel, enable_velocity, enable_rotation, enable_scaling));
    plan
}

/// The outline of `vs_sync_dispatcher`.
pub open spec fn vs_sync_outline(enable_velocity: bool, enable_rotation: bool, enable_scaling: bool) -> Seq<Outline> {
    (if enable_velocity {
        seq![free(SystemId::ChangeVelocityAtBounds, "update_velocity"@), after(SystemId::UpdatePosition, "update_position"@, "update_velocity"@)]
    } else {
        Seq::<Outline>::empty()
    }).add(
        (if enable_rotation {
        seq![free(SystemId::UpdateChildRotation, "update_rotation"@)]
    } else {
        Seq::<Outline>::empty()
    }),
    ).add(
        (if enable_scaling {
        seq![free(SystemId::UpdateChildScale, "update_scale"@)]
    } else {
        Seq::<Outline>::empty()
    }),
    ).add(
        seq![free(SystemId::RainbowColor, "change_color"@), Outline::Barrier, free(SystemId::VSUpdateTransforms, "update_transforms"@), free(SystemId::VSUpdateShaderParams, "update_shader_materials"@)],
    )
}

/// The systems of a world that draws without nodes: movement, rotation
/// and scaling, each if it is wanted, the colour of time, and behind a
/// barrier the push of transforms and of shader colours.
pub fn vs_sync_dispatcher(enable_velocity: bool, enable_rotation: bool, enable_scaling: bool) -> (plan: DispatchPlan)
    ensures
        plan.wf(),
        by_the_book(plan@),
        outline(plan@) == vs_sync_outline(enable_velocity, enable_rotation, enable_scaling),
{
    proof {
        reveal_strlit("update_velocity");
        reveal_strlit("update_position");
        reveal_strlit("update_rotation");
        reveal_strlit("update_scale");
        reveal_strlit("change_color");
        reveal_strlit("update_transforms");
        reveal_strlit("update_shader_materials");
        assert("update_velocity"@.len() == 15);
        assert("update_position"@.len() == 15);
        assert("update_rotation"@.len() == 15);
        assert("update_scale"@.len() == 12);
        assert("change_color"@.len() == 12);
        assert("update_transforms"@.len() == 17);
        assert("update_shader_materials"@.len() == 23);
        assert("update_velocity"@[7] != "update_position"@[7]);
        assert("update_velocity"@[7] != "update_rotation"@[7]);
        assert("update_position"@[7] != "update_rotation"@[7]);
        assert("update_scale"@[0] != "change_color"@[0]);
    }
    let mut plan = start();
    if enable_velocity {
        must_add(&mut plan, SystemId::ChangeVelocityAtBounds, "update_velocity", none());
        must_add(&mut plan, SystemId::UpdatePosition, "update_position", one("update_velocity"));
    }
    if enable_rotation {
        must_add(&mut plan, SystemId::UpdateChildRotation, "update_rotation", none());
    }
    if enable_scaling {
        must_add(&mut plan, SystemId::UpdateChildScale, "update_scale", none());
    }
    must_add(&mut plan, SystemId::RainbowColor, "change_color", none());
    must_add_barrier(&mut plan);
    must_add(&mut plan, SystemId::VSUpdateTransforms, "update_transforms", none());
    must_add(&mut plan, SystemId::VSUpdateShaderParams, "update_shader_materials", none());
    assert(outline(plan@) =~= vs_sync_outline(enable_velocity, enable_rotation, enable_scaling));
    plan
}

/// In the third example the positions are moved with the velocities of
/// this tick: in every order in which the systems may take effect, both
/// systems that write velocities come before both that write positions.
pub proof fn lemma_example_3_velocities_first(steps: Seq<Step>, order: Seq<int>, p: int, q: int)
    requires
        outline(steps) == example_3_outline(),
        crate::schedule::admissible(steps, order),
        0 <= p < order.len(),
        0 <= q < order.len(),
        order[p] == 0 || order[p] == 1,
        order[q] == 3 || order[q] == 4,
    ensures
        p < q,
{
    assert(outline(steps).len() == 5);
    assert(outline(steps)[2] == outline_of(steps[2]));
    assert(steps[2] is Barrier);
    crate::schedule::lemma_before_and_behind_a_barrier(steps, order, p, q, 2);
}

} // verus!
