//! The schedule of systems: what each system declares, the stages that
//! barriers cut the schedule into, and which systems may run at the same
//! time.
//!
//! A plan is the list of what a dispatcher is built from, in the order of
//! declaration. A plan that was built through `add` is valid: every name a
//! system depends on belongs to a system declared before it, and no name is
//! given twice. A dispatcher can be built from a valid plan without fail.
use vstd::prelude::*;
use crate::components::ComponentKind;
use crate::messages::MessageKind;

verus! {

/// What a system reads or writes: a storage or a resource.
#[derive(Clone, Copy, Debug, PartialEq, Eq, Structural)]
pub enum Target {
    /// The storage of a component kind.
    Component(ComponentKind),
    /// The clock.
    Time,
    /// The bounding box.
    BoundingBox,
    /// The queue of a channel.
    Queue(MessageKind),
    /// Something of the presentation layer, by a number of its own.
    Host(u32),
}

/// The systems that the library knows by name; others go by a number.
#[derive(Clone, Copy, Debug, PartialEq, Eq, Structural)]
pub enum SystemId {
    ChangeVelocityAtBounds,
    UpdatePosition,
    UpdateRotation,
    SetVelocity,
    UpdatePositionWithBounds,
    UpdateBoundedPosition,
    UpdateUnboundedPosition,
    MessagePrinting,
    FizzBuzzDispatch,
    Fizz,
    Buzz,
    FizzBuzz,
    CountModifier1,
    CountModifier2,
    CountModifier3,
    CountModifier4,
    CounterSideEffects,
    RainbowColor,
    ColorBasedOnCount,
    Messenger,
    UpdateChildRotation,
    UpdateChildScale,
    VSUpdateTransforms,
    VSUpdateTransformsParallel,
    VSUpdateShaderParams,
    Custom(u32),
}

/// What a system declares: its name, what it reads, what it writes, and the
/// names of the systems that it must follow. A system without a name has
/// the empty name; nothing can depend on it.
#[derive(Debug)]
pub struct SystemDecl {
    pub id: SystemId,
    pub name: String,
    pub reads: Vec<Target>,
    pub writes: Vec<Target>,
    pub dependencies: Vec<String>,
}

/// One step of a plan: a system, or a barrier.
#[derive(Debug)]
pub enum Step {
    System(SystemDecl),
    /// Every system before the barrier finishes before any system behind it
    /// starts.
    Barrier,
}

/// Why a system cannot be added to a plan.
#[derive(Clone, Copy, Debug, PartialEq, Eq, Structural)]
pub enum ScheduleError {
    /// The system depends on a name that no system before it has.
    UnknownDependency,
    /// A system before it has the system's name.
    DuplicateName,
}

/// Whether the step at an index is a system with the given name.
pub open spec fn is_named(steps: Seq<Step>, i: int, name: Seq<char>) -> bool {
    &&& 0 <= i < steps.len()
    &&& steps[i] is System
    &&& steps[i]->System_0.name@ == name
}

/// The names that the systems of the steps have. The empty name is none.
pub open spec fn names(steps: Seq<Step>) -> Set<Seq<char>> {
    Set::new(|name: Seq<char>| name.len() > 0 && exists|i: int| is_named(steps, i, name))
}

/// Whether a system can follow the steps: the names it depends on are there
/// and its own name is not.
pub open spec fn fits(before: Seq<Step>, decl: SystemDecl) -> bool {
    &&& forall|k: int|
        0 <= k < decl.dependencies@.len() ==> names(before).contains(
            #[trigger] decl.dependencies@[k]@,
        )
    &&& !names(before).contains(decl.name@)
}

/// Whether the steps are a valid plan: each system fits behind the steps
/// before it.
pub open spec fn valid_plan(steps: Seq<Step>) -> bool {
    forall|i: int|
        0 <= i < steps.len() && (#[trigger] steps[i]) is System ==> fits(
            steps.take(i),
            steps[i]->System_0,
        )
}

/// The stage of the step at an index: the number of barriers before it.
pub open spec fn stage_of(steps: Seq<Step>, i: int) -> nat
    decreases i,
{
    if i <= 0 || i > steps.len() {
        0
    } else if steps[i - 1] is Barrier {
        stage_of(steps, i - 1) + 1
    } else {
        stage_of(steps, i - 1)
    }
}

/// Whether two lists of targets have a target in common.
pub open spec fn overlap(a: Seq<Target>, b: Seq<Target>) -> bool {
    exists|i: int, j: int| 0 <= i < a.len() && 0 <= j < b.len() && a[i] == b[j]
}

/// Whether two systems are in conflict: one writes what the other reads or
/// writes.
pub open spec fn conflict(a: SystemDecl, b: SystemDecl) -> bool {
    ||| overlap(a.writes@, b.writes@)
    ||| overlap(a.writes@, b.reads@)
    ||| overlap(a.reads@, b.writes@)
}

/// Whether a system lists a name among those it must follow.
pub open spec fn lists(decl: SystemDecl, name: Seq<char>) -> bool {
    exists|k: int| 0 <= k < decl.dependencies@.len() && decl.dependencies@[k]@ == name
}

/// Whether the system at `i` says that it must follow the system at `j`.
pub open spec fn depends_on(steps: Seq<Step>, i: int, j: int) -> bool {
    &&& 0 <= i < steps.len()
    &&& 0 <= j < steps.len()
    &&& steps[i] is System
    &&& steps[j] is System
    &&& steps[j]->System_0.name@.len() > 0
    &&& lists(steps[i]->System_0, steps[j]->System_0.name@)
}

/// Whether two systems may run at the same time: they are in the same
/// stage, they are not in conflict, and neither says that it must follow
/// the other.
pub open spec fn eligible(steps: Seq<Step>, i: int, j: int) -> bool {
    &&& 0 <= i < steps.len()
    &&& 0 <= j < steps.len()
    &&& i != j
    &&& steps[i] is System
    &&& steps[j] is System
    &&& stage_of(steps, i) == stage_of(steps, j)
    &&& !conflict(steps[i]->System_0, steps[j]->System_0)
    &&& !depends_on(steps, i, j)
    &&& !depends_on(steps, j, i)
}

/// Whether the step at an index is a system with a name.
pub open spec fn is_named_system(steps: Seq<Step>, i: int) -> bool {
    &&& 0 <= i < steps.len()
    &&& steps[i] is System
    &&& steps[i]->System_0.name@.len() > 0
}

/// Whether the system at `j`, declared behind the system at `i` in the same
/// stage, is held back until that one has run to its end: it says that it
/// must follow it, or the two are in conflict and the earlier one has a
/// name to be followed by.
pub open spec fn held_back(steps: Seq<Step>, i: int, j: int) -> bool {
    ||| depends_on(steps, j, i)
    ||| (is_named_system(steps, i) && conflict(steps[i]->System_0, steps[j]->System_0))
}

/// Whether the system at `i` runs to its end before the system at `j`
/// starts: it is in an earlier stage, or in the same stage, declared first,
/// and the later one is held back.
pub open spec fn must_precede(steps: Seq<Step>, i: int, j: int) -> bool {
    &&& 0 <= i < steps.len()
    &&& 0 <= j < steps.len()
    &&& steps[i] is System
    &&& steps[j] is System
    &&& (stage_of(steps, i) < stage_of(steps, j) || (stage_of(steps, i) == stage_of(steps, j) && i
        < j && held_back(steps, i, j)))
}

/// Whether no barrier stands at or behind an index, so that a system added
/// now comes into the stage of the step at the index.
pub open spec fn in_last_stage(steps: Seq<Step>, i: int) -> bool {
    &&& 0 <= i < steps.len()
    &&& forall|k: int| i <= k < steps.len() ==> (#[trigger] steps[k]) is System
}

/// The names that a system is made to follow when it is added behind the
/// steps, beside those it names itself: the names of the systems of the
/// last stage with which it is in conflict.
pub open spec fn forced_by(steps: Seq<Step>, decl: SystemDecl) -> Set<Seq<char>> {
    Set::new(
        |name: Seq<char>|
            name.len() > 0 && exists|i: int|
                in_last_stage(steps, i) && is_named(steps, i, name) && conflict(
                    steps[i]->System_0,
                    decl,
                ),
    )
}

/// Whether a sequence of step indices is an order in which the systems of a
/// plan may take effect: each system once, and none before one that must
/// precede it.
pub open spec fn admissible(steps: Seq<Step>, order: Seq<int>) -> bool {
    &&& order.no_duplicates()
    &&& forall|p: int|
        0 <= p < order.len() ==> 0 <= #[trigger] order[p] < steps.len() && steps[order[p]] is System
    &&& forall|i: int| 0 <= i < steps.len() && steps[i] is System ==> order.contains(i)
    &&& forall|p: int, q: int|
        0 <= p < q < order.len() ==> !must_precede(steps, #[trigger] order[q], #[trigger] order[p])
}

/// Whether a list of targets has a target.
pub fn has_target(list: &Vec<Target>, target: Target) -> (r: bool)
    ensures
        r == list@.contains(target),
{
    let mut i: usize = 0;
    while i < list.len()
        invariant
            i <= list@.len(),
            forall|k: int| 0 <= k < i ==> list@[k] != target,
        decreases list@.len() - i,
    {
        if list[i] == target {
            return true;
        }
        i += 1;
    }
    false
}

/// Whether two lists of targets have a target in common.
pub fn targets_overlap(a: &Vec<Target>, b: &Vec<Target>) -> (r: bool)
    ensures
        r == overlap(a@, b@),
{
    let mut i: usize = 0;
    while i < a.len()
        invariant
            i <= a@.len(),
            forall|k: int, j: int| 0 <= k < i && 0 <= j < b@.len() ==> a@[k] != b@[j],
        decreases a@.len() - i,
    {
        if has_target(b, a[i]) {
            proof {
                let j = choose|j: int| 0 <= j < b@.len() && b@[j] == a@[i as int];
                assert(0 <= i < a@.len() && 0 <= j < b@.len() && a@[i as int] == b@[j]);
            }
            return true;
        }
        i += 1;
    }
    false
}

impl SystemDecl {
    /// Whether the system is in conflict with another: one writes what the
    /// other reads or writes.
    pub fn conflicts_with(&self, other: &SystemDecl) -> (r: bool)
        ensures
            r == conflict(*self, *other),
    {
        targets_overlap(&self.writes, &other.writes) || targets_overlap(&self.writes, &other.reads)
            || targets_overlap(&self.reads, &other.writes)
    }

    /// Whether the system lists a name among those it must follow.
    pub fn depends_on_name(&self, name: &String) -> (r: bool)
        ensures
            r == lists(*self, name@),
    {
        let mut k: usize = 0;
        while k < self.dependencies.len()
            invariant
                k <= self.dependencies@.len(),
                forall|m: int| 0 <= m < k ==> self.dependencies@[m]@ != name@,
            decreases self.dependencies@.len() - k,
        {
            if self.dependencies[k] == *name {
                return true;
            }
            k += 1;
        }
        false
    }
}

/// The plan of a dispatcher: systems and barriers in the order of their
/// declaration.
#[derive(Debug)]
pub struct DispatchPlan {
    pub steps: Vec<Step>,
}

impl DispatchPlan {
    /// The steps of the plan.
    pub open spec fn view(&self) -> Seq<Step> {
        self.steps@
    }

    /// Whether the plan is valid.
    pub open spec fn wf(&self) -> bool {
        valid_plan(self@)
    }

    /// The plan without steps.
    pub fn new() -> (plan: Self)
        ensures
            plan@ == Seq::<Step>::empty(),
            plan.wf(),
    {
        DispatchPlan { steps: Vec::new() }
    }

    /// Whether a system of the plan has the name. No system has the empty
    /// name.
    pub fn knows(&self, name: &String) -> (r: bool)
        ensures
            r == names(self@).contains(name@),
    {
        if name.as_str().unicode_len() == 0 {
            return false;
        }
        let mut i: usize = 0;
        while i < self.steps.len()
            invariant
                i <= self.steps@.len(),
                name@.len() > 0,
                forall|k: int| 0 <= k < i ==> !is_named(self.steps@, k, name@),
            decreases self.steps@.len() - i,
        {
            match &self.steps[i] {
                Step::System(decl) => {
                    if decl.name == *name {
                        assert(is_named(self.steps@, i as int, name@));
                        return true;
                    }
                },
                Step::Barrier => {},
            }
            i += 1;
        }
        false
    }

    /// Adds a system behind the steps of the plan. Fails, and leaves the
    /// plan as it is, where the system depends on a name that no system of
    /// the plan has, or where its own name is taken; of the two the unknown
    /// dependency is reported first.
    pub fn add(&mut self, decl: SystemDecl) -> (r: Result<(), ScheduleError>)
        requires
            old(self).wf(),
        ensures
            final(self).wf(),
            r.is_ok() == fits(old(self)@, decl),
            r.is_ok() ==> final(self)@ == old(self)@.push(Step::System(decl)),
            r.is_err() ==> final(self)@ == old(self)@,
            r == Err::<(), ScheduleError>(ScheduleError::UnknownDependency) <==> exists|k: int|
                0 <= k < decl.dependencies@.len() && !names(old(self)@).contains(
                    decl.dependencies@[k]@,
                ),
    {
        let mut k: usize = 0;
        while k < decl.dependencies.len()
            invariant
                k <= decl.dependencies@.len(),
                self@ == old(self)@,
                self.wf(),
                forall|m: int|
                    0 <= m < k ==> names(self@).contains(#[trigger] decl.dependencies@[m]@),
            decreases decl.dependencies@.len() - k,
        {
            if !self.knows(&decl.dependencies[k]) {
                return Err(ScheduleError::UnknownDependency);
            }
            k += 1;
        }
        if self.knows(&decl.name) {
            return Err(ScheduleError::DuplicateName);
        }
        self.steps.push(Step::System(decl));
        proof {
            let before = old(self)@;
            let after = self@;
            assert(after.take(before.len() as int) =~= before);
            assert forall|i: int| 0 <= i < after.len() && (#[trigger] after[i]) is System implies fits(
                after.take(i),
                after[i]->System_0,
            ) by {
                if i < before.len() {
                    assert(after.take(i) =~= before.take(i));
                    assert(after[i] == before[i]);
                }
            }
        }
        Ok(())
    }

    /// Adds a barrier behind the steps of the plan.
    pub fn add_barrier(&mut self)
        requires
            old(self).wf(),
        ensures
            final(self).wf(),
            final(self)@ == old(self)@.push(Step::Barrier),
    {
        self.steps.push(Step::Barrier);
        proof {
            let before = old(self)@;
            let after = self@;
            assert forall|i: int| 0 <= i < after.len() && (#[trigger] after[i]) is System implies fits(
                after.take(i),
                after[i]->System_0,
            ) by {
                assert(i < before.len());
                assert(after.take(i) =~= before.take(i));
                assert(after[i] == before[i]);
            }
        }
    }

    /// The names that a system is made to follow when it is added now,
    /// beside those it names itself: the names of the systems of the last
    /// stage with which it is in conflict, each as often as it occurs.
    pub fn forced_names(&self, decl: &SystemDecl) -> (r: Vec<String>)
        ensures
            forall|k: int| 0 <= k < r@.len() ==> forced_by(self@, *decl).contains(#[trigger] r@[k]@),
            forall|name: Seq<char>|
                forced_by(self@, *decl).contains(name) ==> exists|k: int|
                    0 <= k < r@.len() && #[trigger] r@[k]@ == name,
    {
        let mut r: Vec<String> = Vec::new();
        let mut i: usize = self.steps.len();
        let mut open: bool = true;
        while open && i > 0
            invariant
                i <= self.steps@.len(),
                forall|k: int| i <= k < self.steps@.len() ==> (#[trigger] self.steps@[k]) is System,
                !open ==> 0 < i && self.steps@[i - 1] is Barrier,
                forall|k: int|
                    0 <= k < r@.len() ==> forced_by(self@, *decl).contains(#[trigger] r@[k]@),
                forall|m: int, name: Seq<char>|
                    i <= m < self.steps@.len() && name.len() > 0 && is_named(self.steps@, m, name)
                        && conflict(self.steps@[m]->System_0, *decl) ==> exists|k: int|
                        0 <= k < r@.len() && #[trigger] r@[k]@ == name,
            decreases i + (if open { 1int } else { 0int }),
        {
            match &self.steps[i - 1] {
                Step::Barrier => {
                    open = false;
                },
                Step::System(earlier) => {
                    i -= 1;
                    let ghost before = r@;
                    if earlier.name.as_str().unicode_len() > 0 && earlier.conflicts_with(decl) {
                        r.push(earlier.name.clone());
                        proof {
                            assert(in_last_stage(self.steps@, i as int));
                            assert(is_named(self.steps@, i as int, earlier.name@));
                            assert(r@[r@.len() - 1]@ == earlier.name@);
                            assert forall|k: int| 0 <= k < r@.len() implies forced_by(
                                self@,
                                *decl,
                            ).contains(#[trigger] r@[k]@) by {
                                if k < before.len() {
                                    assert(r@[k] == before[k]);
                                }
                            }
                        }
                    }
                    proof {
                        assert forall|m: int, name: Seq<char>|
                            i <= m < self.steps@.len() && name.len() > 0 && is_named(
                                self.steps@,
                                m,
                                name,
                            ) && conflict(self.steps@[m]->System_0, *decl) implies exists|k: int|
                            0 <= k < r@.len() && #[trigger] r@[k]@ == name by {
                            if m == i {
                                assert(r@[r@.len() - 1]@ == name);
                            } else {
                                let k = choose|k: int| 0 <= k < before.len() && before[k]@ == name;
                                assert(r@[k]@ == name);
                            }
                        }
                    }
                },
            }
        }
        proof {
            assert forall|name: Seq<char>| forced_by(self@, *decl).contains(name) implies exists|
                k: int,
            |
                0 <= k < r@.len() && #[trigger] r@[k]@ == name by {
                let m = choose|m: int|
                    in_last_stage(self@, m) && is_named(self@, m, name) && conflict(
                        self@[m]->System_0,
                        *decl,
                    );
                if m < i {
                    assert(self.steps@[i - 1] is System);
                }
            }
        }
        r
    }

    /// The number of steps.
    pub fn len(&self) -> (n: usize)
        ensures
            n == self@.len(),
    {
        self.steps.len()
    }

    /// The stage of the step at an index: the number of barriers before it.
    pub fn stage_of(&self, index: usize) -> (stage: usize)
        requires
            index <= self@.len(),
        ensures
            stage == stage_of(self@, index as int),
    {
        let mut stage: usize = 0;
        let mut i: usize = 0;
        while i < index
            invariant
                i <= index <= self.steps@.len(),
                stage == stage_of(self.steps@, i as int),
                stage <= i,
            decreases index - i,
        {
            match &self.steps[i] {
                Step::Barrier => {
                    stage += 1;
                },
                Step::System(_) => {},
            }
            i += 1;
        }
        stage
    }

    /// The number of stages: one more than there are barriers.
    pub fn stage_count(&self) -> (count: usize)
        requires
            self@.len() < usize::MAX,
        ensures
            count == stage_of(self@, self@.len() as int) + 1,
    {
        let last = self.stage_of(self.steps.len());
        proof {
            lemma_stage_bound(self@, self@.len() as int);
        }
        last + 1
    }

    /// Whether the system at `i` says that it must follow the system at `j`.
    pub fn depends_on(&self, i: usize, j: usize) -> (r: bool)
        requires
            i < self@.len(),
            j < self@.len(),
        ensures
            r == depends_on(self@, i as int, j as int),
    {
        match &self.steps[i] {
            Step::System(a) => match &self.steps[j] {
                Step::System(b) => b.name.as_str().unicode_len() > 0 && a.depends_on_name(&b.name),
                Step::Barrier => false,
            },
            Step::Barrier => false,
        }
    }

    /// Whether the systems at two indices may run at the same time. `false`
    /// for an index that holds no system, and for a system and itself.
    pub fn may_run_concurrently(&self, i: usize, j: usize) -> (r: bool)
        ensures
            r == eligible(self@, i as int, j as int),
    {
        if i >= self.steps.len() || j >= self.steps.len() || i == j {
            return false;
        }
        match &self.steps[i] {
            Step::System(a) => match &self.steps[j] {
                Step::System(b) => {
                    self.stage_of(i) == self.stage_of(j) && !a.conflicts_with(b)
                        && !self.depends_on(i, j) && !self.depends_on(j, i)
                },
                Step::Barrier => false,
            },
            Step::Barrier => false,
        }
    }
}

/// There are no more stages before a step than steps.
pub proof fn lemma_stage_bound(steps: Seq<Step>, i: int)
    requires
        0 <= i <= steps.len(),
    ensures
        stage_of(steps, i) <= i,
    decreases i,
{
    if i > 0 {
        lemma_stage_bound(steps, i - 1);
    }
}

/// Stages do not go down along the plan.
pub proof fn lemma_stage_monotone(steps: Seq<Step>, i: int, j: int)
    requires
        0 <= i <= j <= steps.len(),
    ensures
        stage_of(steps, i) <= stage_of(steps, j),
    decreases j - i,
{
    if i < j {
        lemma_stage_monotone(steps, i, j - 1);
    }
}

/// A barrier is a fence: in every order in which the systems of a plan may
/// take effect, a system of an earlier stage comes before a system of a
/// later stage. So a system behind a barrier starts from all that was
/// written before the barrier, and no system before the barrier sees
/// anything that is written behind it.
pub proof fn lemma_barrier_is_a_fence(steps: Seq<Step>, order: Seq<int>, p: int, q: int)
    requires
        admissible(steps, order),
        0 <= p < order.len(),
        0 <= q < order.len(),
        stage_of(steps, order[p]) < stage_of(steps, order[q]),
    ensures
        p < q,
{
    if q < p {
        assert(must_precede(steps, order[p], order[q]));
    }
}

/// Every system that stands before a barrier takes effect before every
/// system that stands behind it, in every order in which the systems of the
/// plan may take effect.
pub proof fn lemma_before_and_behind_a_barrier(
    steps: Seq<Step>,
    order: Seq<int>,
    p: int,
    q: int,
    barrier: int,
)
    requires
        admissible(steps, order),
        0 <= p < order.len(),
        0 <= q < order.len(),
        order[p] < barrier < order[q],
        steps[barrier] is Barrier,
    ensures
        p < q,
{
    lemma_stage_monotone(steps, order[p], barrier);
    lemma_stage_monotone(steps, barrier + 1, order[q]);
    assert(stage_of(steps, barrier + 1) == stage_of(steps, barrier) + 1);
    lemma_barrier_is_a_fence(steps, order, p, q);
}

/// Within a stage a system takes effect behind each system that it says it
/// must follow, and behind each named system declared before it with
/// which it is in conflict.
pub proof fn lemma_declared_order_is_kept(steps: Seq<Step>, order: Seq<int>, p: int, q: int)
    requires
        admissible(steps, order),
        0 <= p < order.len(),
        0 <= q < order.len(),
        order[p] < order[q],
        stage_of(steps, order[p]) == stage_of(steps, order[q]),
        held_back(steps, order[p], order[q]),
    ensures
        p < q,
{
    if q < p {
        assert(must_precede(steps, order[p], order[q]));
    }
}

/// The systems of a plan in the order of their declaration.
pub open spec fn declared_order(steps: Seq<Step>) -> Seq<int>
    decreases steps.len(),
{
    if steps.len() == 0 {
        Seq::empty()
    } else if steps.last() is System {
        declared_order(steps.drop_last()).push(steps.len() - 1)
    } else {
        declared_order(steps.drop_last())
    }
}

/// The order of declaration holds each system once, in rising order.
pub proof fn lemma_declared_order(steps: Seq<Step>)
    ensures
        forall|p: int|
            0 <= p < declared_order(steps).len() ==> 0 <= #[trigger] declared_order(steps)[p]
                < steps.len() && steps[declared_order(steps)[p]] is System,
        forall|p: int, q: int|
            0 <= p < q < declared_order(steps).len() ==> #[trigger] declared_order(steps)[p]
                < #[trigger] declared_order(steps)[q],
        forall|i: int|
            0 <= i < steps.len() && (#[trigger] steps[i]) is System ==> declared_order(
                steps,
            ).contains(i),
    decreases steps.len(),
{
    if steps.len() > 0 {
        let front = steps.drop_last();
        let inner = declared_order(front);
        let order = declared_order(steps);
        lemma_declared_order(front);
        assert forall|p: int| 0 <= p < order.len() implies 0 <= #[trigger] order[p] < steps.len()
            && steps[order[p]] is System by {
            if p < inner.len() {
                assert(order[p] == inner[p]);
                assert(front[inner[p]] == steps[inner[p]]);
            }
        }
        assert forall|p: int, q: int| 0 <= p < q < order.len() implies #[trigger] order[p]
            < #[trigger] order[q] by {
            assert(order[p] == inner[p]);
            if q < inner.len() {
                assert(order[q] == inner[q]);
            }
        }
        assert forall|i: int| 0 <= i < steps.len() && (#[trigger] steps[i]) is System implies order.contains(
            i,
        ) by {
            if i < front.len() {
                assert(front[i] == steps[i]);
                assert(inner.contains(i));
                let p = choose|p: int| 0 <= p < inner.len() && inner[p] == i;
                assert(order[p] == i);
            } else {
                assert(order[order.len() - 1] == i);
            }
        }
    }
}

/// The order of declaration is an order in which the systems of a plan may
/// take effect: there is always one.
pub proof fn lemma_declared_order_is_admissible(steps: Seq<Step>)
    ensures
        admissible(steps, declared_order(steps)),
{
    let order = declared_order(steps);
    lemma_declared_order(steps);
    assert forall|p: int, q: int| 0 <= p < q < order.len() implies !must_precede(
        steps,
        #[trigger] order[q],
        #[trigger] order[p],
    ) by {
        assert(order[p] < order[q]);
        lemma_stage_monotone(steps, order[p], order[q]);
    }
    assert forall|p: int, q: int| 0 <= p < order.len() && 0 <= q < order.len() && p != q implies order[p]
        != order[q] by {
        if p < q {
            assert(order[p] < order[q]);
        } else {
            assert(order[q] < order[p]);
        }
    }
}

/// The state of the storages and resources: a value for each target.
pub type Stores<V> = Map<Target, V>;

/// Whether two states agree on each of the targets.
pub open spec fn agree_on<V>(a: Stores<V>, b: Stores<V>, targets: Seq<Target>) -> bool {
    forall|i: int|
        0 <= i < targets.len() ==> a.contains_key(#[trigger] targets[i]) == b.contains_key(
            targets[i],
        ) && a[targets[i]] == b[targets[i]]
}

/// Whether an effect keeps to what a system declares: it changes nothing
/// but what the system writes, and what it writes there depends on nothing
/// but what the system reads or writes.
pub open spec fn keeps_to<V>(effect: spec_fn(Stores<V>) -> Stores<V>, decl: SystemDecl) -> bool {
    &&& forall|s: Stores<V>, t: Target|
        !decl.writes@.contains(t) ==> (#[trigger] effect(s).contains_key(t)) == s.contains_key(t)
            && effect(s)[t] == s[t]
    &&& forall|s1: Stores<V>, s2: Stores<V>, k: int|
        agree_on(s1, s2, decl.reads@) && agree_on(s1, s2, decl.writes@) && 0 <= k
            < decl.writes@.len() ==> (#[trigger] effect(s1).contains_key(decl.writes@[k]))
            == (#[trigger] effect(s2).contains_key(decl.writes@[k])) && effect(s1)[decl.writes@[k]]
            == effect(s2)[decl.writes@[k]]
}

/// Two systems that are not in conflict leave the same state behind in
/// either order, whatever they do within what they declare.
pub proof fn lemma_independent_systems_commute<V>(
    a: SystemDecl,
    b: SystemDecl,
    run_a: spec_fn(Stores<V>) -> Stores<V>,
    run_b: spec_fn(Stores<V>) -> Stores<V>,
    start: Stores<V>,
)
    requires
        !conflict(a, b),
        keeps_to(run_a, a),
        keeps_to(run_b, b),
    ensures
        run_a(run_b(start)) == run_b(run_a(start)),
{
    let ab = run_b(run_a(start));
    let ba = run_a(run_b(start));
    let after_a = run_a(start);
    let after_b = run_b(start);
    // What `a` reads or writes, `b` leaves alone, and the other way round.
    assert(agree_on(start, after_b, a.reads@)) by {
        assert forall|i: int| 0 <= i < a.reads@.len() implies start.contains_key(
            #[trigger] a.reads@[i],
        ) == after_b.contains_key(a.reads@[i]) && start[a.reads@[i]] == after_b[a.reads@[i]] by {
            let t = a.reads@[i];
            if b.writes@.contains(t) {
                let j = choose|j: int| 0 <= j < b.writes@.len() && b.writes@[j] == t;
                assert(overlap(a.reads@, b.writes@));
            }
            assert(run_b(start).contains_key(t) == start.contains_key(t));
        }
    }
    assert(agree_on(start, after_b, a.writes@)) by {
        assert forall|i: int| 0 <= i < a.writes@.len() implies start.contains_key(
            #[trigger] a.writes@[i],
        ) == after_b.contains_key(a.writes@[i]) && start[a.writes@[i]] == after_b[a.writes@[i]] by {
            let t = a.writes@[i];
            if b.writes@.contains(t) {
                let j = choose|j: int| 0 <= j < b.writes@.len() && b.writes@[j] == t;
                assert(overlap(a.writes@, b.writes@));
            }
            assert(run_b(start).contains_key(t) == start.contains_key(t));
        }
    }
    assert(agree_on(start, after_a, b.reads@)) by {
        assert forall|i: int| 0 <= i < b.reads@.len() implies start.contains_key(
            #[trigger] b.reads@[i],
        ) == after_a.contains_key(b.reads@[i]) && start[b.reads@[i]] == after_a[b.reads@[i]] by {
            let t = b.reads@[i];
            if a.writes@.contains(t) {
                let j = choose|j: int| 0 <= j < a.writes@.len() && a.writes@[j] == t;
                assert(overlap(a.writes@, b.reads@));
            }
            assert(run_a(start).contains_key(t) == start.contains_key(t));
        }
    }
    assert(agree_on(start, after_a, b.writes@)) by {
        assert forall|i: int| 0 <= i < b.writes@.len() implies start.contains_key(
            #[trigger] b.writes@[i],
        ) == after_a.contains_key(b.writes@[i]) && start[b.writes@[i]] == after_a[b.writes@[i]] by {
            let t = b.writes@[i];
            if a.writes@.contains(t) {
                let j = choose|j: int| 0 <= j < a.writes@.len() && a.writes@[j] == t;
                assert(overlap(a.writes@, b.writes@));
            }
            assert(run_a(start).contains_key(t) == start.contains_key(t));
        }
    }
    assert forall|t: Target| ab.contains_key(t) == ba.contains_key(t) && ab[t] == ba[t] by {
        if a.writes@.contains(t) {
            let k = choose|k: int| 0 <= k < a.writes@.len() && a.writes@[k] == t;
            if b.writes@.contains(t) {
                let j = choose|j: int| 0 <= j < b.writes@.len() && b.writes@[j] == t;
                assert(overlap(a.writes@, b.writes@));
            }
            // `b` leaves `t` alone; `a` writes the same to it from either start.
            assert(run_b(after_a).contains_key(t) == after_a.contains_key(t));
            assert(run_a(start).contains_key(a.writes@[k]) == run_a(after_b).contains_key(
                a.writes@[k],
            ));
        } else if b.writes@.contains(t) {
            let k = choose|k: int| 0 <= k < b.writes@.len() && b.writes@[k] == t;
            assert(run_a(after_b).contains_key(t) == after_b.contains_key(t));
            assert(run_b(start).contains_key(b.writes@[k]) == run_b(after_a).contains_key(
                b.writes@[k],
            ));
        } else {
            assert(run_b(after_a).contains_key(t) == after_a.contains_key(t));
            assert(run_a(start).contains_key(t) == start.contains_key(t));
            assert(run_a(after_b).contains_key(t) == after_b.contains_key(t));
            assert(run_b(start).contains_key(t) == start.contains_key(t));
        }
    }
    assert(ab =~= ba);
}

/// Two systems of a plan that may run at the same time leave the same state
/// behind in either order.
pub proof fn lemma_eligible_systems_commute<V>(
    steps: Seq<Step>,
    i: int,
    j: int,
    run_i: spec_fn(Stores<V>) -> Stores<V>,
    run_j: spec_fn(Stores<V>) -> Stores<V>,
    start: Stores<V>,
)
    requires
        eligible(steps, i, j),
        keeps_to(run_i, steps[i]->System_0),
        keeps_to(run_j, steps[j]->System_0),
    ensures
        run_i(run_j(start)) == run_j(run_i(start)),
{
    lemma_independent_systems_commute(steps[i]->System_0, steps[j]->System_0, run_i, run_j, start);
}

} // verus!
