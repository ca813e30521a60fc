//! Building a dispatcher from a plan.
//!
//! The dispatcher of `specs` refuses, by a panic, a system that depends on
//! a name it does not know, or whose name it has. The builder here keeps a
//! plan beside the outside builder and adds a system to both or to
//! neither, so that the outside builder is only ever handed what it
//! accepts.
//!
//! The outside builder keeps systems that are in conflict from running at
//! the same time, but it does not keep them in the order of their
//! declaration. So a system is handed to it with more to follow than it
//! names itself: the named systems of its stage with which it is, by what
//! the two declare, in conflict.
use vstd::prelude::*;
use specs::shred::ResourceId;
use specs::{Accessor, Dispatcher, DispatcherBuilder, System};
use crate::ecs::{dispatcher_fetches, dispatcher_tame};
use crate::schedule::{
    fits, forced_by, names, DispatchPlan, ScheduleError, Step, SystemDecl,
};

verus! {

/// `specs::DispatcherBuilder`: systems on their way into a dispatcher. The
/// proofs see it only through `builder_names`.
#[verifier::external_type_specification]
#[verifier::external_body]
pub struct ExDispatcherBuilder<'a, 'b>(DispatcherBuilder<'a, 'b>);

/// The names of the systems that were added to a builder. The empty name is
/// none.
pub uninterp spec fn builder_names(b: DispatcherBuilder<'static, 'static>) -> Set<Seq<char>>;

/// The resources that the systems in a builder fetch when they run, as
/// their accessors say.
pub uninterp spec fn builder_fetches(b: DispatcherBuilder<'static, 'static>) -> Set<ResourceId>;

/// `DispatcherBuilder::new`: a builder without systems.
#[verifier::external_body]
pub(crate) fn builder_new() -> (b: DispatcherBuilder<'static, 'static>)
    ensures
        builder_names(b) == Set::<Seq<char>>::empty(),
        builder_fetches(b) == Set::<ResourceId>::empty(),
{
    DispatcherBuilder::new()
}

/// `DispatcherBuilder::add`: the system is added, and its name, unless it
/// is empty, is one of the builder's names from then on. The call panics
/// for a dependency that is none of the builder's names and for a name that
/// is one, so both are required not to occur. The result is what
/// `Accessor::reads` and `Accessor::writes` give for the system: the
/// resources that it fetches when it runs.
#[verifier::external_body]
pub(crate) fn builder_add<S: for <'c> specs::System<'c> + Send + 'static>(
    b: &mut DispatcherBuilder<'static, 'static>,
    system: S,
    name: &String,
    dependencies: &Vec<String>,
) -> (fetched: (Vec<ResourceId>, Vec<ResourceId>))
    requires
        forall|k: int|
            0 <= k < dependencies@.len() ==> builder_names(*old(b)).contains(
                #[trigger] dependencies@[k]@,
            ),
        !builder_names(*old(b)).contains(name@),
    ensures
        builder_names(*final(b)) == (if name@.len() > 0 {
            builder_names(*old(b)).insert(name@)
        } else {
            builder_names(*old(b))
        }),
        builder_fetches(*final(b)) == builder_fetches(*old(b)).union(fetched.0@.to_set()).union(
            fetched.1@.to_set(),
        ),
{
    let fetched = (System::accessor(&system).reads(), System::accessor(&system).writes());
    let names: Vec<&str> = dependencies.iter().map(|d| d.as_str()).collect();
    b.add(system, name.as_str(), &names);
    fetched
}

/// `DispatcherBuilder::add_barrier`: the names and the systems stay as
/// they are.
#[verifier::external_body]
pub(crate) fn builder_add_barrier(b: &mut DispatcherBuilder<'static, 'static>)
    ensures
        builder_names(*final(b)) == builder_names(*old(b)),
        builder_fetches(*final(b)) == builder_fetches(*old(b)),
{
    b.add_barrier();
}

/// `DispatcherBuilder::build`: the dispatcher of the systems that were
/// added. Its systems fetch what those of the builder fetch.
#[verifier::external_body]
pub(crate) fn builder_build(b: DispatcherBuilder<'static, 'static>) -> (d: Dispatcher<
    'static,
    'static,
>)
    ensures
        dispatcher_fetches(d) == builder_fetches(b),
{
    b.build()
}

/// A dispatcher with the plan it was built from and the resources that its
/// systems fetch.
pub struct Scheduled {
    pub dispatcher: Dispatcher<'static, 'static>,
    pub plan: DispatchPlan,
    pub fetched: Vec<ResourceId>,
}

impl Scheduled {
    /// The resources that the systems fetch when they run.
    pub open spec fn fetches(&self) -> Set<ResourceId> {
        self.fetched@.to_set()
    }

    /// Whether the systems are tame: whether they keep to what a world
    /// relies on when it runs them (see `dispatcher_tame`). That is the word
    /// of whoever wrote the systems; nothing here can test it.
    pub open spec fn tame(&self) -> bool {
        dispatcher_tame(self.dispatcher)
    }

    /// The plan is valid, and the list of resources is what the systems of
    /// the dispatcher fetch.
    pub open spec fn wf(&self) -> bool {
        &&& self.plan.wf()
        &&& dispatcher_fetches(self.dispatcher) == self.fetches()
    }
}

/// A dispatcher in the making: the plan, the outside builder that holds
/// the systems themselves, and the resources that the systems fetch.
pub struct PlannedDispatcher {
    pub plan: DispatchPlan,
    pub builder: DispatcherBuilder<'static, 'static>,
    pub fetched: Vec<ResourceId>,
}

impl PlannedDispatcher {
    /// The plan is valid, the outside builder knows exactly its names, and
    /// the list of resources is what the systems of the builder fetch.
    pub open spec fn wf(&self) -> bool {
        &&& self.plan.wf()
        &&& builder_names(self.builder) == names(self.plan@)
        &&& builder_fetches(self.builder) == self.fetched@.to_set()
    }

    /// A dispatcher in the making, without systems.
    pub fn new() -> (d: Self)
        ensures
            d.wf(),
            d.plan@ == Seq::<Step>::empty(),
    {
        let d = PlannedDispatcher {
            plan: DispatchPlan::new(),
            builder: builder_new(),
            fetched: Vec::new(),
        };
        assert(names(d.plan@) =~= Set::<Seq<char>>::empty());
        assert(d.fetched@.to_set() =~= Set::<ResourceId>::empty());
        d
    }

    /// Adds a system with what it declares. Fails, and changes nothing,
    /// where the system depends on a name that no system added before has,
    /// or where its own name is taken; then the system is dropped.
    ///
    /// The outside builder is told to let the system follow the systems it
    /// names and, beside them, the named systems of its stage with which it
    /// is in conflict (`forced_by`).
    pub fn add<S: for <'c> specs::System<'c> + Send + 'static>(
        &mut self,
        system: S,
        decl: SystemDecl,
    ) -> (r: Result<(), ScheduleError>)
        requires
            old(self).wf(),
        ensures
            final(self).wf(),
            r.is_ok() == fits(old(self).plan@, decl),
            r.is_ok() ==> final(self).plan@ == old(self).plan@.push(Step::System(decl)),
            r.is_err() ==> final(self).plan@ == old(self).plan@ && final(self).builder == old(self).builder && final(self).fetched == old(self).fetched,
            r == Err::<(), ScheduleError>(ScheduleError::UnknownDependency) <==> exists|k: int|
                0 <= k < decl.dependencies@.len() && !names(old(self).plan@).contains(
                    decl.dependencies@[k]@,
                ),
    {
        let name = decl.name.clone();
        let mut dependencies = clone_names(&decl.dependencies);
        let mut forced = self.plan.forced_names(&decl);
        let ghost named = dependencies@;
        let ghost made = forced@;
        dependencies.append(&mut forced);
        proof {
            assert forall|k: int| 0 <= k < dependencies@.len() implies (names(self.plan@).contains(
                #[trigger] dependencies@[k]@,
            ) <== fits(self.plan@, decl)) by {
                if fits(self.plan@, decl) {
                    if k < named.len() {
                        assert(dependencies@[k] == named[k]);
                        assert(named[k]@ == decl.dependencies@[k]@);
                    } else {
                        assert(dependencies@[k] == made[k - named.len()]);
                        assert(forced_by(self.plan@, decl).contains(made[k - named.len()]@));
                    }
                }
            }
        }
        match self.plan.add(decl) {
            Ok(()) => {
                let (mut reads, mut writes) = builder_add(
                    &mut self.builder,
                    system,
                    &name,
                    &dependencies,
                );
                let ghost had = self.fetched@;
                let ghost read = reads@;
                let ghost written = writes@;
                self.fetched.append(&mut reads);
                self.fetched.append(&mut writes);
                proof {
                    lemma_names_push(old(self).plan@, decl);
                    assert(self.fetched@ =~= had + read + written);
                    assert forall|id: ResourceId| self.fetched@.to_set().contains(id) <==> had.to_set().union(
                        read.to_set(),
                    ).union(written.to_set()).contains(id) by {
                        if self.fetched@.contains(id) {
                            let j = choose|j: int| 0 <= j < self.fetched@.len() && self.fetched@[j] == id;
                            if j < had.len() {
                                assert(had[j] == id);
                            } else if j < had.len() + read.len() {
                                assert(read[j - had.len()] == id);
                            } else {
                                assert(written[j - had.len() - read.len()] == id);
                            }
                        }
                        if had.contains(id) {
                            let j = choose|j: int| 0 <= j < had.len() && had[j] == id;
                            assert(self.fetched@[j] == id);
                        }
                        if read.contains(id) {
                            let j = choose|j: int| 0 <= j < read.len() && read[j] == id;
                            assert(self.fetched@[had.len() + j] == id);
                        }
                        if written.contains(id) {
                            let j = choose|j: int| 0 <= j < written.len() && written[j] == id;
                            assert(self.fetched@[had.len() + read.len() + j] == id);
                        }
                    }
                    assert(self.fetched@.to_set() =~= had.to_set().union(read.to_set()).union(
                        written.to_set(),
                    ));
                }
                Ok(())
            },
            Err(e) => Err(e),
        }
    }

    /// Adds a barrier.
    pub fn add_barrier(&mut self)
        requires
            old(self).wf(),
        ensures
            final(self).wf(),
            final(self).plan@ == old(self).plan@.push(Step::Barrier),
    {
        self.plan.add_barrier();
        builder_add_barrier(&mut self.builder);
        proof {
            lemma_names_barrier(old(self).plan@);
        }
    }

    /// The dispatcher, with the plan it was built from and the resources
    /// that its systems fetch.
    pub fn build(self) -> (r: Scheduled)
        requires
            self.wf(),
        ensures
            r.wf(),
            r.plan == self.plan,
            r.fetched == self.fetched,
    {
        Scheduled {
            dispatcher: builder_build(self.builder),
            plan: self.plan,
            fetched: self.fetched,
        }
    }
}

/// Equal names of their own.
fn clone_names(list: &Vec<String>) -> (r: Vec<String>)
    ensures
        r@.len() == list@.len(),
        forall|k: int| 0 <= k < list@.len() ==> (#[trigger] r@[k])@ == list@[k]@,
{
    let mut r: Vec<String> = Vec::new();
    let mut k: usize = 0;
    while k < list.len()
        invariant
            k <= list@.len(),
            r@.len() == k,
            forall|m: int| 0 <= m < k ==> (#[trigger] r@[m])@ == list@[m]@,
        decreases list@.len() - k,
    {
        r.push(list[k].clone());
        k += 1;
    }
    r
}

/// The names of a plan with one more system.
pub proof fn lemma_names_push(steps: Seq<Step>, decl: SystemDecl)
    ensures
        names(steps.push(Step::System(decl))) == (if decl.name@.len() > 0 {
            names(steps).insert(decl.name@)
        } else {
            names(steps)
        }),
{
    let more = steps.push(Step::System(decl));
    assert forall|name: Seq<char>| names(more).contains(name) <==> (if decl.name@.len() > 0 {
        names(steps).insert(decl.name@)
    } else {
        names(steps)
    }).contains(name) by {
        if names(more).contains(name) {
            let i = choose|i: int| crate::schedule::is_named(more, i, name);
            if i < steps.len() {
                assert(crate::schedule::is_named(steps, i, name));
            }
        }
        if names(steps).contains(name) {
            let i = choose|i: int| crate::schedule::is_named(steps, i, name);
            assert(crate::schedule::is_named(more, i, name));
        }
        if decl.name@.len() > 0 && name == decl.name@ {
            assert(crate::schedule::is_named(more, steps.len() as int, name));
        }
    }
    assert(names(more) =~= (if decl.name@.len() > 0 {
        names(steps).insert(decl.name@)
    } else {
        names(steps)
    }));
}

/// The names of a plan with one more barrier.
pub proof fn lemma_names_barrier(steps: Seq<Step>)
    ensures
        names(steps.push(Step::Barrier)) == names(steps),
{
    let more = steps.push(Step::Barrier);
    assert forall|name: Seq<char>| names(more).contains(name) <==> names(steps).contains(
        name,
    ) by {
        if names(more).contains(name) {
            let i = choose|i: int| crate::schedule::is_named(more, i, name);
            assert(crate::schedule::is_named(steps, i, name));
        }
        if names(steps).contains(name) {
            let i = choose|i: int| crate::schedule::is_named(steps, i, name);
            assert(crate::schedule::is_named(more, i, name));
        }
    }
    assert(names(more) =~= names(steps));
}

} // verus!
