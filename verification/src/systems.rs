//! What the systems of the engine decide, as functions on plain values, and
//! the one system that works on a world's queue: the application of side
//! effects.
use vstd::prelude::*;
use vstd::arithmetic::div_mod::lemma_mod_multiples_vanish;
use specs::Entity;
use crate::components::{ComponentInfo, ComponentKind, Counter};
use crate::ecs::{
    same_mail_but, same_setup, world_has_queue, world_is_registered, world_mail, world_rows,
    world_store, world_take,
};
use crate::error::WorldError;
use crate::messages::{Message, MessageKind, Payload, SideEffect, SideEffectMessage};
use crate::specs_world::{stored, SpecsWorld};

verus! {

/// Where a number goes in the game of fizz and buzz.
#[derive(Clone, Copy, Debug, PartialEq, Eq, Structural)]
pub enum FizzbuzzRoute {
    /// A multiple of fifteen.
    FizzBuzz,
    /// A multiple of five, not of three.
    Buzz,
    /// A multiple of three, not of five.
    Fizz,
    /// Any other number: it is said as it is.
    Number,
}

/// Where a number goes.
pub open spec fn route_of(value: i32) -> FizzbuzzRoute {
    if value as int % 15 == 0 {
        FizzbuzzRoute::FizzBuzz
    } else if value as int % 5 == 0 {
        FizzbuzzRoute::Buzz
    } else if value as int % 3 == 0 {
        FizzbuzzRoute::Fizz
    } else {
        FizzbuzzRoute::Number
    }
}

/// Whether a number is a multiple of another, which is positive.
fn divides(value: i32, by: i32) -> (r: bool)
    requires
        0 < by <= 100,
    ensures
        r == (value as int % by as int == 0),
{
    let wide: i64 = value as i64;
    // Shifted by a multiple of `by`, the number is not negative and has the
    // same remainder.
    let shifted: i64 = wide + 2147483700i64 * (by as i64);
    let ghost v: int = value as int;
    let ghost b: int = by as int;
    assert(shifted >= 0);
    proof {
        lemma_mod_multiples_vanish(2147483700, v, b);
        assert(b * 2147483700 == 2147483700 * b) by (nonlinear_arith);
    }
    shifted % (by as i64) == 0
}

/// Where a number goes in the game of fizz and buzz.
pub fn fizzbuzz_route(value: i32) -> (r: FizzbuzzRoute)
    ensures
        r == route_of(value),
{
    if divides(value, 15) {
        FizzbuzzRoute::FizzBuzz
    } else if divides(value, 5) {
        FizzbuzzRoute::Buzz
    } else if divides(value, 3) {
        FizzbuzzRoute::Fizz
    } else {
        FizzbuzzRoute::Number
    }
}

/// The number in decimal notation, as `format!` writes it.
pub uninterp spec fn decimal_text(value: i32) -> Seq<char>;

/// `format!` with `{}` on a 32-bit integer: the number in decimal notation.
#[verifier::external_body]
pub(crate) fn decimal(value: i32) -> (text: String)
    ensures
        text@ == decimal_text(value),
{
    format!("{}", value)
}

/// What is said of a number that goes a given way, where `number` is the
/// number as it is said.
pub open spec fn verdict(route: FizzbuzzRoute, number: Seq<char>) -> Seq<char> {
    match route {
        FizzbuzzRoute::FizzBuzz => "Fizzbuzz!"@,
        FizzbuzzRoute::Buzz => "Buzz!"@,
        FizzbuzzRoute::Fizz => "Fizz!"@,
        FizzbuzzRoute::Number => number,
    }
}

/// What is said of a number that goes a given way, where `number` is the
/// number as it is said.
pub fn fizzbuzz_verdict(route: FizzbuzzRoute, number: String) -> (text: String)
    ensures
        text@ == verdict(route, number@),
{
    match route {
        FizzbuzzRoute::FizzBuzz => "Fizzbuzz!".to_owned(),
        FizzbuzzRoute::Buzz => "Buzz!".to_owned(),
        FizzbuzzRoute::Fizz => "Fizz!".to_owned(),
        FizzbuzzRoute::Number => number,
    }
}

/// What is said of a number in the game of fizz and buzz.
pub fn fizzbuzz_say(value: i32) -> (text: String)
    ensures
        text@ == verdict(route_of(value), decimal_text(value)),
{
    fizzbuzz_verdict(fizzbuzz_route(value), decimal(value))
}

/// The counter after a side effect. The arithmetic wraps around.
pub open spec fn effect_on(effect: SideEffect, counter: i32) -> i32 {
    match effect {
        SideEffect::SetZero => 0,
        SideEffect::Increment => counter.wrapping_add(1),
        SideEffect::Decrement => counter.wrapping_sub(1),
        SideEffect::Add { amount } => counter.wrapping_add(amount),
        SideEffect::Subtract { amount } => counter.wrapping_sub(amount),
    }
}

impl SideEffect {
    /// The counter after the side effect. The arithmetic wraps around.
    pub fn apply(self, counter: i32) -> (r: i32)
        ensures
            r == effect_on(self, counter),
    {
        match self {
            SideEffect::SetZero => 0,
            SideEffect::Increment => counter.wrapping_add(1),
            SideEffect::Decrement => counter.wrapping_sub(1),
            SideEffect::Add { amount } => counter.wrapping_add(amount),
            SideEffect::Subtract { amount } => counter.wrapping_sub(amount),
        }
    }
}

/// What the first modifier proposes for a counter: to add the counter to
/// itself while it is positive, else nothing.
pub fn count_modifier_1(counter: i32) -> (r: Option<SideEffect>)
    ensures
        r == (if counter > 0 {
            Some(SideEffect::Add { amount: counter })
        } else {
            None
        }),
{
    if counter > 0 {
        Some(SideEffect::Add { amount: counter })
    } else {
        None
    }
}

/// What the second modifier proposes for a counter: to start again from
/// zero above 500, else to add 5.
pub fn count_modifier_2(counter: i32) -> (r: SideEffect)
    ensures
        r == (if counter > 500 {
            SideEffect::SetZero
        } else {
            SideEffect::Add { amount: 5 }
        }),
{
    if counter > 500 {
        SideEffect::SetZero
    } else {
        SideEffect::Add { amount: 5 }
    }
}

/// What the third modifier proposes for a counter: to subtract 1 from a
/// multiple of ten, else to add 1.
pub fn count_modifier_3(counter: i32) -> (r: SideEffect)
    ensures
        r == (if counter as int % 10 == 0 {
            SideEffect::Subtract { amount: 1 }
        } else {
            SideEffect::Increment
        }),
{
    if divides(counter, 10) {
        SideEffect::Subtract { amount: 1 }
    } else {
        SideEffect::Increment
    }
}

/// What the fourth modifier proposes for a counter: to add 1 above 100,
/// else to add 10.
pub fn count_modifier_4(counter: i32) -> (r: SideEffect)
    ensures
        r == (if counter > 100 {
            SideEffect::Increment
        } else {
            SideEffect::Add { amount: 10 }
        }),
{
    if counter > 100 {
        SideEffect::Increment
    } else {
        SideEffect::Add { amount: 10 }
    }
}

/// The rows after one message of the side-effect queue was applied: the
/// counter of the entity it names is changed, if the entity has one. Any
/// other message changes nothing.
pub open spec fn rows_after_message(rows: Map<Entity, ComponentInfo>, m: Message) -> Map<
    Entity,
    ComponentInfo,
> {
    match m {
        Message::Effect(e, effect) => if rows.contains_key(e) && rows[e].counter.is_some() {
            rows.insert(
                e,
                ComponentInfo {
                    counter: Some(Counter(effect_on(effect, rows[e].counter.unwrap().0))),
                    ..rows[e]
                },
            )
        } else {
            rows
        },
        _ => rows,
    }
}

/// The rows after the messages were applied one after the other, the
/// oldest first, each to the rows as the one before left them.
pub open spec fn rows_after_messages(rows: Map<Entity, ComponentInfo>, waiting: Seq<Message>)
    -> Map<Entity, ComponentInfo>
    decreases waiting.len(),
{
    if waiting.len() == 0 {
        rows
    } else {
        rows_after_messages(rows_after_message(rows, waiting.first()), waiting.drop_first())
    }
}

impl SpecsWorld {
    /// Applies the side effects that wait in the world's queue, one after
    /// the other in the order in which they were pushed, each to the
    /// counter as it is at that time, and leaves the queue empty. A side
    /// effect for an entity without a counter is dropped.
    ///
    /// Fails, and changes nothing, where counters are not registered.
    /// Without a side-effect queue nothing happens.
    pub fn apply_side_effects(&mut self) -> (r: Result<(), WorldError>)
        requires
            old(self).wf(),
        ensures
            r.is_ok() == old(self).registered().contains(ComponentKind::Counter),
            r.is_err() ==> r == Err::<(), WorldError>(WorldError::UnregisteredComponent) && final(self).world == old(self).world,
            r.is_ok() ==> match old(self).mail(MessageKind::SideEffect) {
                Some(waiting) => final(self).rows() == rows_after_messages(
                    old(self).rows(),
                    waiting,
                ) && final(self).mail(MessageKind::SideEffect) == Some(Seq::<Message>::empty()),
                None => final(self).world == old(self).world,
            },
            same_setup(old(self).world, final(self).world),
            final(self).time() == old(self).time(),
            same_mail_but(old(self).world, final(self).world, MessageKind::SideEffect),
    {
        if !world_is_registered::<Counter>(&mut self.world) {
            return Err(WorldError::UnregisteredComponent);
        }
        if !world_has_queue::<SideEffectMessage>(&mut self.world) {
            return Ok(());
        }
        let ghost start = self.world;
        loop
            invariant
                self.wf(),
                same_setup(start, self.world),
                self.registered().contains(ComponentKind::Counter),
                self.time() == old(self).time(),
                start == old(self).world,
                same_mail_but(start, self.world, MessageKind::SideEffect),
                world_mail(start, MessageKind::SideEffect).is_some(),
                self.mail(MessageKind::SideEffect).is_some(),
                rows_after_messages(self.rows(), self.mail(MessageKind::SideEffect).unwrap())
                    == rows_after_messages(
                    world_rows(start),
                    world_mail(start, MessageKind::SideEffect).unwrap(),
                ),
            decreases self.mail(MessageKind::SideEffect).unwrap().len(),
        {
            let ghost before = self.world;
            let taken = world_take::<SideEffectMessage>(&mut self.world);
            let ghost popped = self.world;
            match taken {
                None => {
                    proof {
                        assert(world_mail(before, MessageKind::SideEffect).unwrap()
                            =~= Seq::<Message>::empty());
                    }
                    return Ok(());
                },
                Some(wire) => {
                    match SideEffectMessage::decode(wire) {
                        Some(message) => {
                            match stored::<Counter>(&mut self.world, message.entity) {
                                Some(counter) => {
                                    world_store(
                                        &mut self.world,
                                        message.entity,
                                        Counter(message.effect.apply(counter.0)),
                                    );
                                },
                                None => {},
                            }
                        },
                        None => {},
                    }
                    proof {
                        let waiting = world_mail(before, MessageKind::SideEffect).unwrap();
                        assert(wire == waiting.first());
                        assert(self.mail(MessageKind::SideEffect) == Some(waiting.drop_first()));
                        assert(self.rows() =~= rows_after_message(world_rows(before), wire));
                        assert forall|k: MessageKind|
                            k != MessageKind::SideEffect implies world_mail(start, k)
                            == world_mail(self.world, k) by {
                            assert(world_mail(start, k) == world_mail(before, k));
                            assert(world_mail(before, k) == world_mail(popped, k));
                        }
                    }
                },
            }
        }
    }
}

} // verus!
