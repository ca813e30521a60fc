//! Messages and the queues that carry them.
//!
//! A queue is an unbounded first-in-first-out channel for one type of
//! payload. Queues know nothing of entities or of each other: there is an
//! order inside one queue and none between two.
use vstd::prelude::*;
use crossbeam::queue::SegQueue;
use std::marker::PhantomData;

verus! {

/// A proposed change to a counter.
#[derive(Clone, Copy, Debug, PartialEq, Eq, Structural)]
pub enum SideEffect {
    SetZero,
    Increment,
    Decrement,
    Add { amount: i32 },
    Subtract { amount: i32 },
}

/// What travels through a queue: every payload is one of these on the wire.
#[derive(Debug, PartialEq, Eq)]
pub enum Message {
    /// A payload without content.
    Signal,
    /// A payload that is one number.
    Number(i32),
    /// A payload that is one text.
    Text(String),
    /// A change proposed for the counter of one entity.
    Effect(specs::Entity, SideEffect),
}

/// The channels: one for each type of payload.
#[derive(Clone, Copy, Debug, PartialEq, Eq, Structural)]
pub enum MessageKind {
    Text,
    FizzbuzzInput,
    FizzbuzzOutput,
    Fizz,
    Buzz,
    FizzBuzz,
    SideEffect,
}

/// A type of payload: its channel, and how it reads on the wire.
pub trait Payload: Sized + crate::sealed::Sealed {
    /// The channel of this payload type.
    spec fn channel() -> MessageKind;

    /// The payload on the wire.
    spec fn encode_spec(self) -> Message;

    /// The payload that a message on the wire stands for, if it is one of
    /// this type.
    spec fn decode_spec(m: Message) -> Option<Self>;

    fn encode(self) -> (m: Message)
        ensures
            m == self.encode_spec(),
    ;

    fn decode(m: Message) -> (r: Option<Self>)
        ensures
            r == Self::decode_spec(m),
    ;

    /// Nothing is lost on the wire.
    proof fn round_trip(self)
        ensures
            Self::decode_spec(self.encode_spec()) == Some(self),
    ;
}

/// A line of text for whoever listens.
#[derive(Clone, Debug, PartialEq, Eq)]
pub struct StringMessage {
    pub message: String,
}

/// A number to be judged.
#[derive(Clone, Copy, Debug, PartialEq, Eq, Structural)]
pub struct FizzbuzzInputMessage(pub i32);

/// The verdict on a number.
#[derive(Clone, Debug, PartialEq, Eq)]
pub struct FizzbuzzOutputMessage(pub String);

/// The number was a multiple of three.
#[derive(Clone, Copy, Debug, Default, PartialEq, Eq, Structural)]
pub struct FizzMessage;

/// The number was a multiple of five.
#[derive(Clone, Copy, Debug, Default, PartialEq, Eq, Structural)]
pub struct BuzzMessage;

/// The number was a multiple of fifteen.
#[derive(Clone, Copy, Debug, Default, PartialEq, Eq, Structural)]
pub struct FizzBuzzMessage;

/// A change proposed for the counter of one entity.
#[derive(Clone, Copy, Debug, PartialEq, Eq)]
pub struct SideEffectMessage {
    pub entity: specs::Entity,
    pub effect: SideEffect,
}

impl Payload for StringMessage {
    open spec fn channel() -> MessageKind {
        MessageKind::Text
    }

    open spec fn encode_spec(self) -> Message {
        Message::Text(self.message)
    }

    open spec fn decode_spec(m: Message) -> Option<Self> {
        match m {
            Message::Text(s) => Some(StringMessage { message: s }),
            _ => None,
        }
    }

    fn encode(self) -> (m: Message) {
        Message::Text(self.message)
    }

    fn decode(m: Message) -> (r: Option<Self>) {
        match m {
            Message::Text(s) => Some(StringMessage { message: s }),
            _ => None,
        }
    }

    proof fn round_trip(self) {
    }
}

impl Payload for FizzbuzzInputMessage {
    open spec fn channel() -> MessageKind {
        MessageKind::FizzbuzzInput
    }

    open spec fn encode_spec(self) -> Message {
        Message::Number(self.0)
    }

    open spec fn decode_spec(m: Message) -> Option<Self> {
        match m {
            Message::Number(n) => Some(FizzbuzzInputMessage(n)),
            _ => None,
        }
    }

    fn encode(self) -> (m: Message) {
        Message::Number(self.0)
    }

    fn decode(m: Message) -> (r: Option<Self>) {
        match m {
            Message::Number(n) => Some(FizzbuzzInputMessage(n)),
            _ => None,
        }
    }

    proof fn round_trip(self) {
    }
}

impl Payload for FizzbuzzOutputMessage {
    open spec fn channel() -> MessageKind {
        MessageKind::FizzbuzzOutput
    }

    open spec fn encode_spec(self) -> Message {
        Message::Text(self.0)
    }

    open spec fn decode_spec(m: Message) -> Option<Self> {
        match m {
            Message::Text(s) => Some(FizzbuzzOutputMessage(s)),
            _ => None,
        }
    }

    fn encode(self) -> (m: Message) {
        Message::Text(self.0)
    }

    fn decode(m: Message) -> (r: Option<Self>) {
        match m {
            Message::Text(s) => Some(FizzbuzzOutputMessage(s)),
            _ => None,
        }
    }

    proof fn round_trip(self) {
    }
}

impl Payload for FizzMessage {
    open spec fn channel() -> MessageKind {
        MessageKind::Fizz
    }

    open spec fn encode_spec(self) -> Message {
        Message::Signal
    }

    open spec fn decode_spec(m: Message) -> Option<Self> {
        match m {
            Message::Signal => Some(FizzMessage),
            _ => None,
        }
    }

    fn encode(self) -> (m: Message) {
        Message::Signal
    }

    fn decode(m: Message) -> (r: Option<Self>) {
        match m {
            Message::Signal => Some(FizzMessage),
            _ => None,
        }
    }

    proof fn round_trip(self) {
    }
}

impl Payload for BuzzMessage {
    open spec fn channel() -> MessageKind {
        MessageKind::Buzz
    }

    open spec fn encode_spec(self) -> Message {
        Message::Signal
    }

    open spec fn decode_spec(m: Message) -> Option<Self> {
        match m {
            Message::Signal => Some(BuzzMessage),
            _ => None,
        }
    }

    fn encode(self) -> (m: Message) {
        Message::Signal
    }

    fn decode(m: Message) -> (r: Option<Self>) {
        match m {
            Message::Signal => Some(BuzzMessage),
            _ => None,
        }
    }

    proof fn round_trip(self) {
    }
}

impl Payload for FizzBuzzMessage {
    open spec fn channel() -> MessageKind {
        MessageKind::FizzBuzz
    }

    open spec fn encode_spec(self) -> Message {
        Message::Signal
    }

    open spec fn decode_spec(m: Message) -> Option<Self> {
        match m {
            Message::Signal => Some(FizzBuzzMessage),
            _ => None,
        }
    }

    fn encode(self) -> (m: Message) {
        Message::Signal
    }

    fn decode(m: Message) -> (r: Option<Self>) {
        match m {
            Message::Signal => Some(FizzBuzzMessage),
            _ => None,
        }
    }

    proof fn round_trip(self) {
    }
}

impl Payload for SideEffectMessage {
    open spec fn channel() -> MessageKind {
        MessageKind::SideEffect
    }

    open spec fn encode_spec(self) -> Message {
        Message::Effect(self.entity, self.effect)
    }

    open spec fn decode_spec(m: Message) -> Option<Self> {
        match m {
            Message::Effect(entity, effect) => Some(SideEffectMessage { entity, effect }),
            _ => None,
        }
    }

    fn encode(self) -> (m: Message) {
        Message::Effect(self.entity, self.effect)
    }

    fn decode(m: Message) -> (r: Option<Self>) {
        match m {
            Message::Effect(entity, effect) => Some(SideEffectMessage { entity, effect }),
            _ => None,
        }
    }

    proof fn round_trip(self) {
    }
}

/// `crossbeam::queue::SegQueue`: an unbounded queue. The proofs see it only
/// through `queue_items`.
#[verifier::external_type_specification]
#[verifier::external_body]
#[verifier::reject_recursive_types(T)]
pub struct ExSegQueue<T>(SegQueue<T>);

/// The messages waiting in a queue, oldest first.
pub uninterp spec fn queue_items(q: SegQueue<Message>) -> Seq<Message>;

/// `SegQueue::new`: the queue it makes holds nothing.
#[verifier::external_body]
pub(crate) fn seg_new() -> (q: SegQueue<Message>)
    ensures
        queue_items(q) == Seq::<Message>::empty(),
{
    SegQueue::new()
}

/// `SegQueue::push`: the message goes to the back of the queue, behind all
/// that wait there. Stated for a queue that the caller holds alone.
#[verifier::external_body]
pub(crate) fn seg_push(q: &mut SegQueue<Message>, m: Message)
    ensures
        queue_items(*final(q)) == queue_items(*old(q)).push(m),
{
    q.push(m)
}

/// `SegQueue::pop`: the message at the front leaves the queue and is
/// returned; an empty queue gives `None` and stays empty. Stated for a queue
/// that the caller holds alone.
#[verifier::external_body]
pub(crate) fn seg_pop(q: &mut SegQueue<Message>) -> (r: Option<Message>)
    ensures
        queue_items(*old(q)).len() == 0 ==> r.is_none() && queue_items(*final(q)) == queue_items(
            *old(q),
        ),
        queue_items(*old(q)).len() > 0 ==> r == Some(queue_items(*old(q)).first())
            && queue_items(*final(q)) == queue_items(*old(q)).drop_first(),
{
    q.pop()
}

/// What a sequence of messages on the wire reads as for one payload type.
pub open spec fn decoded<T: Payload>(raw: Seq<Message>) -> Seq<T> {
    Seq::new(raw.len(), |i: int| T::decode_spec(raw[i]).unwrap())
}

/// Whether every message of the sequence is one of the payload type.
pub open spec fn all_decode<T: Payload>(raw: Seq<Message>) -> bool {
    forall|i: int| 0 <= i < raw.len() ==> (#[trigger] T::decode_spec(raw[i])).is_some()
}

/// An unbounded first-in-first-out queue of payloads of one type.
///
/// The queue never blocks and never refuses a message: one that nobody
/// reads grows without bound.
pub struct WorldMsgQueue<T: Payload> {
    pub(crate) queue: SegQueue<Message>,
    pub(crate) marker: PhantomData<T>,
}

impl<T: Payload> WorldMsgQueue<T> {
    /// The messages on the wire, oldest first.
    pub closed spec fn raw(&self) -> Seq<Message> {
        queue_items(self.queue)
    }

    /// The payloads that wait, oldest first.
    pub open spec fn view(&self) -> Seq<T> {
        decoded::<T>(self.raw())
    }

    /// Every message in the queue is a payload of the queue's type. A queue
    /// that was made by `new` and used through `push` and `pop` is well
    /// formed.
    pub open spec fn wf(&self) -> bool {
        all_decode::<T>(self.raw())
    }

    /// A queue that holds nothing.
    pub fn new() -> (q: Self)
        ensures
            q.wf(),
            q@ == Seq::<T>::empty(),
    {
        let q = WorldMsgQueue { queue: seg_new(), marker: PhantomData };
        assert(q@ =~= Seq::<T>::empty());
        q
    }

    /// Puts a payload at the back of the queue.
    pub fn push(&mut self, message: T)
        requires
            old(self).wf(),
        ensures
            final(self).wf(),
            final(self)@ == old(self)@.push(message),
    {
        proof {
            message.round_trip();
        }
        let wire = message.encode();
        seg_push(&mut self.queue, wire);
        assert(self@ =~= old(self)@.push(message));
    }

    /// Takes the oldest payload out of the queue; `None` if nothing waits.
    pub fn pop(&mut self) -> (r: Option<T>)
        requires
            old(self).wf(),
        ensures
            final(self).wf(),
            old(self)@.len() == 0 ==> r.is_none() && final(self)@ == old(self)@,
            old(self)@.len() > 0 ==> r == Some(old(self)@.first()) && final(self)@ == old(self)@.drop_first(),
    {
        match seg_pop(&mut self.queue) {
            Some(wire) => {
                assert(self@ =~= old(self)@.drop_first());
                T::decode(wire)
            },
            None => None,
        }
    }
}

/// The queue after each payload of `ms` was pushed in turn.
pub open spec fn push_all<T>(q: Seq<T>, ms: Seq<T>) -> Seq<T>
    decreases ms.len(),
{
    if ms.len() == 0 {
        q
    } else {
        push_all(q.push(ms.first()), ms.drop_first())
    }
}

/// What `n` pops in a row return.
pub open spec fn pop_results<T>(q: Seq<T>, n: nat) -> Seq<Option<T>>
    decreases n,
{
    if n == 0 {
        Seq::empty()
    } else if q.len() == 0 {
        seq![None].add(pop_results(q, (n - 1) as nat))
    } else {
        seq![Some(q.first())].add(pop_results(q.drop_first(), (n - 1) as nat))
    }
}

/// Pushing in turn appends in order.
pub proof fn lemma_push_all<T>(q: Seq<T>, ms: Seq<T>)
    ensures
        push_all(q, ms) == q + ms,
    decreases ms.len(),
{
    if ms.len() == 0 {
        assert(q + ms =~= q);
    } else {
        lemma_push_all(q.push(ms.first()), ms.drop_first());
        assert(q.push(ms.first()) + ms.drop_first() =~= q + ms);
    }
}

/// As many pops as payloads wait return the payloads from the oldest on.
pub proof fn lemma_pop_all<T>(q: Seq<T>)
    ensures
        pop_results(q, q.len()) == q.map_values(|m: T| Some(m)),
    decreases q.len(),
{
    if q.len() == 0 {
        assert(pop_results(q, q.len()) =~= q.map_values(|m: T| Some(m)));
    } else {
        lemma_pop_all(q.drop_first());
        assert(pop_results(q, q.len()) =~= q.map_values(|m: T| Some(m)));
    }
}

/// Messages leave a queue in the order in which they came: when payloads are
/// pushed onto an empty queue and as many are popped, the pops return the
/// payloads in the order of the pushes, each once.
pub proof fn lemma_fifo<T>(ms: Seq<T>)
    ensures
        pop_results(push_all(Seq::<T>::empty(), ms), ms.len()) == ms.map_values(|m: T| Some(m)),
{
    lemma_push_all(Seq::<T>::empty(), ms);
    assert(Seq::<T>::empty() + ms =~= ms);
    lemma_pop_all(ms);
}

} // verus!
