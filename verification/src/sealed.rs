//! The seal on the traits that only the types of this library implement.
//!
//! Each component type has a kind and each payload type a channel of its
//! own. A type from elsewhere would have to share one, and the world would
//! mix the two up: so there is none.
use vstd::prelude::*;
use crate::components::{
    AngularVelocity, Counter, Player, Position, Rotation, Scale, SetVelocityIntent, ShaderParams,
    StayInsideBounds, StringContainer, TextureOverride, TreeRelationship, Velocity,
};
use crate::messages::{
    BuzzMessage, FizzBuzzMessage, FizzMessage, FizzbuzzInputMessage, FizzbuzzOutputMessage,
    SideEffectMessage, StringMessage,
};

verus! {

/// Implemented by the component and payload types of this library, and by
/// nothing else: the module is not public.
pub trait Sealed {
}

impl Sealed for Position {
}

impl Sealed for Rotation {
}

impl Sealed for Scale {
}

impl Sealed for Velocity {
}

impl Sealed for AngularVelocity {
}

impl Sealed for SetVelocityIntent {
}

impl Sealed for StayInsideBounds {
}

impl Sealed for Player {
}

impl Sealed for Counter {
}

impl Sealed for ShaderParams {
}

impl Sealed for TextureOverride {
}

impl Sealed for TreeRelationship {
}

impl Sealed for StringContainer {
}

impl Sealed for StringMessage {
}

impl Sealed for FizzbuzzInputMessage {
}

impl Sealed for FizzbuzzOutputMessage {
}

impl Sealed for FizzMessage {
}

impl Sealed for BuzzMessage {
}

impl Sealed for FizzBuzzMessage {
}

impl Sealed for SideEffectMessage {
}

} // verus!
