//! Order and sign of single-precision values, read off their bit patterns,
//! and what the moving systems decide with them.
//!
//! The library does no arithmetic on real numbers. It does compare them and
//! change their sign: both are matters of the bit pattern alone.
use vstd::prelude::*;
use crate::components::Velocity;
use crate::scalar::Scalar;

verus! {

/// The bit that holds the sign.
pub const SIGN: u32 = 0x8000_0000;

/// The bits that hold the magnitude.
pub const MAGNITUDE: u32 = 0x7fff_ffff;

/// The magnitude of the infinities. A greater magnitude is not a number.
pub const INFINITY: u32 = 0x7f80_0000;

impl Scalar {
    /// Whether the value is not a number.
    pub open spec fn is_nan_spec(self) -> bool {
        (self.bits & MAGNITUDE) > INFINITY
    }

    /// Where the value stands among the numbers: its magnitude, with the
    /// sign of the value. Both zeroes stand at 0.
    pub open spec fn rank(self) -> int {
        if self.bits & SIGN != 0 {
            -((self.bits & MAGNITUDE) as int)
        } else {
            (self.bits & MAGNITUDE) as int
        }
    }

    /// Whether the value is less than another. Nothing is less than
    /// something that is not a number, nor the other way round.
    pub open spec fn lt_spec(self, other: Scalar) -> bool {
        !self.is_nan_spec() && !other.is_nan_spec() && self.rank() < other.rank()
    }

    /// The value with the opposite sign.
    pub open spec fn negated_spec(self) -> Scalar {
        Scalar { bits: self.bits ^ SIGN }
    }

    /// Whether the value is not a number.
    pub fn is_nan(&self) -> (r: bool)
        ensures
            r == self.is_nan_spec(),
    {
        (self.bits & MAGNITUDE) > INFINITY
    }

    /// The magnitude and whether the sign is set.
    fn parts(&self) -> (r: (u32, bool))
        ensures
            r.0 == self.bits & MAGNITUDE,
            r.1 == (self.bits & SIGN != 0),
    {
        (self.bits & MAGNITUDE, self.bits & SIGN != 0)
    }

    /// Whether the value is less than another.
    pub fn less_than(&self, other: &Scalar) -> (r: bool)
        ensures
            r == self.lt_spec(*other),
    {
        if self.is_nan() || other.is_nan() {
            return false;
        }
        let (a, a_negative) = self.parts();
        let (b, b_negative) = other.parts();
        if a_negative {
            if b_negative {
                b < a
            } else {
                a > 0 || b > 0
            }
        } else {
            if b_negative {
                false
            } else {
                a < b
            }
        }
    }

    /// The value with the opposite sign.
    pub fn negated(&self) -> (r: Scalar)
        ensures
            r == self.negated_spec(),
    {
        Scalar { bits: self.bits ^ SIGN }
    }
}

/// Changing the sign of a number mirrors its place among the numbers, and
/// what is not a number stays so.
pub proof fn lemma_negated(value: Scalar)
    ensures
        value.negated_spec().rank() == -value.rank(),
        value.negated_spec().is_nan_spec() == value.is_nan_spec(),
        value.negated_spec().negated_spec() == value,
{
    let bits = value.bits;
    assert((bits ^ 0x8000_0000u32) & 0x7fff_ffffu32 == bits & 0x7fff_ffffu32) by (bit_vector);
    assert(((bits ^ 0x8000_0000u32) & 0x8000_0000u32 != 0) == (bits & 0x8000_0000u32 == 0))
        by (bit_vector);
    assert((bits ^ 0x8000_0000u32) ^ 0x8000_0000u32 == bits) by (bit_vector);
}

/// The value kept between a lower and an upper bound.
pub open spec fn clamped(value: Scalar, low: Scalar, high: Scalar) -> Scalar {
    if value.lt_spec(low) {
        low
    } else if high.lt_spec(value) {
        high
    } else {
        value
    }
}

/// The value kept between a lower and an upper bound: a value below the
/// lower bound gives the lower bound, one above the upper bound the upper
/// bound, any other value itself. What is not a number stays what it is.
pub fn clamp(value: Scalar, low: Scalar, high: Scalar) -> (r: Scalar)
    requires
        !high.lt_spec(low),
        !low.is_nan_spec(),
        !high.is_nan_spec(),
    ensures
        r == clamped(value, low, high),
{
    if value.less_than(&low) {
        low
    } else if high.less_than(&value) {
        high
    } else {
        value
    }
}

/// A number that is clamped lies between the bounds.
pub proof fn lemma_clamped_is_inside(value: Scalar, low: Scalar, high: Scalar)
    requires
        !high.lt_spec(low),
        !low.is_nan_spec(),
        !high.is_nan_spec(),
        !value.is_nan_spec(),
    ensures
        !clamped(value, low, high).lt_spec(low),
        !high.lt_spec(clamped(value, low, high)),
        !clamped(value, low, high).is_nan_spec(),
{
}

/// Whether a value lies outside the bounds.
pub open spec fn outside(value: Scalar, low: Scalar, high: Scalar) -> bool {
    value.lt_spec(low) || high.lt_spec(value)
}

/// The speed along one axis of an entity that is about to be at `future`:
/// turned round where that lies outside the bounds, else as it is.
pub open spec fn reflected(speed: Scalar, future: Scalar, low: Scalar, high: Scalar) -> Scalar {
    if outside(future, low, high) {
        speed.negated_spec()
    } else {
        speed
    }
}

/// The speed along one axis of an entity that is about to be at `future`:
/// turned round where that lies outside the bounds, else as it is.
pub fn reflect(speed: Scalar, future: Scalar, low: Scalar, high: Scalar) -> (r: Scalar)
    ensures
        r == reflected(speed, future, low, high),
{
    if future.less_than(&low) || high.less_than(&future) {
        speed.negated()
    } else {
        speed
    }
}

/// A box in the plane, by its lower and its upper corner.
#[derive(Clone, Copy, Debug, PartialEq, Eq, Structural)]
pub struct Bounds {
    pub x_min: Scalar,
    pub y_min: Scalar,
    pub x_max: Scalar,
    pub y_max: Scalar,
}

/// The velocity of an entity that is about to be at `(future_x, future_y)`:
/// along each axis turned round where the entity would leave the box.
pub fn velocity_at_bounds(velocity: Velocity, future_x: Scalar, future_y: Scalar, bounds: &Bounds)
    -> (r: Velocity)
    ensures
        r.x == reflected(velocity.x, future_x, bounds.x_min, bounds.x_max),
        r.y == reflected(velocity.y, future_y, bounds.y_min, bounds.y_max),
{
    Velocity {
        x: reflect(velocity.x, future_x, bounds.x_min, bounds.x_max),
        y: reflect(velocity.y, future_y, bounds.y_min, bounds.y_max),
    }
}

} // verus!
