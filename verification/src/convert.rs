//! Conversions between components and the values of the presentation
//! layer.
use vstd::prelude::*;
use vstd::std_specs::convert::{FromSpecImpl, TryFromSpecImpl};
use crate::components::{
    AngularVelocity, ComponentInfo, Position, Scale, SetVelocityIntent, Velocity,
};
use crate::scalar::Scalar;
use crate::value::{Description, Value, Vector2};

verus! {

impl From<&Position> for Vector2 {
    fn from(c: &Position) -> (vec: Self) {
        Vector2 { x: c.x, y: c.y }
    }
}

impl FromSpecImpl<&Position> for Vector2 {
    open spec fn obeys_from_spec() -> bool {
        true
    }

    open spec fn from_spec(c: &Position) -> Self {
        Vector2 { x: c.x, y: c.y }
    }
}

impl From<&Vector2> for Position {
    fn from(vec: &Vector2) -> (c: Self) {
        Position { x: vec.x, y: vec.y }
    }
}

impl FromSpecImpl<&Vector2> for Position {
    open spec fn obeys_from_spec() -> bool {
        true
    }

    open spec fn from_spec(vec: &Vector2) -> Self {
        Position { x: vec.x, y: vec.y }
    }
}

impl From<&Scale> for Vector2 {
    fn from(c: &Scale) -> (vec: Self) {
        Vector2 { x: c.x, y: c.y }
    }
}

impl FromSpecImpl<&Scale> for Vector2 {
    open spec fn obeys_from_spec() -> bool {
        true
    }

    open spec fn from_spec(c: &Scale) -> Self {
        Vector2 { x: c.x, y: c.y }
    }
}

impl From<&Vector2> for Scale {
    fn from(vec: &Vector2) -> (c: Self) {
        Scale { x: vec.x, y: vec.y }
    }
}

impl FromSpecImpl<&Vector2> for Scale {
    open spec fn obeys_from_spec() -> bool {
        true
    }

    open spec fn from_spec(vec: &Vector2) -> Self {
        Scale { x: vec.x, y: vec.y }
    }
}

impl From<&Velocity> for Vector2 {
    fn from(c: &Velocity) -> (vec: Self) {
        Vector2 { x: c.x, y: c.y }
    }
}

impl FromSpecImpl<&Velocity> for Vector2 {
    open spec fn obeys_from_spec() -> bool {
        true
    }

    open spec fn from_spec(c: &Velocity) -> Self {
        Vector2 { x: c.x, y: c.y }
    }
}

impl From<&Vector2> for Velocity {
    fn from(vec: &Vector2) -> (c: Self) {
        Velocity { x: vec.x, y: vec.y }
    }
}

impl FromSpecImpl<&Vector2> for Velocity {
    open spec fn obeys_from_spec() -> bool {
        true
    }

    open spec fn from_spec(vec: &Vector2) -> Self {
        Velocity { x: vec.x, y: vec.y }
    }
}

impl TryFrom<&Value> for Velocity {
    type Error = &'static str;

    fn try_from(v: &Value) -> (r: Result<Self, Self::Error>) {
        match v.try_to_vector2() {
            Some(value) => Ok(Velocity { x: value.x, y: value.y }),
            None => Err("Variant cannot be converted to f64"),
        }
    }
}

impl TryFromSpecImpl<&Value> for Velocity {
    open spec fn obeys_try_from_spec() -> bool {
        true
    }

    open spec fn try_from_spec(v: &Value) -> Result<Self, Self::Error> {
        match *v {
            Value::Vector2(value) => Ok(Velocity { x: value.x, y: value.y }),
            _ => Err("Variant cannot be converted to f64"),
        }
    }
}

impl From<Scalar> for AngularVelocity {
    fn from(v: Scalar) -> (c: Self) {
        AngularVelocity { radians: v }
    }
}

impl FromSpecImpl<Scalar> for AngularVelocity {
    open spec fn obeys_from_spec() -> bool {
        true
    }

    open spec fn from_spec(v: Scalar) -> Self {
        AngularVelocity { radians: v }
    }
}

impl TryFrom<&Value> for AngularVelocity {
    type Error = &'static str;

    fn try_from(v: &Value) -> (r: Result<Self, Self::Error>) {
        match v.try_to_real() {
            Some(value) => Ok(AngularVelocity { radians: value }),
            None => Err("Variant cannot be converted to f64"),
        }
    }
}

impl TryFromSpecImpl<&Value> for AngularVelocity {
    open spec fn obeys_try_from_spec() -> bool {
        true
    }

    open spec fn try_from_spec(v: &Value) -> Result<Self, Self::Error> {
        match *v {
            Value::Real(value) => Ok(AngularVelocity { radians: value }),
            _ => Err("Variant cannot be converted to f64"),
        }
    }
}

impl From<&Vector2> for SetVelocityIntent {
    fn from(vec: &Vector2) -> (c: Self) {
        SetVelocityIntent { x: vec.x, y: vec.y }
    }
}

impl FromSpecImpl<&Vector2> for SetVelocityIntent {
    open spec fn obeys_from_spec() -> bool {
        true
    }

    open spec fn from_spec(vec: &Vector2) -> Self {
        SetVelocityIntent { x: vec.x, y: vec.y }
    }
}

impl TryFrom<&Value> for SetVelocityIntent {
    type Error = &'static str;

    fn try_from(v: &Value) -> (r: Result<Self, Self::Error>) {
        match v.try_to_vector2() {
            Some(value) => Ok(SetVelocityIntent { x: value.x, y: value.y }),
            None => Err("Variant cannot be converted to f64"),
        }
    }
}

impl TryFromSpecImpl<&Value> for SetVelocityIntent {
    open spec fn obeys_try_from_spec() -> bool {
        true
    }

    open spec fn try_from_spec(v: &Value) -> Result<Self, Self::Error> {
        match *v {
            Value::Vector2(value) => Ok(SetVelocityIntent { x: value.x, y: value.y }),
            _ => Err("Variant cannot be converted to f64"),
        }
    }
}

impl From<&Description> for ComponentInfo {
    fn from(description: &Description) -> (info: Self) {
        ComponentInfo::from_description(description)
    }
}

impl FromSpecImpl<&Description> for ComponentInfo {
    open spec fn obeys_from_spec() -> bool {
        true
    }

    open spec fn from_spec(description: &Description) -> Self {
        ComponentInfo::from_description_spec(description@)
    }
}

} // verus!
