//! The stored, kind-tagged representation of one variable.

use vstd::prelude::*;

verus! {

/// Clamps `value` to `[min, max]`: first raised to `min`, then lowered to
/// `max`; a missing bound leaves that side open.
pub open spec fn clamp_i32(value: i32, min: Option<i32>, max: Option<i32>) -> i32 {
    let low = match min {
        Some(m) => if value < m { m } else { value },
        None => value,
    };
    match max {
        Some(m) => if low > m { m } else { low },
        None => low,
    }
}

/// Clamps `value` to `[min, max]`, as `clamp_i32` does for 32-bit values.
pub open spec fn clamp_i64(value: i64, min: Option<i64>, max: Option<i64>) -> i64 {
    let low = match min {
        Some(m) => if value < m { m } else { value },
        None => value,
    };
    match max {
        Some(m) => if low > m { m } else { low },
        None => low,
    }
}

/// The stored state of a 32-bit integer variable.
#[derive(Copy, Clone, Debug, PartialEq, Eq)]
pub struct Int32Variable {
    pub default: i32,
    pub min: Option<i32>,
    pub max: Option<i32>,
    pub current: i32,
}

/// The stored state of a 64-bit integer variable.
#[derive(Copy, Clone, Debug, PartialEq, Eq)]
pub struct Int64Variable {
    pub default: i64,
    pub min: Option<i64>,
    pub max: Option<i64>,
    pub current: i64,
}

/// The stored state of a boolean variable.
#[derive(Copy, Clone, Debug, PartialEq, Eq)]
pub struct BooleanVariable {
    pub default: bool,
    pub current: bool,
}

/// A stored variable, tagged with its kind.
#[derive(Copy, Clone, Debug, PartialEq, Eq)]
pub enum Tuneable {
    Int32(Int32Variable),
    Int64(Int64Variable),
    Boolean(BooleanVariable),
}

impl Int32Variable {
    /// The state after a write of `value`: the value is clamped to the
    /// bounds, nothing else changes.
    pub open spec fn written(self, value: i32) -> Int32Variable {
        Int32Variable { current: clamp_i32(value, self.min, self.max), ..self }
    }

    /// Writes `value`, clamped to the bounds.
    pub fn write(&mut self, value: i32)
        ensures
            *final(self) == old(self).written(value),
    {
        let low = match self.min {
            Some(m) => if value < m { m } else { value },
            None => value,
        };
        self.current = match self.max {
            Some(m) => if low > m { m } else { low },
            None => low,
        };
    }
}

impl Int64Variable {
    /// The state after a write of `value`: the value is clamped to the
    /// bounds, nothing else changes.
    pub open spec fn written(self, value: i64) -> Int64Variable {
        Int64Variable { current: clamp_i64(value, self.min, self.max), ..self }
    }

    /// Writes `value`, clamped to the bounds.
    pub fn write(&mut self, value: i64)
        ensures
            *final(self) == old(self).written(value),
    {
        let low = match self.min {
            Some(m) => if value < m { m } else { value },
            None => value,
        };
        self.current = match self.max {
            Some(m) => if low > m { m } else { low },
            None => low,
        };
    }
}

} // verus!
