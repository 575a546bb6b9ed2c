//! Declarations of bounded integer variables.

use vstd::prelude::*;
use crate::api::{self, after_register, after_reset, after_write, read_value, AsTuneable, Key, TunaState};
use crate::tuneable::{Int32Variable, Int64Variable, Tuneable};

verus! {

/// The declaration of a 32-bit integer variable: its key, its default and
/// its optional bounds.
#[derive(Copy, Clone, Debug)]
pub struct Int32 {
    pub category: &'static str,
    pub name: &'static str,
    pub default: i32,
    pub min: Option<i32>,
    pub max: Option<i32>,
}

/// The declaration of a 64-bit integer variable: its key, its default and
/// its optional bounds.
#[derive(Copy, Clone, Debug)]
pub struct Int64 {
    pub category: &'static str,
    pub name: &'static str,
    pub default: i64,
    pub min: Option<i64>,
    pub max: Option<i64>,
}

impl Int32 {
    /// Declares a variable; nothing is registered until it is used.
    pub fn new(category: &'static str, name: &'static str, default: i32, min: Option<i32>, max: Option<i32>) -> (r: Int32)
        ensures
            r.category == category,
            r.name == name,
            r.default == default,
            r.min == min,
            r.max == max,
    {
        Int32 { category, name, default, min, max }
    }

    /// Registers this declaration. Registering ahead of use is optional.
    pub fn register(&self, state: &mut TunaState)
        ensures
            final(state)@ == after_register(old(state)@, *self),
    {
        api::register(state, self.category, self.name, self)
    }

    /// Reads the stored value. On a miss the declaration registers itself and
    /// its default is returned.
    pub fn read(&self, state: &mut TunaState) -> (r: i32)
        ensures
            r == read_value(old(state)@, *self),
            final(state)@ == after_register(old(state)@, *self),
    {
        match api::get::<Int32>(state, self.category, self.name) {
            Some(v) => v,
            None => {
                self.register(state);
                self.default
            },
        }
    }

    /// Writes `value`, clamped to the bounds. A declaration not yet
    /// registered registers itself first.
    pub fn write(&self, state: &mut TunaState, value: i32)
        ensures
            final(state)@ == after_write(old(state)@, *self, value),
    {
        if !api::is_registered(state, self.category, self.name) {
            self.register(state);
        }
        api::set::<Int32>(state, self.category, self.name, value);
    }

    /// Sets the stored value back to the default.
    pub fn reset(&self, state: &mut TunaState)
        ensures
            final(state)@ == after_reset(old(state)@, *self),
    {
        api::reset::<Int32>(state, self.category, self.name)
    }
}

impl AsTuneable for Int32 {
    type Result = i32;

    open spec fn key(&self) -> Key {
        (self.category@, self.name@)
    }

    open spec fn declared(&self) -> i32 {
        self.default
    }

    open spec fn initial(&self) -> Tuneable {
        Tuneable::Int32(
            Int32Variable { default: self.default, min: self.min, max: self.max, current: self.default },
        )
    }

    open spec fn accepts(t: Tuneable) -> bool {
        t is Int32
    }

    open spec fn current_of(t: Tuneable) -> i32 {
        match t {
            Tuneable::Int32(x) => x.current,
            _ => 0,
        }
    }

    open spec fn with_value(t: Tuneable, v: i32) -> Tuneable {
        match t {
            Tuneable::Int32(x) => Tuneable::Int32(x.written(v)),
            _ => t,
        }
    }

    open spec fn with_default(t: Tuneable) -> Tuneable {
        match t {
            Tuneable::Int32(x) => Tuneable::Int32(Int32Variable { current: x.default, ..x }),
            _ => t,
        }
    }

    proof fn lemma_declaration(&self) {
    }

    proof fn lemma_stored(t: Tuneable, v: i32, w: i32) {
    }

    fn category(&self) -> (r: &'static str) {
        self.category
    }

    fn name(&self) -> (r: &'static str) {
        self.name
    }

    fn default_value(&self) -> (r: i32) {
        self.default
    }

    fn make_tuneable(&self) -> (r: Tuneable) {
        Tuneable::Int32(
            Int32Variable { default: self.default, min: self.min, max: self.max, current: self.default },
        )
    }

    fn update(tuneable: &mut Tuneable, var: i32) -> (r: bool) {
        match tuneable {
            Tuneable::Int32(x) => {
                x.write(var);
                true
            },
            _ => false,
        }
    }

    fn reset(tuneable: &mut Tuneable) {
        match tuneable {
            Tuneable::Int32(x) => {
                x.current = x.default;
            },
            _ => {},
        }
    }

    fn from_tuneable(v: &Tuneable) -> (r: Option<i32>) {
        match v {
            Tuneable::Int32(x) => Some(x.current),
            _ => None,
        }
    }
}

impl Int64 {
    /// Declares a variable; nothing is registered until it is used.
    pub fn new(category: &'static str, name: &'static str, default: i64, min: Option<i64>, max: Option<i64>) -> (r: Int64)
        ensures
            r.category == category,
            r.name == name,
            r.default == default,
            r.min == min,
            r.max == max,
    {
        Int64 { category, name, default, min, max }
    }

    /// Registers this declaration. Registering ahead of use is optional.
    pub fn register(&self, state: &mut TunaState)
        ensures
            final(state)@ == after_register(old(state)@, *self),
    {
        api::register(state, self.category, self.name, self)
    }

    /// Reads the stored value. On a miss the declaration registers itself and
    /// its default is returned.
    pub fn read(&self, state: &mut TunaState) -> (r: i64)
        ensures
            r == read_value(old(state)@, *self),
            final(state)@ == after_register(old(state)@, *self),
    {
        match api::get::<Int64>(state, self.category, self.name) {
            Some(v) => v,
            None => {
                self.register(state);
                self.default
            },
        }
    }

    /// Writes `value`, clamped to the bounds. A declaration not yet
    /// registered registers itself first.
    pub fn write(&self, state: &mut TunaState, value: i64)
        ensures
            final(state)@ == after_write(old(state)@, *self, value),
    {
        if !api::is_registered(state, self.category, self.name) {
            self.register(state);
        }
        api::set::<Int64>(state, self.category, self.name, value);
    }

    /// Sets the stored value back to the default.
    pub fn reset(&self, state: &mut TunaState)
        ensures
            final(state)@ == after_reset(old(state)@, *self),
    {
        api::reset::<Int64>(state, self.category, self.name)
    }
}

impl AsTuneable for Int64 {
    type Result = i64;

    open spec fn key(&self) -> Key {
        (self.category@, self.name@)
    }

    open spec fn declared(&self) -> i64 {
        self.default
    }

    open spec fn initial(&self) -> Tuneable {
        Tuneable::Int64(
            Int64Variable { default: self.default, min: self.min, max: self.max, current: self.default },
        )
    }

    open spec fn accepts(t: Tuneable) -> bool {
        t is Int64
    }

    open spec fn current_of(t: Tuneable) -> i64 {
        match t {
            Tuneable::Int64(x) => x.current,
            _ => 0,
        }
    }

    open spec fn with_value(t: Tuneable, v: i64) -> Tuneable {
        match t {
            Tuneable::Int64(x) => Tuneable::Int64(x.written(v)),
            _ => t,
        }
    }

    open spec fn with_default(t: Tuneable) -> Tuneable {
        match t {
            Tuneable::Int64(x) => Tuneable::Int64(Int64Variable { current: x.default, ..x }),
            _ => t,
        }
    }

    proof fn lemma_declaration(&self) {
    }

    proof fn lemma_stored(t: Tuneable, v: i64, w: i64) {
    }

    fn category(&self) -> (r: &'static str) {
        self.category
    }

    fn name(&self) -> (r: &'static str) {
        self.name
    }

    fn default_value(&self) -> (r: i64) {
        self.default
    }

    fn make_tuneable(&self) -> (r: Tuneable) {
        Tuneable::Int64(
            Int64Variable { default: self.default, min: self.min, max: self.max, current: self.default },
        )
    }

    fn update(tuneable: &mut Tuneable, var: i64) -> (r: bool) {
        match tuneable {
            Tuneable::Int64(x) => {
                x.write(var);
                true
            },
            _ => false,
        }
    }

    fn reset(tuneable: &mut Tuneable) {
        match tuneable {
            Tuneable::Int64(x) => {
                x.current = x.default;
            },
            _ => {},
        }
    }

    fn from_tuneable(v: &Tuneable) -> (r: Option<i64>) {
        match v {
            Tuneable::Int64(x) => Some(x.current),
            _ => None,
        }
    }
}

} // verus!
