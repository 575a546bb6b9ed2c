//! Declarations of boolean variables.

use vstd::prelude::*;
use crate::api::{self, after_register, after_reset, after_write, read_value, AsTuneable, Key, TunaState};
use crate::tuneable::{BooleanVariable, Tuneable};

verus! {

/// The declaration of a boolean variable: its key and its default.
#[derive(Copy, Clone, Debug)]
pub struct Boolean {
    pub category: &'static str,
    pub name: &'static str,
    pub default: bool,
}

impl Boolean {
    /// Declares a variable; nothing is registered until it is used.
    pub fn new(category: &'static str, name: &'static str, default: bool) -> (r: Boolean)
        ensures
            r.category == category,
            r.name == name,
            r.default == default,
    {
        Boolean { category, name, default }
    }

    /// Registers this declaration. Registering ahead of use is optional.
    pub fn register(&self, state: &mut TunaState)
        ensures
            final(state)@ == after_register(old(state)@, *self),
    {
        api::register(state, self.category, self.name, self)
    }

    /// Reads the stored value. On a miss the declaration registers itself and
    /// its default is returned.
    pub fn read(&self, state: &mut TunaState) -> (r: bool)
        ensures
            r == read_value(old(state)@, *self),
            final(state)@ == after_register(old(state)@, *self),
    {
        match api::get::<Boolean>(state, self.category, self.name) {
            Some(v) => v,
            None => {
                self.register(state);
                self.default
            },
        }
    }

    /// Writes `value`. A declaration not yet
    /// registered registers itself first.
    pub fn write(&self, state: &mut TunaState, value: bool)
        ensures
            final(state)@ == after_write(old(state)@, *self, value),
    {
        if !api::is_registered(state, self.category, self.name) {
            self.register(state);
        }
        api::set::<Boolean>(state, self.category, self.name, value);
    }

    /// Sets the stored value back to the default.
    pub fn reset(&self, state: &mut TunaState)
        ensures
            final(state)@ == after_reset(old(state)@, *self),
    {
        api::reset::<Boolean>(state, self.category, self.name)
    }
}

impl AsTuneable for Boolean {
    type Result = bool;

    open spec fn key(&self) -> Key {
        (self.category@, self.name@)
    }

    open spec fn declared(&self) -> bool {
        self.default
    }

    open spec fn initial(&self) -> Tuneable {
        Tuneable::Boolean(BooleanVariable { default: self.default, current: self.default })
    }

    open spec fn accepts(t: Tuneable) -> bool {
        t is Boolean
    }

    open spec fn current_of(t: Tuneable) -> bool {
        match t {
            Tuneable::Boolean(x) => x.current,
            _ => false,
        }
    }

    open spec fn with_value(t: Tuneable, v: bool) -> Tuneable {
        match t {
            Tuneable::Boolean(x) => Tuneable::Boolean(BooleanVariable { current: v, ..x }),
            _ => t,
        }
    }

    open spec fn with_default(t: Tuneable) -> Tuneable {
        match t {
            Tuneable::Boolean(x) => Tuneable::Boolean(BooleanVariable { current: x.default, ..x }),
            _ => t,
        }
    }

    proof fn lemma_declaration(&self) {
    }

    proof fn lemma_stored(t: Tuneable, v: bool, w: bool) {
    }

    fn category(&self) -> (r: &'static str) {
        self.category
    }

    fn name(&self) -> (r: &'static str) {
        self.name
    }

    fn default_value(&self) -> (r: bool) {
        self.default
    }

    fn make_tuneable(&self) -> (r: Tuneable) {
        Tuneable::Boolean(BooleanVariable { default: self.default, current: self.default })
    }

    fn update(tuneable: &mut Tuneable, var: bool) -> (r: bool) {
        match tuneable {
            Tuneable::Boolean(x) => {
                x.current = var;
                true
            },
            _ => false,
        }
    }

    fn reset(tuneable: &mut Tuneable) {
        match tuneable {
            Tuneable::Boolean(x) => {
                x.current = x.default;
            },
            _ => {},
        }
    }

    fn from_tuneable(v: &Tuneable) -> (r: Option<bool>) {
        match v {
            Tuneable::Boolean(x) => Some(x.current),
            _ => None,
        }
    }
}

} // verus!
