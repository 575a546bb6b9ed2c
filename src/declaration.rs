//! Batches of declarations, registered together.

use vstd::prelude::*;
use crate::api::{after_register, Key, TunaState};
use crate::boolean::Boolean;
use crate::integer::{Int32, Int64};
use crate::tuneable::Tuneable;

verus! {

/// A declaration of any kind.
#[derive(Copy, Clone, Debug)]
pub enum Declaration {
    Int32(Int32),
    Int64(Int64),
    Boolean(Boolean),
}

/// The store after the declaration `d` is registered.
pub open spec fn declaration_registered(m: Map<Key, Tuneable>, d: Declaration) -> Map<Key, Tuneable> {
    match d {
        Declaration::Int32(x) => after_register(m, x),
        Declaration::Int64(x) => after_register(m, x),
        Declaration::Boolean(x) => after_register(m, x),
    }
}

/// The store after the declarations `s` are registered in order.
pub open spec fn all_registered(m: Map<Key, Tuneable>, s: Seq<Declaration>) -> Map<Key, Tuneable>
    decreases s.len(),
{
    if s.len() == 0 {
        m
    } else {
        declaration_registered(all_registered(m, s.drop_last()), s.last())
    }
}

impl Declaration {
    /// Registers this declaration.
    pub fn register(&self, state: &mut TunaState)
        ensures
            final(state)@ == declaration_registered(old(state)@, *self),
    {
        match self {
            Declaration::Int32(x) => x.register(state),
            Declaration::Int64(x) => x.register(state),
            Declaration::Boolean(x) => x.register(state),
        }
    }
}

/// Registers every declaration of a batch, in order.
pub fn register_all(state: &mut TunaState, declarations: &Vec<Declaration>)
    ensures
        final(state)@ == all_registered(old(state)@, declarations@),
{
    let ghost m0 = state@;
    let mut i: usize = 0;
    while i < declarations.len()
        invariant
            i <= declarations@.len(),
            state@ == all_registered(m0, declarations@.take(i as int)),
        decreases declarations@.len() - i,
    {
        declarations[i].register(state);
        assert(declarations@.take(i + 1).drop_last() == declarations@.take(i as int));
        i = i + 1;
    }
    assert(declarations@.take(declarations@.len() as int) == declarations@);
}

} // verus!
