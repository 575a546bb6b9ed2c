//! The control protocol: remote clients list every variable and push new
//! values. Framing and JSON encoding are left to the transport; this module
//! decides how each decoded frame is answered.

use vstd::prelude::*;
use crate::api::{self, assigned, entries_map, keys_unique, Entry, Key, TunaState};
use crate::boolean::Boolean;
use crate::integer::{Int32, Int64};
use crate::tuneable::Tuneable;

verus! {

/// The store after the stored value `t` is pushed under `k`: its current
/// value is written by the update rule of its own kind.
pub open spec fn delta_applied(m: Map<Key, Tuneable>, k: Key, t: Tuneable) -> Map<Key, Tuneable> {
    match t {
        Tuneable::Int32(v) => assigned::<Int32>(m, k, v.current),
        Tuneable::Int64(v) => assigned::<Int64>(m, k, v.current),
        Tuneable::Boolean(v) => assigned::<Boolean>(m, k, v.current),
    }
}

impl Tuneable {
    /// Writes this value's current value under (`category`, `name`) by the
    /// update rule of its kind; a missing key or a key of another kind is
    /// left as it is.
    pub fn apply_to(&self, state: &mut TunaState, category: &str, name: &str)
        ensures
            final(state)@ == delta_applied(old(state)@, (category@, name@), *self),
    {
        match self {
            Tuneable::Int32(v) => {
                api::set::<Int32>(state, category, name, v.current);
            },
            Tuneable::Int64(v) => {
                api::set::<Int64>(state, category, name, v.current);
            },
            Tuneable::Boolean(v) => {
                api::set::<Boolean>(state, category, name, v.current);
            },
        }
    }
}

/// A message of the control protocol.
#[derive(Debug)]
pub enum TunaMessage {
    /// Request: list every registered variable.
    ListAll,
    /// Response to `ListAll`: every registered variable.
    Tuneables(Vec<Entry>),
    /// Request: write the current value of a stored value under a key.
    Delta(String, String, Tuneable),
    /// Response to `Delta`: the request under this key was received.
    Ack(String, String),
}

/// What a session received in one frame.
#[derive(Debug)]
pub enum Incoming {
    /// A text frame that decoded to a message.
    Message(TunaMessage),
    /// A text frame that did not decode.
    Malformed,
    /// A frame that is not text.
    Binary,
    /// The peer closed the connection.
    Close,
}

/// How a session reacts to one frame.
#[derive(Debug)]
pub enum Reaction {
    /// Send this message back and go on.
    Reply(TunaMessage),
    /// Send nothing and go on.
    Ignore,
    /// End the session cleanly.
    Close,
    /// A response kind arrived as a request: end this session as failed.
    Violation,
}

/// Handles one frame of a session. `ListAll` is answered with every
/// registered variable; `Delta` is applied and acknowledged with `Ack`
/// whether or not the key existed or the value was clamped; a response kind
/// received as a request is a violation; a malformed or non-text frame is
/// ignored; a close ends the session. Only `Delta` changes the store.
pub fn respond(state: &mut TunaState, incoming: Incoming) -> (r: Reaction)
    ensures
        match incoming {
            Incoming::Message(TunaMessage::ListAll) => final(state)@ == old(state)@ && match r {
                Reaction::Reply(TunaMessage::Tuneables(s)) => keys_unique(s@) && entries_map(s@)
                    == old(state)@,
                _ => false,
            },
            Incoming::Message(TunaMessage::Delta(c, n, t)) => final(state)@ == delta_applied(
                old(state)@,
                (c@, n@),
                t,
            ) && r == Reaction::Reply(TunaMessage::Ack(c, n)),
            Incoming::Message(_) => final(state)@ == old(state)@ && r is Violation,
            Incoming::Malformed | Incoming::Binary => final(state)@ == old(state)@ && r is Ignore,
            Incoming::Close => final(state)@ == old(state)@ && r is Close,
        },
{
    match incoming {
        Incoming::Message(TunaMessage::ListAll) => Reaction::Reply(TunaMessage::Tuneables(state.snapshot())),
        Incoming::Message(TunaMessage::Delta(category, name, tuneable)) => {
            tuneable.apply_to(state, category.as_str(), name.as_str());
            Reaction::Reply(TunaMessage::Ack(category, name))
        },
        Incoming::Message(_) => Reaction::Violation,
        Incoming::Malformed | Incoming::Binary => Reaction::Ignore,
        Incoming::Close => Reaction::Close,
    }
}

} // verus!
