//! The store shared between threads under one reader/writer lock: lookups
//! take it shared, changes take it exclusively. Each call is atomic with
//! respect to the lock; a sequence of calls is not, so what a call returns
//! depends on what other threads did in between, and contracts here state
//! only what holds whatever they did.

use vstd::prelude::*;
use vstd::rwlock::{RwLock, RwLockPredicate};
use crate::api::{self, AsTuneable, Entry, TunaState};
use crate::file::{self, FileEntry};
use crate::protocol::{self, Incoming, Reaction, TunaMessage};

verus! {

/// The lock admits every store: the store's own invariant is kept by its
/// type.
struct AnyStore;

impl RwLockPredicate<TunaState> for AnyStore {
    open spec fn inv(self, v: TunaState) -> bool {
        true
    }
}

/// A store that many threads read and write through one reader/writer lock.
pub struct SharedTuna {
    lock: RwLock<TunaState, AnyStore>,
}

impl SharedTuna {
    /// A shared, empty store.
    pub fn new() -> (r: SharedTuna) {
        SharedTuna { lock: RwLock::new(TunaState::new(), Ghost(AnyStore)) }
    }

    /// Registers `value` under (`category`, `name`) unless the key is
    /// present, under the exclusive lock.
    pub fn register<T: AsTuneable>(&self, category: &str, name: &str, value: &T) {
        let (mut state, handle) = self.lock.acquire_write();
        api::register(&mut state, category, name, value);
        handle.release_write(state);
    }

    /// The current value under (`category`, `name`) if the key holds a value
    /// of kind `T`, under the shared lock.
    pub fn get<T: AsTuneable>(&self, category: &str, name: &str) -> (r: Option<T::Result>) {
        let handle = self.lock.acquire_read();
        let r = api::get::<T>(handle.borrow(), category, name);
        handle.release_read();
        r
    }

    /// Writes `value` under (`category`, `name`) by the update rule of kind
    /// `T`, under the exclusive lock; returns whether the key held a value of
    /// that kind.
    pub fn set<T: AsTuneable>(&self, category: &str, name: &str, value: T::Result) -> (r: bool) {
        let (mut state, handle) = self.lock.acquire_write();
        let r = api::set::<T>(&mut state, category, name, value);
        handle.release_write(state);
        r
    }

    /// Sets the value under (`category`, `name`) back to its default if it
    /// is of kind `T`, under the exclusive lock.
    pub fn reset<T: AsTuneable>(&self, category: &str, name: &str) {
        let (mut state, handle) = self.lock.acquire_write();
        api::reset::<T>(&mut state, category, name);
        handle.release_write(state);
    }

    /// Whether (`category`, `name`) is registered, under the shared lock.
    pub fn is_registered(&self, category: &str, name: &str) -> (r: bool) {
        let handle = self.lock.acquire_read();
        let r = api::is_registered(handle.borrow(), category, name);
        handle.release_read();
        r
    }

    /// Reads the variable of the declaration `d`. On a miss the declaration
    /// registers itself and its default is returned.
    pub fn read_declared<T: AsTuneable>(&self, d: &T) -> (r: T::Result) {
        match self.get::<T>(d.category(), d.name()) {
            Some(v) => v,
            None => {
                self.register(d.category(), d.name(), d);
                d.default_value()
            },
        }
    }

    /// Writes `value` through the declaration `d` by the update rule of its
    /// kind; a declaration not yet registered registers itself first.
    pub fn write_declared<T: AsTuneable>(&self, d: &T, value: T::Result) {
        if !self.is_registered(d.category(), d.name()) {
            self.register(d.category(), d.name(), d);
        }
        self.set::<T>(d.category(), d.name(), value);
    }

    /// Sets the variable of the declaration `d` back to its default.
    pub fn reset_declared<T: AsTuneable>(&self, d: &T) {
        self.reset::<T>(d.category(), d.name())
    }

    /// A copy of every entry, taken under the shared lock.
    pub fn snapshot(&self) -> (r: Vec<Entry>)
        ensures
            api::keys_unique(r@),
    {
        let handle = self.lock.acquire_read();
        let r = handle.borrow().snapshot();
        handle.release_read();
        r
    }

    /// Applies a whole file under one exclusive lock; returns, for each
    /// entry, whether it was taken.
    pub fn apply_file(&self, entries: &Vec<FileEntry>) -> (r: Vec<bool>)
        ensures
            r@.len() == entries@.len(),
    {
        let (mut state, handle) = self.lock.acquire_write();
        let r = file::apply_state(&mut state, entries);
        handle.release_write(state);
        r
    }

    /// Handles one frame of a session: a listing under the shared lock, a
    /// delta under the exclusive lock. The reaction depends on the store only
    /// for the listing it carries.
    pub fn respond(&self, incoming: Incoming) -> (r: Reaction)
        ensures
            match incoming {
                Incoming::Message(TunaMessage::ListAll) => r is Reply && r->Reply_0 is Tuneables,
                Incoming::Message(TunaMessage::Delta(c, n, _)) => r == Reaction::Reply(
                    TunaMessage::Ack(c, n),
                ),
                Incoming::Message(_) => r is Violation,
                Incoming::Malformed | Incoming::Binary => r is Ignore,
                Incoming::Close => r is Close,
            },
    {
        match incoming {
            Incoming::Message(TunaMessage::ListAll) => Reaction::Reply(TunaMessage::Tuneables(self.snapshot())),
            Incoming::Message(TunaMessage::Delta(c, n, t)) => {
                let (mut state, handle) = self.lock.acquire_write();
                let r = protocol::respond(&mut state, Incoming::Message(TunaMessage::Delta(c, n, t)));
                handle.release_write(state);
                r
            },
            Incoming::Message(_) => Reaction::Violation,
            Incoming::Malformed | Incoming::Binary => Reaction::Ignore,
            Incoming::Close => Reaction::Close,
        }
    }
}

} // verus!
