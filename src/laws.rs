//! Properties of the store that hold for every kind of variable.

use vstd::prelude::*;
use crate::api::{
    after_register, after_reset, after_write, assigned, lookup, read_value, restored, writable,
    AsTuneable, Key,
};
use crate::tuneable::Tuneable;

verus! {

/// The store after the writes `ws`, in order, through the declaration `d`.
pub open spec fn after_writes<T: AsTuneable>(m: Map<Key, Tuneable>, d: T, ws: Seq<T::Result>) -> Map<
    Key,
    Tuneable,
>
    decreases ws.len(),
{
    if ws.len() == 0 {
        m
    } else {
        after_write(after_writes(m, d, ws.drop_last()), d, ws.last())
    }
}

/// The key of `d` is either unregistered or holds a value of `d`'s kind
/// with `d`'s default and bounds.
pub open spec fn declared_by<T: AsTuneable>(m: Map<Key, Tuneable>, d: T) -> bool {
    m.contains_key(d.key()) ==> T::accepts(m[d.key()]) && T::with_default(m[d.key()]) == d.initial()
}

/// Registration is idempotent and the first registration of a key wins:
/// registering a second time, with the same declaration or another one under
/// the same key, leaves the store as it was after the first; a key already
/// registered keeps its stored value, default included.
pub proof fn lemma_register_idempotent<T: AsTuneable, U: AsTuneable>(m: Map<Key, Tuneable>, d: T, e: U)
    requires
        d.key() == e.key(),
    ensures
        after_register(after_register(m, d), e) == after_register(m, d),
        after_register(m, d).contains_key(d.key()),
        m.contains_key(d.key()) ==> after_register(m, d)[d.key()] == m[d.key()],
        !m.contains_key(d.key()) ==> after_register(m, d)[d.key()] == d.initial(),
{
}

/// A key that was never registered reads as absent under every kind, and a
/// write or reset of it fails and changes nothing; in particular the key is
/// not created.
pub proof fn lemma_unregistered<T: AsTuneable>(m: Map<Key, Tuneable>, k: Key, v: T::Result)
    requires
        !m.contains_key(k),
    ensures
        lookup::<T>(m, k) is None,
        !writable::<T>(m, k),
        assigned::<T>(m, k, v) == m,
        restored::<T>(m, k) == m,
{
}

/// A key registered with a value of another kind reads as absent under kind
/// `T`, and a write or reset of kind `T` fails and changes nothing.
pub proof fn lemma_kind_mismatch<T: AsTuneable>(m: Map<Key, Tuneable>, k: Key, v: T::Result)
    requires
        m.contains_key(k),
        !T::accepts(m[k]),
    ensures
        lookup::<T>(m, k) is None,
        !writable::<T>(m, k),
        assigned::<T>(m, k, v) == m,
        restored::<T>(m, k) == m,
{
}

proof fn lemma_writes_keep_declaration<T: AsTuneable>(m: Map<Key, Tuneable>, d: T, ws: Seq<T::Result>)
    requires
        declared_by(m, d),
    ensures
        declared_by(after_writes(m, d, ws), d),
        ws.len() > 0 ==> after_writes(m, d, ws).contains_key(d.key()),
        ws.len() > 0 ==> after_writes(m, d, ws)[d.key()] == T::with_value(d.initial(), ws.last()),
    decreases ws.len(),
{
    d.lemma_declaration();
    if ws.len() > 0 {
        let p = after_writes(m, d, ws.drop_last());
        lemma_writes_keep_declaration(m, d, ws.drop_last());
        let r = after_register(p, d);
        let t = r[d.key()];
        T::lemma_stored(t, ws.last(), ws.last());
        T::lemma_stored(d.initial(), ws.last(), ws.last());
        assert(T::with_value(t, ws.last()) == T::with_value(d.initial(), ws.last()));
    }
}

/// After any sequence of writes through a declaration, a reset followed by a
/// read returns exactly the declared default.
pub proof fn lemma_reset_restores_default<T: AsTuneable>(m: Map<Key, Tuneable>, d: T, ws: Seq<T::Result>)
    requires
        declared_by(m, d),
    ensures
        read_value(after_reset(after_writes(m, d, ws), d), d) == d.declared(),
{
    d.lemma_declaration();
    lemma_writes_keep_declaration(m, d, ws);
}

/// Writes of one key are applied one at a time and the last one wins: after
/// any sequence of writes through a declaration, a read returns the last
/// written value clamped by the declaration, which is one of the written
/// values clamped, never a blend of several.
pub proof fn lemma_last_write_wins<T: AsTuneable>(m: Map<Key, Tuneable>, d: T, ws: Seq<T::Result>)
    requires
        declared_by(m, d),
        ws.len() > 0,
    ensures
        read_value(after_writes(m, d, ws), d) == T::current_of(T::with_value(d.initial(), ws.last())),
        exists|i: int|
            0 <= i < ws.len() && read_value(after_writes(m, d, ws), d) == T::current_of(
                #[trigger] T::with_value(d.initial(), ws[i]),
            ),
{
    d.lemma_declaration();
    lemma_writes_keep_declaration(m, d, ws);
    T::lemma_stored(d.initial(), ws.last(), ws.last());
    assert(ws[ws.len() - 1] == ws.last());
}

} // verus!
