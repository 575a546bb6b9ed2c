//! Applying the contents of a declarative file (category, then name, then a
//! scalar value) to the store. Reading and parsing the file, and watching it
//! for changes, are left to the caller.

use vstd::prelude::*;
use crate::api::{self, assigned, writable, Key, TunaState};
use crate::boolean::Boolean;
use crate::integer::{Int32, Int64};
use crate::tuneable::Tuneable;

verus! {

/// A scalar value of the file, as far as the store can take it.
#[derive(Clone, Debug, PartialEq, Eq)]
pub enum FileValue {
    Integer(i64),
    Boolean(bool),
    /// A value of a shape the store has no kind for: a string, a date, an
    /// array or a nested table.
    Unsupported,
}

/// One value of the file under its category and name.
#[derive(Clone, Debug)]
pub struct FileEntry {
    pub category: String,
    pub name: String,
    pub value: FileValue,
}

/// The key of a file entry.
pub open spec fn file_key(e: FileEntry) -> Key {
    (e.category@, e.name@)
}

/// Whether a value of the file is taken by the store under `k`: an integer
/// by a 64-bit or else a 32-bit integer variable, a boolean by a boolean
/// variable, an unsupported value never.
pub open spec fn value_taken(m: Map<Key, Tuneable>, k: Key, v: FileValue) -> bool {
    match v {
        FileValue::Integer(_) => writable::<Int64>(m, k) || writable::<Int32>(m, k),
        FileValue::Boolean(_) => writable::<Boolean>(m, k),
        FileValue::Unsupported => false,
    }
}

/// The store after a value of the file is applied under `k`. An integer is
/// written to a 64-bit variable if the key holds one, else to a 32-bit one
/// after truncation to 32 bits.
pub open spec fn value_applied(m: Map<Key, Tuneable>, k: Key, v: FileValue) -> Map<Key, Tuneable> {
    match v {
        FileValue::Integer(i) => if writable::<Int64>(m, k) {
            assigned::<Int64>(m, k, i)
        } else {
            assigned::<Int32>(m, k, i as i32)
        },
        FileValue::Boolean(b) => assigned::<Boolean>(m, k, b),
        FileValue::Unsupported => m,
    }
}

/// The store after the entries `s` are applied in order.
pub open spec fn file_applied(m: Map<Key, Tuneable>, s: Seq<FileEntry>) -> Map<Key, Tuneable>
    decreases s.len(),
{
    if s.len() == 0 {
        m
    } else {
        value_applied(file_applied(m, s.drop_last()), file_key(s.last()), s.last().value)
    }
}

proof fn lemma_file_keeps_keys(m: Map<Key, Tuneable>, s: Seq<FileEntry>)
    ensures
        file_applied(m, s).dom() == m.dom(),
    decreases s.len(),
{
    if s.len() > 0 {
        lemma_file_keeps_keys(m, s.drop_last());
        let p = file_applied(m, s.drop_last());
        assert(value_applied(p, file_key(s.last()), s.last().value).dom() =~= p.dom());
    }
}

/// An entry of a file whose key is not registered is not taken and changes
/// nothing: the entries before and after it are applied exactly as they
/// would be without it.
pub proof fn lemma_unknown_entry_skipped(
    m: Map<Key, Tuneable>,
    a: Seq<FileEntry>,
    e: FileEntry,
    b: Seq<FileEntry>,
)
    requires
        !m.contains_key(file_key(e)),
    ensures
        !value_taken(file_applied(m, a), file_key(e), e.value),
        file_applied(m, a + seq![e] + b) == file_applied(m, a + b),
    decreases b.len(),
{
    lemma_file_keeps_keys(m, a);
    if b.len() == 0 {
        assert(a + seq![e] + b == (a + seq![e]));
        assert((a + seq![e]).drop_last() == a);
        assert(a + b == a);
    } else {
        lemma_unknown_entry_skipped(m, a, e, b.drop_last());
        assert((a + seq![e] + b).drop_last() == a + seq![e] + b.drop_last());
        assert((a + b).drop_last() == a + b.drop_last());
    }
}

/// Applies every entry of a file, in order. An entry that no variable takes
/// (unknown key, other kind, unsupported value) is skipped and the rest are
/// still applied. Returns, for each entry, whether it was taken.
pub fn apply_state(state: &mut TunaState, entries: &Vec<FileEntry>) -> (r: Vec<bool>)
    ensures
        final(state)@ == file_applied(old(state)@, entries@),
        r@.len() == entries@.len(),
        forall|i: int|
            0 <= i < entries@.len() ==> r@[i] == value_taken(
                file_applied(old(state)@, entries@.take(i)),
                file_key(entries@[i]),
                entries@[i].value,
            ),
{
    let ghost m0 = state@;
    let mut r: Vec<bool> = Vec::new();
    let mut i: usize = 0;
    while i < entries.len()
        invariant
            i <= entries@.len(),
            r@.len() == i,
            state@ == file_applied(m0, entries@.take(i as int)),
            forall|j: int|
                0 <= j < i ==> r@[j] == value_taken(
                    file_applied(m0, entries@.take(j)),
                    file_key(entries@[j]),
                    entries@[j].value,
                ),
        decreases entries@.len() - i,
    {
        let e = &entries[i];
        let category = e.category.as_str();
        let name = e.name.as_str();
        let taken = match e.value {
            FileValue::Integer(v) => {
                api::set::<Int64>(state, category, name, v) || api::set::<Int32>(
                    state,
                    category,
                    name,
                    v as i32,
                )
            },
            FileValue::Boolean(v) => api::set::<Boolean>(state, category, name, v),
            FileValue::Unsupported => false,
        };
        assert(entries@.take(i + 1).drop_last() == entries@.take(i as int));
        r.push(taken);
        i = i + 1;
    }
    assert(entries@.take(entries@.len() as int) == entries@);
    r
}

} // verus!
