//! The value store: the mapping from (category, name) to a stored variable,
//! and the kind-generic operations on it.

use vstd::prelude::*;
use crate::tuneable::Tuneable;

verus! {

/// A variable's key: its category and its name.
pub type Key = (Seq<char>, Seq<char>);

/// A kind of variable that can be declared and stored: it says how a
/// declaration becomes a stored value, and how a stored value of its kind is
/// read, written and reset.
pub trait AsTuneable: Sized {
    /// The type of the variable's value.
    type Result;

    /// The key this declaration registers.
    spec fn key(&self) -> Key;

    /// The declared default value.
    spec fn declared(&self) -> Self::Result;

    /// The stored value a first registration creates.
    spec fn initial(&self) -> Tuneable;

    /// Whether a stored value is of this kind.
    spec fn accepts(t: Tuneable) -> bool;

    /// The current value of a stored value of this kind.
    spec fn current_of(t: Tuneable) -> Self::Result;

    /// A stored value of this kind after a write of `v` (bounded kinds clamp).
    spec fn with_value(t: Tuneable, v: Self::Result) -> Tuneable;

    /// A stored value of this kind with its current value set back to its default.
    spec fn with_default(t: Tuneable) -> Tuneable;

    /// A declaration makes a stored value of its own kind that holds its
    /// default.
    proof fn lemma_declaration(&self)
        ensures
            Self::accepts(self.initial()),
            Self::current_of(self.initial()) == self.declared(),
            Self::with_default(self.initial()) == self.initial(),
    ;

    /// Writing and resetting keep a stored value's kind, default and bounds,
    /// and a later write overrides an earlier one.
    proof fn lemma_stored(t: Tuneable, v: Self::Result, w: Self::Result)
        ensures
            Self::accepts(t) ==> Self::accepts(Self::with_value(t, v)),
            Self::accepts(t) ==> Self::accepts(Self::with_default(t)),
            Self::accepts(t) ==> Self::with_default(Self::with_value(t, v)) == Self::with_default(t),
            Self::accepts(t) ==> Self::with_value(Self::with_value(t, v), w) == Self::with_value(t, w),
            Self::accepts(t) ==> Self::with_value(t, v) == Self::with_value(Self::with_default(t), v),
    ;

    /// The declared category.
    fn category(&self) -> (r: &'static str)
        ensures
            r@ == self.key().0,
    ;

    /// The declared name.
    fn name(&self) -> (r: &'static str)
        ensures
            r@ == self.key().1,
    ;

    /// The declared default value.
    fn default_value(&self) -> (r: Self::Result)
        ensures
            r == self.declared(),
    ;

    /// Converts the declaration into its initial stored value.
    fn make_tuneable(&self) -> (r: Tuneable)
        ensures
            r == self.initial(),
    ;

    /// Writes `var` into a stored value of this kind; returns false, and
    /// changes nothing, for a stored value of another kind.
    fn update(tuneable: &mut Tuneable, var: Self::Result) -> (r: bool)
        ensures
            r == Self::accepts(*old(tuneable)),
            *final(tuneable) == if r { Self::with_value(*old(tuneable), var) } else { *old(tuneable) },
    ;

    /// Sets a stored value of this kind back to its default; leaves a stored
    /// value of another kind as it is.
    fn reset(tuneable: &mut Tuneable)
        ensures
            *final(tuneable) == if Self::accepts(*old(tuneable)) {
                Self::with_default(*old(tuneable))
            } else {
                *old(tuneable)
            },
    ;

    /// The current value of a stored value of this kind, or `None`.
    fn from_tuneable(v: &Tuneable) -> (r: Option<Self::Result>)
        ensures
            r == if Self::accepts(*v) { Some(Self::current_of(*v)) } else { None },
    ;
}

/// One stored variable with its key.
#[derive(Clone, Debug)]
pub struct Entry {
    pub category: String,
    pub name: String,
    pub value: Tuneable,
}

/// The key of an entry.
pub open spec fn entry_key(e: Entry) -> Key {
    (e.category@, e.name@)
}

/// No two entries share a key.
pub open spec fn keys_unique(s: Seq<Entry>) -> bool {
    forall|i: int, j: int| 0 <= i < j < s.len() ==> entry_key(s[i]) != entry_key(s[j])
}

/// The mapping a list of entries stands for.
pub open spec fn entries_map(s: Seq<Entry>) -> Map<Key, Tuneable>
    decreases s.len(),
{
    if s.len() == 0 {
        Map::empty()
    } else {
        entries_map(s.drop_last()).insert(entry_key(s.last()), s.last().value)
    }
}

proof fn lemma_entries_map_domain(s: Seq<Entry>, k: Key)
    ensures
        entries_map(s).contains_key(k) <==> exists|i: int| 0 <= i < s.len() && entry_key(s[i]) == k,
    decreases s.len(),
{
    if s.len() > 0 {
        lemma_entries_map_domain(s.drop_last(), k);
        if entries_map(s.drop_last()).contains_key(k) {
            let i = choose|i: int| 0 <= i < s.drop_last().len() && entry_key(s.drop_last()[i]) == k;
            assert(entry_key(s[i]) == k);
        }
        if exists|i: int| 0 <= i < s.len() && entry_key(s[i]) == k {
            let i = choose|i: int| 0 <= i < s.len() && entry_key(s[i]) == k;
            if i < s.len() - 1 {
                assert(entry_key(s.drop_last()[i]) == k);
            }
        }
    }
}

proof fn lemma_entries_map_index(s: Seq<Entry>, i: int)
    requires
        keys_unique(s),
        0 <= i < s.len(),
    ensures
        entries_map(s).contains_key(entry_key(s[i])),
        entries_map(s)[entry_key(s[i])] == s[i].value,
    decreases s.len(),
{
    if i < s.len() - 1 {
        lemma_entries_map_index(s.drop_last(), i);
        assert(entry_key(s[i]) != entry_key(s.last()));
    }
}

proof fn lemma_entries_map_update(s: Seq<Entry>, i: int, t: Tuneable)
    requires
        keys_unique(s),
        0 <= i < s.len(),
    ensures
        keys_unique(s.update(i, Entry { value: t, ..s[i] })),
        entries_map(s.update(i, Entry { value: t, ..s[i] })) == entries_map(s).insert(entry_key(s[i]), t),
    decreases s.len(),
{
    let u = s.update(i, Entry { value: t, ..s[i] });
    assert(forall|j: int| 0 <= j < s.len() ==> entry_key(u[j]) == entry_key(s[j]));
    if i == s.len() - 1 {
        assert(u.drop_last() == s.drop_last());
    } else {
        lemma_entries_map_update(s.drop_last(), i, t);
        assert(u.drop_last() == s.drop_last().update(i, Entry { value: t, ..s[i] }));
        assert(entry_key(s[i]) != entry_key(s.last()));
    }
}

/// The value store: every registered variable under its key.
pub struct TunaState {
    entries: Vec<Entry>,
}

impl View for TunaState {
    type V = Map<Key, Tuneable>;

    closed spec fn view(&self) -> Map<Key, Tuneable> {
        entries_map(self.entries@)
    }
}

/// The store after registering `t` under `k`: the first registration wins.
pub open spec fn registered(m: Map<Key, Tuneable>, k: Key, t: Tuneable) -> Map<Key, Tuneable> {
    if m.contains_key(k) { m } else { m.insert(k, t) }
}

/// What a lookup of kind `T` under `k` finds: the current value if the key
/// holds a value of that kind, else nothing.
pub open spec fn lookup<T: AsTuneable>(m: Map<Key, Tuneable>, k: Key) -> Option<T::Result> {
    if m.contains_key(k) && T::accepts(m[k]) { Some(T::current_of(m[k])) } else { None }
}

/// Whether a write of kind `T` under `k` takes effect.
pub open spec fn writable<T: AsTuneable>(m: Map<Key, Tuneable>, k: Key) -> bool {
    m.contains_key(k) && T::accepts(m[k])
}

/// The store after a write of `v` of kind `T` under `k`.
pub open spec fn assigned<T: AsTuneable>(m: Map<Key, Tuneable>, k: Key, v: T::Result) -> Map<Key, Tuneable> {
    if writable::<T>(m, k) { m.insert(k, T::with_value(m[k], v)) } else { m }
}

/// The store after a reset of kind `T` under `k`.
pub open spec fn restored<T: AsTuneable>(m: Map<Key, Tuneable>, k: Key) -> Map<Key, Tuneable> {
    if writable::<T>(m, k) { m.insert(k, T::with_default(m[k])) } else { m }
}

/// The store after the declaration `d` is registered.
pub open spec fn after_register<T: AsTuneable>(m: Map<Key, Tuneable>, d: T) -> Map<Key, Tuneable> {
    registered(m, d.key(), d.initial())
}

/// What a read through the declaration `d` returns: the stored current
/// value if its key holds a value of its kind, else its declared default.
pub open spec fn read_value<T: AsTuneable>(m: Map<Key, Tuneable>, d: T) -> T::Result {
    match lookup::<T>(m, d.key()) {
        Some(v) => v,
        None => d.declared(),
    }
}

/// The store after a write of `v` through the declaration `d`, which
/// registers `d` first if its key is missing.
pub open spec fn after_write<T: AsTuneable>(m: Map<Key, Tuneable>, d: T, v: T::Result) -> Map<Key, Tuneable> {
    assigned::<T>(after_register(m, d), d.key(), v)
}

/// The store after a reset through the declaration `d`.
pub open spec fn after_reset<T: AsTuneable>(m: Map<Key, Tuneable>, d: T) -> Map<Key, Tuneable> {
    restored::<T>(m, d.key())
}

impl TunaState {
    #[verifier::type_invariant]
    spec fn well_formed(self) -> bool {
        keys_unique(self.entries@)
    }

    /// An empty store.
    pub fn new() -> (r: TunaState)
        ensures
            r@ == Map::<Key, Tuneable>::empty(),
    {
        TunaState { entries: Vec::new() }
    }

    /// A copy of every entry, for a point-in-time listing of the store.
    pub fn snapshot(&self) -> (r: Vec<Entry>)
        ensures
            keys_unique(r@),
            entries_map(r@) == self@,
    {
        proof {
            use_type_invariant(self);
        }
        let mut r: Vec<Entry> = Vec::new();
        let mut i: usize = 0;
        while i < self.entries.len()
            invariant
                i <= self.entries@.len(),
                r@ == self.entries@.take(i as int),
            decreases self.entries@.len() - i,
        {
            let e = &self.entries[i];
            r.push(Entry { category: e.category.clone(), name: e.name.clone(), value: e.value });
            assert(r@ =~= self.entries@.take(i + 1));
            i = i + 1;
        }
        assert(r@ =~= self.entries@);
        r
    }

    /// Replaces the value of the entry at `i`.
    fn replace_value(&mut self, i: usize, t: Tuneable)
        requires
            i < old(self).entries@.len(),
        ensures
            final(self)@ == old(self)@.insert(entry_key(old(self).entries@[i as int]), t),
            final(self).entries@.len() == old(self).entries@.len(),
    {
        proof {
            use_type_invariant(&*self);
            lemma_entries_map_update(self.entries@, i as int, t);
        }
        let mut entries = Vec::new();
        std::mem::swap(&mut entries, &mut self.entries);
        entries[i].value = t;
        self.entries = entries;
    }

    /// The position of the entry under (`category`, `name`).
    fn find(&self, category: &String, name: &String) -> (r: Option<usize>)
        ensures
            match r {
                Some(i) => i < self.entries@.len() && entry_key(self.entries@[i as int]) == (
                category@,
                name@,
                ),
                None => !self@.contains_key((category@, name@)),
            },
    {
        let mut i: usize = 0;
        while i < self.entries.len()
            invariant
                i <= self.entries@.len(),
                forall|j: int| 0 <= j < i ==> entry_key(self.entries@[j]) != (category@, name@),
            decreases self.entries@.len() - i,
        {
            if self.entries[i].category == *category && self.entries[i].name == *name {
                return Some(i);
            }
            i = i + 1;
        }
        proof {
            lemma_entries_map_domain(self.entries@, (category@, name@));
        }
        None
    }
}

/// Registers the declaration `value` under (`category`, `name`). The first
/// registration of a key wins: a key already present keeps its stored value.
pub fn register<T: AsTuneable>(state: &mut TunaState, category: &str, name: &str, value: &T)
    ensures
        final(state)@ == registered(old(state)@, (category@, name@), value.initial()),
{
    proof {
        use_type_invariant(&*state);
    }
    let c = category.to_owned();
    let n = name.to_owned();
    let found = state.find(&c, &n);
    if let Some(i) = found {
        proof {
            lemma_entries_map_index(state.entries@, i as int);
        }
    } else {
        let t = value.make_tuneable();
        let ghost old_entries = state.entries@;
        proof {
            lemma_entries_map_domain(old_entries, (category@, name@));
        }
        let mut entries = Vec::new();
        std::mem::swap(&mut entries, &mut state.entries);
        entries.push(Entry { category: c, name: n, value: t });
        assert(entries@.drop_last() == old_entries);
        state.entries = entries;
    }
}

/// The current value under (`category`, `name`), if the key is registered
/// with a value of kind `T`.
pub fn get<T: AsTuneable>(state: &TunaState, category: &str, name: &str) -> (r: Option<T::Result>)
    ensures
        r == lookup::<T>(state@, (category@, name@)),
{
    proof {
        use_type_invariant(state);
    }
    let c = category.to_owned();
    let n = name.to_owned();
    match state.find(&c, &n) {
        Some(i) => {
            proof {
                lemma_entries_map_index(state.entries@, i as int);
            }
            T::from_tuneable(&state.entries[i].value)
        },
        None => None,
    }
}

/// Writes `value` under (`category`, `name`) by the update rule of kind `T`
/// (bounded kinds clamp). Returns whether the key is registered with a value
/// of kind `T`; when it is not, nothing changes.
pub fn set<T: AsTuneable>(state: &mut TunaState, category: &str, name: &str, value: T::Result) -> (r: bool)
    ensures
        r == writable::<T>(old(state)@, (category@, name@)),
        final(state)@ == assigned::<T>(old(state)@, (category@, name@), value),
{
    proof {
        use_type_invariant(&*state);
    }
    let c = category.to_owned();
    let n = name.to_owned();
    match state.find(&c, &n) {
        Some(i) => {
            proof {
                lemma_entries_map_index(state.entries@, i as int);
            }
            let mut t = state.entries[i].value;
            let ok = T::update(&mut t, value);
            if ok {
                state.replace_value(i, t);
            }
            ok
        },
        None => false,
    }
}

/// Sets the value under (`category`, `name`) back to its default, if the key
/// is registered with a value of kind `T`; otherwise nothing changes.
pub fn reset<T: AsTuneable>(state: &mut TunaState, category: &str, name: &str)
    ensures
        final(state)@ == restored::<T>(old(state)@, (category@, name@)),
{
    proof {
        use_type_invariant(&*state);
    }
    let c = category.to_owned();
    let n = name.to_owned();
    match state.find(&c, &n) {
        Some(i) => {
            proof {
                lemma_entries_map_index(state.entries@, i as int);
            }
            let mut t = state.entries[i].value;
            if T::from_tuneable(&t).is_some() {
                T::reset(&mut t);
                state.replace_value(i, t);
            }
        },
        None => {},
    }
}

/// Whether (`category`, `name`) is registered, with a value of any kind.
pub fn is_registered(state: &TunaState, category: &str, name: &str) -> (r: bool)
    ensures
        r == state@.contains_key((category@, name@)),
{
    let c = category.to_owned();
    let n = name.to_owned();
    match state.find(&c, &n) {
        Some(i) => {
            proof {
                use_type_invariant(state);
                lemma_entries_map_index(state.entries@, i as int);
            }
            true
        },
        None => false,
    }
}

} // verus!
