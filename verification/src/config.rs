//! The key map: which key sequence yields which action in which mode.
//!
//! A table is built one binding at a time. A binding that could never fire,
//! or that would keep another one from firing, is refused when it is added,
//! so that in a table every bound sequence can be reached by typing it.

use crate::action::{Action, ActionView};
use crate::keys::Key;
use crate::mode::Mode;
use vstd::prelude::*;

verus! {

/// One entry of the key map.
#[derive(Debug)]
pub struct Binding {
    pub mode: Mode,
    pub keys: Vec<Key>,
    pub action: Action,
}

/// Why a binding was refused.
#[derive(Clone, Copy, Debug, PartialEq, Eq, Structural, Hash)]
pub enum BindError {
    /// The key sequence is empty.
    EmptySequence,
    /// The sequence is bound already in this mode.
    AlreadyBound,
    /// The sequence could never fire: one of its keys is bound alone, or a
    /// shorter sequence that it starts with is bound.
    Unreachable,
    /// The sequence would keep a longer bound sequence from firing.
    Shadows,
}

/// The key map as a mathematical map from mode and key sequence to action.
pub type Table = Map<(Mode, Seq<Key>), ActionView>;

/// The mode and key sequence of a binding.
pub open spec fn key_of(b: Binding) -> (Mode, Seq<Key>) {
    (b.mode, b.keys@)
}

/// The table that a list of bindings stands for.
pub open spec fn table(entries: Seq<Binding>) -> Table
    decreases entries.len(),
{
    if entries.len() == 0 {
        Map::empty()
    } else {
        table(entries.drop_last()).insert(key_of(entries.last()), entries.last().action@)
    }
}

/// Whether no two of the bindings have the same mode and key sequence.
pub open spec fn distinct(entries: Seq<Binding>) -> bool {
    forall|i: int, j: int|
        0 <= i < j < entries.len() ==> key_of(#[trigger] entries[i]) != key_of(
            #[trigger] entries[j],
        )
}

/// Whether some sequence is bound in `mode`.
pub open spec fn has_mode(t: Table, mode: Mode) -> bool {
    exists|keys: Seq<Key>| #[trigger] t.contains_key((mode, keys))
}

/// Whether typing `keys` in `mode` could never yield its action: the
/// sequence has two keys or more, and one of its keys is bound alone, or a
/// shorter sequence of two keys or more that it starts with is bound.
pub open spec fn never_fires(t: Table, mode: Mode, keys: Seq<Key>) -> bool {
    &&& keys.len() >= 2
    &&& {
        ||| exists|i: int| 0 <= i < keys.len() && #[trigger] t.contains_key((mode, seq![keys[i]]))
        ||| exists|j: int| 2 <= j < keys.len() && #[trigger] t.contains_key((mode, keys.take(j)))
    }
}

/// Whether binding `keys` in `mode` would make `other`, bound in the same
/// mode, unreachable.
pub open spec fn blocks(keys: Seq<Key>, other: Seq<Key>) -> bool {
    &&& other.len() >= 2
    &&& {
        ||| keys.len() == 1 && other.contains(keys[0])
        ||| 2 <= keys.len() < other.len() && other.take(keys.len() as int) == keys
    }
}

/// Whether binding `keys` in `mode` would make a bound sequence unreachable.
pub open spec fn shadows(t: Table, mode: Mode, keys: Seq<Key>) -> bool {
    exists|other: Seq<Key>| #[trigger] t.contains_key((mode, other)) && blocks(keys, other)
}

/// Whether every bound sequence has a key and can be reached.
pub open spec fn well_formed(t: Table) -> bool {
    forall|mode: Mode, keys: Seq<Key>| #[trigger]
        t.contains_key((mode, keys)) ==> keys.len() > 0 && !never_fires(t, mode, keys)
}

/// What comes of an attempt to bind `keys` in `mode`.
pub open spec fn bind_outcome(t: Table, mode: Mode, keys: Seq<Key>) -> Result<(), BindError> {
    if keys.len() == 0 {
        Err(BindError::EmptySequence)
    } else if t.contains_key((mode, keys)) {
        Err(BindError::AlreadyBound)
    } else if never_fires(t, mode, keys) {
        Err(BindError::Unreachable)
    } else if shadows(t, mode, keys) {
        Err(BindError::Shadows)
    } else {
        Ok(())
    }
}

/// A bound sequence comes from one of the bindings.
pub proof fn lemma_table_dom(entries: Seq<Binding>, k: (Mode, Seq<Key>)) -> (i: int)
    requires
        table(entries).contains_key(k),
    ensures
        0 <= i < entries.len(),
        key_of(entries[i]) == k,
    decreases entries.len(),
{
    if key_of(entries.last()) == k {
        entries.len() - 1
    } else {
        lemma_table_dom(entries.drop_last(), k)
    }
}

/// Each binding of a list without duplicates is in the table with its
/// action.
pub proof fn lemma_table_index(entries: Seq<Binding>, i: int)
    requires
        distinct(entries),
        0 <= i < entries.len(),
    ensures
        table(entries).contains_key(key_of(entries[i])),
        table(entries)[key_of(entries[i])] == entries[i].action@,
    decreases entries.len(),
{
    if i < entries.len() - 1 {
        let rest = entries.drop_last();
        assert(distinct(rest)) by {
            assert forall|a: int, b: int| 0 <= a < b < rest.len() implies key_of(
                #[trigger] rest[a],
            ) != key_of(#[trigger] rest[b]) by {
                assert(rest[a] == entries[a] && rest[b] == entries[b]);
            }
        }
        lemma_table_index(rest, i);
        assert(key_of(entries[i]) != key_of(entries[entries.len() - 1]));
    }
}

/// Adding a binding that [`bind_outcome`] accepts keeps a table well formed.
pub proof fn lemma_bind_keeps_well_formed(t: Table, mode: Mode, keys: Seq<Key>, action: ActionView)
    requires
        well_formed(t),
        bind_outcome(t, mode, keys) is Ok,
    ensures
        well_formed(t.insert((mode, keys), action)),
{
    let u = t.insert((mode, keys), action);
    assert forall|m: Mode, ks: Seq<Key>| #[trigger] u.contains_key((m, ks)) implies ks.len() > 0
        && !never_fires(u, m, ks) by {
        if never_fires(u, m, ks) {
            if exists|i: int| 0 <= i < ks.len() && #[trigger] u.contains_key((m, seq![ks[i]])) {
                let i = choose|i: int| 0 <= i < ks.len() && #[trigger] u.contains_key(
                    (m, seq![ks[i]]),
                );
                if (m, seq![ks[i]]) == (mode, keys) {
                    assert(keys[0] == ks[i]);
                    if (m, ks) == (mode, keys) {
                    } else {
                        assert(t.contains_key((mode, ks)));
                        assert(ks.contains(keys[0]));
                        assert(blocks(keys, ks));
                    }
                } else {
                    assert(t.contains_key((m, seq![ks[i]])));
                    if (m, ks) == (mode, keys) {
                    } else {
                        assert(t.contains_key((m, ks)));
                    }
                }
            } else {
                let j = choose|j: int| 2 <= j < ks.len() && #[trigger] u.contains_key(
                    (m, ks.take(j)),
                );
                if (m, ks.take(j)) == (mode, keys) {
                    if (m, ks) == (mode, keys) {
                    } else {
                        assert(t.contains_key((mode, ks)));
                        assert(blocks(keys, ks));
                    }
                } else {
                    assert(t.contains_key((m, ks.take(j))));
                    if (m, ks) == (mode, keys) {
                    } else {
                        assert(t.contains_key((m, ks)));
                    }
                }
            }
        }
    }
}


/// Decides whether two key sequences are the same.
pub fn same_keys(a: &Vec<Key>, b: &Vec<Key>) -> (r: bool)
    ensures
        r == (a@ == b@),
{
    if a.len() != b.len() {
        return false;
    }
    let mut i: usize = 0;
    while i < a.len()
        invariant
            0 <= i <= a.len(),
            a.len() == b.len(),
            forall|k: int| 0 <= k < i ==> a@[k] == b@[k],
        decreases a.len() - i,
    {
        if a[i] != b[i] {
            return false;
        }
        i += 1;
    }
    assert(a@ =~= b@);
    true
}

/// Decides whether `keys` holds `key`.
pub fn holds_key(keys: &Vec<Key>, key: Key) -> (r: bool)
    ensures
        r == keys@.contains(key),
{
    let mut i: usize = 0;
    while i < keys.len()
        invariant
            0 <= i <= keys.len(),
            forall|k: int| 0 <= k < i ==> keys@[k] != key,
        decreases keys.len() - i,
    {
        if keys[i] == key {
            return true;
        }
        i += 1;
    }
    false
}

/// Decides whether `longer` starts with `keys` and goes on after them.
pub fn starts_with(longer: &Vec<Key>, keys: &Vec<Key>) -> (r: bool)
    ensures
        r == (keys@.len() < longer@.len() && longer@.take(keys@.len() as int) == keys@),
{
    if keys.len() >= longer.len() {
        return false;
    }
    let mut i: usize = 0;
    while i < keys.len()
        invariant
            0 <= i <= keys.len(),
            keys.len() < longer.len(),
            forall|k: int| 0 <= k < i ==> keys@[k] == longer@[k],
        decreases keys.len() - i,
    {
        if keys[i] != longer[i] {
            assert(longer@.take(keys@.len() as int)[i as int] != keys@[i as int]);
            return false;
        }
        i += 1;
    }
    assert(longer@.take(keys@.len() as int) =~= keys@);
    true
}

/// The key map.
pub struct KeyBindings {
    entries: Vec<Binding>,
}

impl View for KeyBindings {
    type V = Table;

    closed spec fn view(&self) -> Table {
        table(self.entries@)
    }
}

impl KeyBindings {
    #[verifier::type_invariant]
    spec fn valid(self) -> bool {
        &&& distinct(self.entries@)
        &&& well_formed(table(self.entries@))
    }

    /// The number of bindings.
    pub closed spec fn spec_len(&self) -> nat {
        self.entries@.len()
    }

    /// A key map without bindings.
    pub fn new() -> (b: KeyBindings)
        ensures
            b@ == Table::empty(),
            b.spec_len() == 0,
    {
        KeyBindings { entries: Vec::new() }
    }

    /// The number of bindings.
    pub fn len(&self) -> (n: usize)
        ensures
            n == self.spec_len(),
    {
        self.entries.len()
    }

    /// The action bound to `keys` in `mode`, if there is one.
    pub fn lookup(&self, mode: Mode, keys: &Vec<Key>) -> (r: Option<&Action>)
        ensures
            well_formed(self@),
            match r {
                Some(a) => self@.contains_key((mode, keys@)) && a@ == self@[(mode, keys@)],
                None => !self@.contains_key((mode, keys@)),
            },
    {
        proof {
            use_type_invariant(self);
        }
        let mut i: usize = 0;
        while i < self.entries.len()
            invariant
                0 <= i <= self.entries.len(),
                distinct(self.entries@),
                well_formed(table(self.entries@)),
                forall|k: int| 0 <= k < i ==> key_of(#[trigger] self.entries@[k]) != (mode, keys@),
            decreases self.entries.len() - i,
        {
            let entry = &self.entries[i];
            if entry.mode == mode && same_keys(&entry.keys, keys) {
                proof {
                    lemma_table_index(self.entries@, i as int);
                }
                return Some(&entry.action);
            }
            i += 1;
        }
        proof {
            if table(self.entries@).contains_key((mode, keys@)) {
                let k = lemma_table_dom(self.entries@, (mode, keys@));
                assert(key_of(self.entries@[k]) == (mode, keys@));
            }
        }
        None
    }

    /// Whether any sequence is bound in `mode`.
    pub fn has_mode(&self, mode: Mode) -> (r: bool)
        ensures
            r == has_mode(self@, mode),
    {
        proof {
            use_type_invariant(self);
        }
        let mut i: usize = 0;
        while i < self.entries.len()
            invariant
                0 <= i <= self.entries.len(),
                distinct(self.entries@),
                forall|k: int| 0 <= k < i ==> (#[trigger] self.entries@[k]).mode != mode,
            decreases self.entries.len() - i,
        {
            if self.entries[i].mode == mode {
                proof {
                    lemma_table_index(self.entries@, i as int);
                    assert(self@.contains_key((mode, self.entries@[i as int].keys@)));
                }
                return true;
            }
            i += 1;
        }
        proof {
            if has_mode(self@, mode) {
                let keys = choose|keys: Seq<Key>| #[trigger] self@.contains_key((mode, keys));
                let k = lemma_table_dom(self.entries@, (mode, keys));
                assert(self.entries@[k].mode == mode);
            }
        }
        false
    }

    /// Whether `keys` could never fire in `mode`.
    fn is_unreachable(&self, mode: Mode, keys: &Vec<Key>) -> (r: bool)
        ensures
            r == never_fires(self@, mode, keys@),
    {
        if keys.len() < 2 {
            return false;
        }
        let mut i: usize = 0;
        while i < keys.len()
            invariant
                0 <= i <= keys.len(),
                keys.len() >= 2,
                forall|k: int| 0 <= k < i ==> !#[trigger] self@.contains_key((mode, seq![keys@[k]])),
            decreases keys.len() - i,
        {
            let single = vec![keys[i]];
            assert(single@ =~= seq![keys@[i as int]]);
            if self.lookup(mode, &single).is_some() {
                assert(self@.contains_key((mode, seq![keys@[i as int]])));
                return true;
            }
            i += 1;
        }
        let mut prefix: Vec<Key> = vec![keys[0], keys[1]];
        let mut j: usize = 2;
        assert(prefix@ =~= keys@.take(2));
        while j < keys.len()
            invariant
                2 <= j <= keys.len(),
                prefix@ == keys@.take(j as int),
                forall|k: int| 0 <= k < keys.len() ==> !#[trigger] self@.contains_key(
                    (mode, seq![keys@[k]]),
                ),
                forall|k: int| 2 <= k < j ==> !#[trigger] self@.contains_key((mode, keys@.take(k))),
            decreases keys.len() - j,
        {
            if self.lookup(mode, &prefix).is_some() {
                assert(self@.contains_key((mode, keys@.take(j as int))));
                return true;
            }
            prefix.push(keys[j]);
            j += 1;
            assert(prefix@ =~= keys@.take(j as int));
        }
        false
    }

    /// Whether binding `keys` in `mode` would keep a bound sequence from
    /// firing.
    fn is_shadowing(&self, mode: Mode, keys: &Vec<Key>) -> (r: bool)
        requires
            keys@.len() > 0,
        ensures
            r == shadows(self@, mode, keys@),
    {
        proof {
            use_type_invariant(self);
        }
        let mut i: usize = 0;
        while i < self.entries.len()
            invariant
                0 <= i <= self.entries.len(),
                keys@.len() > 0,
                distinct(self.entries@),
                forall|k: int|
                    0 <= k < i ==> !((#[trigger] self.entries@[k]).mode == mode && blocks(
                        keys@,
                        self.entries@[k].keys@,
                    )),
            decreases self.entries.len() - i,
        {
            let entry = &self.entries[i];
            if entry.mode == mode && entry.keys.len() >= 2 {
                let blocked = if keys.len() == 1 {
                    holds_key(&entry.keys, keys[0])
                } else {
                    starts_with(&entry.keys, keys)
                };
                if blocked {
                    proof {
                        lemma_table_index(self.entries@, i as int);
                        assert(self@.contains_key((mode, entry.keys@)));
                    }
                    return true;
                }
            }
            i += 1;
        }
        proof {
            if shadows(self@, mode, keys@) {
                let other = choose|other: Seq<Key>| #[trigger]
                    self@.contains_key((mode, other)) && blocks(keys@, other);
                let k = lemma_table_dom(self.entries@, (mode, other));
                assert(self.entries@[k].mode == mode && self.entries@[k].keys@ == other);
            }
        }
        false
    }

    /// Binds `keys` to `action` in `mode`.
    ///
    /// The binding is refused, and the key map left as it was, where the
    /// sequence is empty, bound already, could never fire, or would keep a
    /// bound sequence from firing.
    pub fn bind(&mut self, mode: Mode, keys: Vec<Key>, action: Action) -> (r: Result<
        (),
        BindError,
    >)
        ensures
            r == bind_outcome(old(self)@, mode, keys@),
            r is Ok ==> final(self)@ == old(self)@.insert((mode, keys@), action@),
            r is Err ==> final(self)@ == old(self)@,
            well_formed(final(self)@),
    {
        proof {
            use_type_invariant(&*self);
        }
        if keys.len() == 0 {
            return Err(BindError::EmptySequence);
        }
        if self.lookup(mode, &keys).is_some() {
            return Err(BindError::AlreadyBound);
        }
        if self.is_unreachable(mode, &keys) {
            return Err(BindError::Unreachable);
        }
        if self.is_shadowing(mode, &keys) {
            return Err(BindError::Shadows);
        }
        let ghost before = self.entries@;
        let ghost added = Binding { mode, keys, action };
        proof {
            lemma_bind_keeps_well_formed(table(before), mode, keys@, action@);
            assert(before.push(added).drop_last() =~= before);
            assert(distinct(before.push(added))) by {
                assert forall|a: int, b: int| 0 <= a < b < before.len() + 1 implies key_of(
                    #[trigger] before.push(added)[a],
                ) != key_of(#[trigger] before.push(added)[b]) by {
                    if b == before.len() {
                        lemma_table_index(before, a);
                    }
                }
            }
        }
        let mut taken = KeyBindings::new();
        core::mem::swap(self, &mut taken);
        let mut entries = taken.entries;
        entries.push(Binding { mode, keys, action });
        *self = KeyBindings { entries };
        Ok(())
    }
}

} // verus!
