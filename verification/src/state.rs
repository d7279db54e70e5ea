//! The state of one run, and the resolution of key presses into actions.
//!
//! A key that is bound alone fires at once. Any other key is added to the
//! pending sequence, which fires as soon as it is a bound sequence. A tick
//! clears the pending sequence, so that a chord has to be typed between two
//! ticks.

use crate::action::{Action, ActionView};
use crate::config::{has_mode, never_fires, well_formed, KeyBindings, Table};
use crate::keys::Key;
use crate::mode::Mode;
use vstd::prelude::*;

verus! {

/// The state of one run of the application.
#[derive(Debug)]
pub struct AppState {
    pub should_quit: bool,
    pub should_suspend: bool,
    pub mode: Mode,
    pub pending_key_sequence: Vec<Key>,
}

/// The view of an action that may be absent.
pub open spec fn view_of(action: Option<Action>) -> Option<ActionView> {
    match action {
        Some(a) => Some(a@),
        None => None,
    }
}

/// What a key press does in `mode` while `pending` is buffered: the pending
/// sequence after it, and the action it yields.
pub open spec fn resolve_spec(t: Table, mode: Mode, pending: Seq<Key>, key: Key) -> (
    Seq<Key>,
    Option<ActionView>,
) {
    if !has_mode(t, mode) {
        (Seq::empty(), None)
    } else if t.contains_key((mode, seq![key])) {
        (Seq::empty(), Some(t[(mode, seq![key])]))
    } else if t.contains_key((mode, pending.push(key))) {
        (Seq::empty(), Some(t[(mode, pending.push(key))]))
    } else {
        (pending.push(key), None)
    }
}

/// What a run of key presses does, with no tick between them: the pending
/// sequence after the last one, and what each press yields.
pub open spec fn feed(t: Table, mode: Mode, pending: Seq<Key>, keys: Seq<Key>) -> (
    Seq<Key>,
    Seq<Option<ActionView>>,
)
    decreases keys.len(),
{
    if keys.len() == 0 {
        (pending, Seq::empty())
    } else {
        let (before, yielded) = feed(t, mode, pending, keys.drop_last());
        let (after, action) = resolve_spec(t, mode, before, keys.last());
        (after, yielded.push(action))
    }
}

/// A key that is bound alone fires at once, whatever is pending and whatever
/// longer sequences are bound.
pub proof fn lemma_single_key_fires(t: Table, mode: Mode, pending: Seq<Key>, key: Key)
    requires
        t.contains_key((mode, seq![key])),
    ensures
        resolve_spec(t, mode, pending, key) == (Seq::<Key>::empty(), Some(t[(mode, seq![key])])),
{
}

/// After a tick a key press is resolved as at the start: what was pending
/// before the tick has no part in it.
pub proof fn lemma_tick_forgets(t: Table, mode: Mode, pending: Seq<Key>, key: Key)
    ensures
        resolve_spec(t, mode, tick_spec(pending), key) == resolve_spec(
            t,
            mode,
            Seq::empty(),
            key,
        ),
{
}

/// The pending sequence after a tick.
pub open spec fn tick_spec(pending: Seq<Key>) -> Seq<Key> {
    Seq::empty()
}

proof fn lemma_chord_accumulates(t: Table, mode: Mode, keys: Seq<Key>, k: int)
    requires
        well_formed(t),
        t.contains_key((mode, keys)),
        keys.len() >= 2,
        0 <= k < keys.len(),
    ensures
        feed(t, mode, Seq::empty(), keys.take(k)) == (
            keys.take(k),
            Seq::new(k as nat, |i: int| None::<ActionView>),
        ),
    decreases k,
{
    if k == 0 {
        assert(keys.take(0) =~= Seq::<Key>::empty());
        assert(Seq::new(0nat, |i: int| None::<ActionView>) =~= Seq::<Option<ActionView>>::empty());
    } else {
        lemma_chord_accumulates(t, mode, keys, k - 1);
        let typed = keys.take(k);
        assert(typed.drop_last() =~= keys.take(k - 1));
        assert(typed.last() == keys[k - 1]);
        assert(!never_fires(t, mode, keys));
        assert(!t.contains_key((mode, seq![keys[k - 1]])));
        assert(keys.take(k - 1).push(keys[k - 1]) =~= typed);
        if k == 1 {
            assert(typed =~= seq![keys[0]]);
        } else {
            assert(!t.contains_key((mode, keys.take(k))));
        }
        assert(Seq::new((k - 1) as nat, |i: int| None::<ActionView>).push(None) =~= Seq::new(
            k as nat,
            |i: int| None::<ActionView>,
        ));
    }
}

/// Every sequence bound in a well-formed table can be reached: typed from
/// an empty pending sequence, with no tick in between, it yields nothing
/// before its last key and its action at its last key, and leaves nothing
/// pending.
pub proof fn lemma_bound_sequence_fires(t: Table, mode: Mode, keys: Seq<Key>)
    requires
        well_formed(t),
        t.contains_key((mode, keys)),
    ensures
        feed(t, mode, Seq::empty(), keys) == (
            Seq::<Key>::empty(),
            Seq::new((keys.len() - 1) as nat, |i: int| None::<ActionView>).push(
                Some(t[(mode, keys)]),
            ),
        ),
{
    let n = keys.len() as int;
    assert(n > 0);
    if n == 1 {
        assert(keys.drop_last() =~= Seq::<Key>::empty());
        assert(keys =~= seq![keys.last()]);
        assert(feed(t, mode, Seq::empty(), keys.drop_last()) == (
            Seq::<Key>::empty(),
            Seq::<Option<ActionView>>::empty(),
        ));
        assert(Seq::new(0nat, |i: int| None::<ActionView>) =~= Seq::<Option<ActionView>>::empty());
    } else {
        lemma_chord_accumulates(t, mode, keys, n - 1);
        assert(keys.drop_last() =~= keys.take(n - 1));
        assert(!never_fires(t, mode, keys));
        assert(!t.contains_key((mode, seq![keys[n - 1]])));
        assert(keys.take(n - 1).push(keys.last()) =~= keys);
    }
}

/// The last key of a chord, pressed on an empty pending sequence, yields
/// nothing: where a tick has cleared the start of a chord, finishing the
/// chord does not fire it.
pub proof fn lemma_tick_breaks_chord(t: Table, mode: Mode, keys: Seq<Key>)
    requires
        well_formed(t),
        t.contains_key((mode, keys)),
        keys.len() >= 2,
    ensures
        resolve_spec(t, mode, tick_spec(keys.drop_last()), keys.last()) == (
            seq![keys.last()],
            None::<ActionView>,
        ),
{
    assert(!never_fires(t, mode, keys));
    assert(!t.contains_key((mode, seq![keys[keys.len() - 1]])));
    assert(Seq::<Key>::empty().push(keys.last()) =~= seq![keys.last()]);
}

impl AppState {
    /// The state at the start of a run.
    pub fn new() -> (s: AppState)
        ensures
            !s.should_quit,
            !s.should_suspend,
            s.mode == Mode::Home,
            s.pending_key_sequence@ == Seq::<Key>::empty(),
    {
        AppState {
            should_quit: false,
            should_suspend: false,
            mode: Mode::Home,
            pending_key_sequence: Vec::new(),
        }
    }

    /// Resolves one key press against `bindings` in the current mode.
    pub fn resolve_key(&mut self, bindings: &KeyBindings, key: Key) -> (r: Option<Action>)
        ensures
            (final(self).pending_key_sequence@, view_of(r)) == resolve_spec(
                bindings@,
                old(self).mode,
                old(self).pending_key_sequence@,
                key,
            ),
            final(self).mode == old(self).mode,
            final(self).should_quit == old(self).should_quit,
            final(self).should_suspend == old(self).should_suspend,
    {
        if !bindings.has_mode(self.mode) {
            self.pending_key_sequence.clear();
            return None;
        }
        let single = vec![key];
        assert(single@ =~= seq![key]);
        match bindings.lookup(self.mode, &single) {
            Some(action) => {
                let fired = action.clone();
                self.pending_key_sequence.clear();
                return Some(fired);
            },
            None => {},
        }
        self.pending_key_sequence.push(key);
        match bindings.lookup(self.mode, &self.pending_key_sequence) {
            Some(action) => {
                let fired = action.clone();
                self.pending_key_sequence.clear();
                Some(fired)
            },
            None => None,
        }
    }

    /// Clears the pending key sequence, as every tick does.
    pub fn tick(&mut self)
        ensures
            final(self).pending_key_sequence@ == tick_spec(old(self).pending_key_sequence@),
            final(self).mode == old(self).mode,
            final(self).should_quit == old(self).should_quit,
            final(self).should_suspend == old(self).should_suspend,
    {
        self.pending_key_sequence.clear();
    }
}

} // verus!
