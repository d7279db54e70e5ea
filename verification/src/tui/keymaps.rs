//! The fixed key map of the single-screen front end.
//!
//! The bindings are kept in the order of the keys' names as they are
//! written out for debugging, which is the order in which the footer lists
//! the keys of one action.

use crate::keys::KeyCode;
use crate::text::{
    is_before, join, joined, lemma_text_before_asymmetric, lemma_text_before_total,
    lemma_text_before_transitive, same_text, text_before, texts,
};
use crate::tui::app::Action;
use crate::tui::key_names::{debug_text, key_code_debug};
use vstd::prelude::*;
use vstd::string::StringExecFns;

verus! {

broadcast use vstd::string::group_string_axioms;

/// The text that holds the one character `c`, by `char::to_string` of the
/// standard library.
#[verifier::external_body]
fn char_text(c: char) -> (r: String)
    ensures
        r@ == seq![c],
{
    c.to_string()
}

/// Whether the names stand in their strict order.
pub open spec fn names_sorted(names: Seq<Seq<char>>) -> bool {
    forall|i: int, j: int|
        0 <= i < j < names.len() ==> text_before(#[trigger] names[i], #[trigger] names[j])
}

/// The number of names at the head of `names` that come before `name`.
pub open spec fn place_of(names: Seq<Seq<char>>, name: Seq<char>) -> int
    decreases names.len(),
{
    if names.len() == 0 {
        0
    } else if text_before(names[0], name) {
        1 + place_of(names.drop_first(), name)
    } else {
        0
    }
}

/// The place of a name is the index up to which all names come before it.
pub proof fn lemma_place(names: Seq<Seq<char>>, name: Seq<char>, i: int)
    requires
        0 <= i <= names.len(),
        forall|k: int| 0 <= k < i ==> text_before(#[trigger] names[k], name),
        i < names.len() ==> !text_before(names[i], name),
    ensures
        place_of(names, name) == i,
    decreases i,
{
    if i > 0 {
        let rest = names.drop_first();
        assert forall|k: int| 0 <= k < i - 1 implies text_before(#[trigger] rest[k], name) by {
            assert(rest[k] == names[k + 1]);
        }
        if i < names.len() {
            assert(rest[i - 1] == names[i]);
        }
        lemma_place(rest, name, i - 1);
        assert(text_before(names[0], name));
    }
}

/// Finds the place of `name` among `names`, and tells whether the name at
/// that place is `name`.
pub fn place(names: &Vec<String>, name: &str) -> (r: (usize, bool))
    ensures
        r.0 == place_of(texts(names@), name@),
        r.0 <= names@.len(),
        r.1 == (r.0 < names@.len() && names@[r.0 as int]@ == name@),
        forall|k: int| 0 <= k < r.0 ==> text_before(#[trigger] texts(names@)[k], name@),
        r.0 < names@.len() ==> !text_before(texts(names@)[r.0 as int], name@),
{
    let mut i: usize = 0;
    while i < names.len() && is_before(names[i].as_str(), name)
        invariant
            0 <= i <= names.len(),
            forall|k: int| 0 <= k < i ==> text_before(#[trigger] texts(names@)[k], name@),
        decreases names.len() - i,
    {
        i += 1;
    }
    proof {
        lemma_place(texts(names@), name@, i as int);
    }
    let hit = i < names.len() && same_text(names[i].as_str(), name);
    (i, hit)
}

/// Keys as the footer writes them, each with the action it is bound to.
pub type Labelled = Seq<(Seq<char>, Action)>;

/// The labels and actions of a list of labelled bindings.
pub open spec fn labelled(entries: Seq<(String, Action)>) -> Labelled {
    entries.map_values(|e: (String, Action)| (e.0@, e.1))
}

/// The labels of the keys that are bound to `action`, in the order of the
/// bindings.
pub open spec fn labels_for(entries: Labelled, action: Action) -> Seq<Seq<char>>
    decreases entries.len(),
{
    if entries.len() == 0 {
        Seq::empty()
    } else if entries.last().1 == action {
        labels_for(entries.drop_last(), action).push(entries.last().0)
    } else {
        labels_for(entries.drop_last(), action)
    }
}

/// The actions in the order in which the footer lists them.
pub open spec fn listed_actions() -> Seq<Action> {
    seq![Action::Select, Action::Next, Action::Previous, Action::Quit]
}

/// The footer's entries for the first `k` actions: for each action to which
/// a key is bound, its name, a colon and the labels of its keys.
pub open spec fn listed(entries: Labelled, k: int) -> Seq<Seq<char>>
    decreases k,
{
    if k <= 0 {
        Seq::empty()
    } else {
        let action = listed_actions()[k - 1];
        let labels = labels_for(entries, action);
        if labels.len() == 0 {
            listed(entries, k - 1)
        } else {
            listed(entries, k - 1).push(action.name_spec() + ": "@ + joined(labels, " | "@))
        }
    }
}

/// The line of the footer: the entries of all actions, five blanks between
/// each two.
pub open spec fn format_spec(entries: Labelled) -> Seq<char> {
    joined(listed(entries, 4), "     "@)
}

/// Collects the labels of the keys that are bound to `action`.
pub fn collect_labels(entries: &Vec<(String, Action)>, action: Action) -> (r: Vec<String>)
    ensures
        texts(r@) == labels_for(labelled(entries@), action),
{
    let mut r: Vec<String> = Vec::new();
    let mut i: usize = 0;
    proof {
        assert(labelled(entries@).take(0) =~= Labelled::empty());
        assert(texts(r@) =~= Seq::<Seq<char>>::empty());
    }
    while i < entries.len()
        invariant
            0 <= i <= entries.len(),
            texts(r@) == labels_for(labelled(entries@).take(i as int), action),
        decreases entries.len() - i,
    {
        let entry = &entries[i];
        proof {
            let upto = labelled(entries@).take(i + 1);
            assert(upto.drop_last() =~= labelled(entries@).take(i as int));
            assert(upto.last() == (entry.0@, entry.1));
        }
        if entry.1 == action {
            let ghost so_far = r@;
            let label = entry.0.clone();
            r.push(label);
            assert(texts(r@) =~= texts(so_far).push(label@));
        }
        i += 1;
    }
    assert(labelled(entries@).take(entries.len() as int) =~= labelled(entries@));
    r
}

/// Writes the line of the footer for the given labelled bindings: for each
/// action to which a key is bound its name and the labels of its keys.
pub fn format_labelled(entries: &Vec<(String, Action)>) -> (r: String)
    ensures
        r@ == format_spec(labelled(entries@)),
{
    let actions = [Action::Select, Action::Next, Action::Previous, Action::Quit];
    let mut lines: Vec<String> = Vec::new();
    let mut k: usize = 0;
    proof {
        assert(texts(lines@) =~= Seq::<Seq<char>>::empty());
    }
    while k < 4
        invariant
            0 <= k <= 4,
            actions@ == listed_actions(),
            texts(lines@) == listed(labelled(entries@), k as int),
        decreases 4 - k,
    {
        let action = actions[k];
        let labels = collect_labels(entries, action);
        if labels.len() > 0 {
            let ghost so_far = lines@;
            let mut line = action.name().to_string();
            line.append(": ");
            let keys = join(&labels, " | ");
            line.append(keys.as_str());
            lines.push(line);
            assert(texts(lines@) =~= texts(so_far).push(line@));
        }
        k += 1;
    }
    join(&lines, "     ")
}

/// The key map.
#[derive(Debug)]
pub struct KeyBindings {
    names: Vec<String>,
    bindings: Vec<(KeyCode, Action)>,
}

/// The bindings as pairs of key and action.
pub type Pairs = Seq<(KeyCode, Action)>;

/// The names of the keys of the bindings.
pub open spec fn names_of(pairs: Pairs) -> Seq<Seq<char>> {
    pairs.map_values(|p: (KeyCode, Action)| key_code_debug(p.0))
}

/// Whether the bindings stand in the strict order of their keys' names.
pub open spec fn sorted(pairs: Pairs) -> bool {
    names_sorted(names_of(pairs))
}

/// The number of bindings at the head of `pairs` whose key's name comes
/// before `name`.
pub open spec fn rank(pairs: Pairs, name: Seq<char>) -> int {
    place_of(names_of(pairs), name)
}

/// Whether a key with this name is bound.
pub open spec fn bound(pairs: Pairs, name: Seq<char>) -> bool {
    let at = rank(pairs, name);
    at < pairs.len() && key_code_debug(pairs[at].0) == name
}

/// The action of the key with this name, if one is bound.
pub open spec fn lookup(pairs: Pairs, name: Seq<char>) -> Option<Action> {
    if bound(pairs, name) {
        Some(pairs[rank(pairs, name)].1)
    } else {
        None
    }
}

/// The bindings after `code` was bound to `action`: a key with the same
/// name keeps its place and gets the action; a new key is put where the
/// order of the names has it.
pub open spec fn inserted(pairs: Pairs, code: KeyCode, action: Action) -> Pairs {
    let name = key_code_debug(code);
    let at = rank(pairs, name);
    if bound(pairs, name) {
        pairs.update(at, (pairs[at].0, action))
    } else {
        pairs.insert(at, (code, action))
    }
}

/// The bindings that result from binding the given pairs one after the
/// other.
pub open spec fn built(pairs: Pairs) -> Pairs
    decreases pairs.len(),
{
    if pairs.len() == 0 {
        Seq::empty()
    } else {
        inserted(built(pairs.drop_last()), pairs.last().0, pairs.last().1)
    }
}

/// The standard bindings, in the order in which they are bound.
pub open spec fn standard_pairs() -> Pairs {
    seq![
        (KeyCode::Char('j'), Action::Next),
        (KeyCode::Char('n'), Action::Next),
        (KeyCode::Down, Action::Next),
        (KeyCode::Char('k'), Action::Previous),
        (KeyCode::Char('p'), Action::Previous),
        (KeyCode::Up, Action::Previous),
        (KeyCode::Enter, Action::Select),
        (KeyCode::Char('q'), Action::Quit),
        (KeyCode::Esc, Action::Quit),
    ]
}

/// How the footer writes a key: a character as itself, the arrows as
/// nothing, enter and escape by their short names, every other key by its
/// name.
pub open spec fn key_label(code: KeyCode) -> Seq<char> {
    match code {
        KeyCode::Char(c) => seq![c],
        KeyCode::Down => ""@,
        KeyCode::Up => ""@,
        KeyCode::Enter => "Enter"@,
        KeyCode::Esc => "Esc"@,
        _ => key_code_debug(code),
    }
}

/// The bindings as the footer writes them.
pub open spec fn labelled_pairs(pairs: Pairs) -> Labelled {
    pairs.map_values(|p: (KeyCode, Action)| (key_label(p.0), p.1))
}

/// Binding a key keeps the bindings in order.
pub proof fn lemma_inserted_sorted(pairs: Pairs, code: KeyCode, action: Action)
    requires
        sorted(pairs),
    ensures
        sorted(inserted(pairs, code, action)),
{
    let name = key_code_debug(code);
    let names = names_of(pairs);
    let at = rank(pairs, name);
    lemma_place_splits(names, name);
    let after = inserted(pairs, code, action);
    let after_names = names_of(after);
    if bound(pairs, name) {
        assert(after_names =~= names);
    } else {
        assert forall|i: int, j: int| 0 <= i < j < after_names.len() implies text_before(
            #[trigger] after_names[i],
            #[trigger] after_names[j],
        ) by {
            if j == at {
                assert(after_names[i] == names[i]);
            } else if i == at {
                assert(after_names[j] == names[j - 1]);
                lemma_text_before_total(names[at], name);
                if j - 1 > at {
                    assert(text_before(names[at], names[j - 1]));
                    lemma_text_before_transitive(name, names[at], names[j - 1]);
                }
            } else {
                let a = if i < at {
                    i
                } else {
                    i - 1
                };
                let b = if j < at {
                    j
                } else {
                    j - 1
                };
                assert(after_names[i] == names[a] && after_names[j] == names[b]);
            }
        }
    }
}

/// The key map is a map from names to actions: after a key was bound, the
/// key of its name has the new action, and the key of every other name has
/// the action that it had. Binding a key whose name is not yet bound adds
/// one binding; binding one whose name is bound adds none.
pub proof fn lemma_lookup_inserted(pairs: Pairs, code: KeyCode, action: Action, name: Seq<char>)
    requires
        sorted(pairs),
    ensures
        lookup(inserted(pairs, code, action), name) == (if name == key_code_debug(code) {
            Some(action)
        } else {
            lookup(pairs, name)
        }),
        inserted(pairs, code, action).len() == pairs.len() + (if bound(
            pairs,
            key_code_debug(code),
        ) {
            0int
        } else {
            1int
        }),
{
    let new_name = key_code_debug(code);
    let names = names_of(pairs);
    let at = place_of(names, new_name);
    let r = place_of(names, name);
    lemma_place_splits(names, new_name);
    lemma_place_splits(names, name);
    let after = inserted(pairs, code, action);
    let after_names = names_of(after);
    if bound(pairs, new_name) {
        assert(after_names =~= names);
    } else {
        assert(after_names =~= names.insert(at, new_name));
        if name == new_name {
            if text_before(new_name, new_name) {
                lemma_text_before_asymmetric(new_name, new_name);
            }
            assert forall|k: int| 0 <= k < at implies text_before(
                #[trigger] after_names[k],
                name,
            ) by {
                assert(after_names[k] == names[k]);
            }
            lemma_place(after_names, name, at);
        } else {
            lemma_text_before_total(new_name, name);
            if text_before(name, new_name) {
                lemma_text_before_asymmetric(name, new_name);
                if r > at {
                    lemma_text_before_transitive(names[at], name, new_name);
                }
                assert forall|k: int| 0 <= k < r implies text_before(
                    #[trigger] after_names[k],
                    name,
                ) by {
                    assert(after_names[k] == names[k]);
                }
                if r < at {
                    assert(after_names[r] == names[r]);
                } else {
                    assert(after_names[r] == new_name);
                }
                lemma_place(after_names, name, r);
            } else {
                assert forall|k: int| 0 <= k < at implies text_before(#[trigger] names[k], name) by {
                    lemma_text_before_transitive(names[k], new_name, name);
                }
                if r < at {
                    assert(text_before(names[r], name));
                }
                assert forall|k: int| 0 <= k < r + 1 implies text_before(
                    #[trigger] after_names[k],
                    name,
                ) by {
                    if k < at {
                        assert(after_names[k] == names[k]);
                    } else if k == at {
                        assert(after_names[k] == new_name);
                    } else {
                        assert(after_names[k] == names[k - 1]);
                    }
                }
                if r < names.len() {
                    assert(after_names[r + 1] == names[r]);
                    assert(after[r + 1] == pairs[r]);
                }
                lemma_place(after_names, name, r + 1);
            }
        }
    }
}

/// Binding pairs one after the other gives no more bindings than pairs.
pub proof fn lemma_built_len(pairs: Pairs)
    ensures
        built(pairs).len() <= pairs.len(),
        sorted(built(pairs)),
    decreases pairs.len(),
{
    if pairs.len() > 0 {
        lemma_built_len(pairs.drop_last());
        lemma_inserted_sorted(built(pairs.drop_last()), pairs.last().0, pairs.last().1);
        lemma_lookup_inserted(
            built(pairs.drop_last()),
            pairs.last().0,
            pairs.last().1,
            key_code_debug(pairs.last().0),
        );
    } else {
        assert(names_of(Pairs::empty()) =~= Seq::<Seq<char>>::empty());
    }
}

/// Where binding the pairs gave as many bindings as there are pairs, no
/// two of their keys have the same name, and each key has its own action.
pub proof fn lemma_built_keeps_all(pairs: Pairs, i: int)
    requires
        built(pairs).len() == pairs.len(),
        0 <= i < pairs.len(),
    ensures
        lookup(built(pairs), key_code_debug(pairs[i].0)) == Some(pairs[i].1),
    decreases pairs.len(),
{
    let init = pairs.drop_last();
    let last = pairs.last();
    lemma_built_len(init);
    lemma_lookup_inserted(built(init), last.0, last.1, key_code_debug(pairs[i].0));
    lemma_lookup_inserted(built(init), last.0, last.1, key_code_debug(last.0));
    if i < pairs.len() - 1 {
        assert(init[i] == pairs[i]);
        lemma_built_keeps_all(init, i);
    }
}

/// The names before the place of a name come before it, and the name at
/// the place does not.
pub proof fn lemma_place_splits(names: Seq<Seq<char>>, name: Seq<char>)
    ensures
        0 <= place_of(names, name) <= names.len(),
        forall|k: int| 0 <= k < place_of(names, name) ==> text_before(#[trigger] names[k], name),
        place_of(names, name) < names.len() ==> !text_before(names[place_of(names, name)], name),
    decreases names.len(),
{
    if names.len() > 0 && text_before(names[0], name) {
        let rest = names.drop_first();
        lemma_place_splits(rest, name);
        assert forall|k: int| 0 <= k < place_of(names, name) implies text_before(
            #[trigger] names[k],
            name,
        ) by {
            if k > 0 {
                assert(names[k] == rest[k - 1]);
            }
        }
        if place_of(names, name) < names.len() {
            assert(names[place_of(names, name)] == rest[place_of(rest, name)]);
        }
    }
}

impl View for KeyBindings {
    type V = Pairs;

    closed spec fn view(&self) -> Pairs {
        self.bindings@
    }
}

impl Clone for KeyBindings {
    fn clone(&self) -> (b: KeyBindings)
        ensures
            b@ == self@,
    {
        proof {
            use_type_invariant(self);
        }
        let mut names: Vec<String> = Vec::new();
        let mut bindings: Vec<(KeyCode, Action)> = Vec::new();
        let mut i: usize = 0;
        assert(texts(self.names@).len() == names_of(self.bindings@).len());
        while i < self.bindings.len()
            invariant
                0 <= i <= self.bindings.len(),
                self.names@.len() == self.bindings@.len(),
                names@ == self.names@.take(i as int),
                bindings@ == self.bindings@.take(i as int),
            decreases self.bindings.len() - i,
        {
            names.push(self.names[i].clone());
            bindings.push(self.bindings[i]);
            assert(names@ =~= self.names@.take(i + 1));
            assert(bindings@ =~= self.bindings@.take(i + 1));
            i += 1;
        }
        assert(self.names@.take(self.names.len() as int) =~= self.names@);
        assert(self.bindings@.take(self.bindings.len() as int) =~= self.bindings@);
        KeyBindings { names, bindings }
    }
}

impl KeyBindings {
    #[verifier::type_invariant]
    spec fn valid(self) -> bool {
        &&& texts(self.names@) == names_of(self.bindings@)
        &&& sorted(self.bindings@)
    }

    /// A key map without bindings.
    fn empty() -> (b: KeyBindings)
        ensures
            b@ == Pairs::empty(),
    {
        let names: Vec<String> = Vec::new();
        let bindings: Vec<(KeyCode, Action)> = Vec::new();
        assert(texts(names@) =~= names_of(bindings@));
        KeyBindings { names, bindings }
    }

    /// Binds `code` to `action`.
    fn insert(&mut self, code: KeyCode, action: Action)
        ensures
            final(self)@ == inserted(old(self)@, code, action),
    {
        proof {
            use_type_invariant(&*self);
            lemma_inserted_sorted(self@, code, action);
        }
        let text = debug_text(code);
        let (at, hit) = place(&self.names, text.as_str());
        let ghost before = self.bindings@;
        let ghost names_before = self.names@;
        assert(texts(names_before).len() == before.len());
        let mut taken = KeyBindings::empty();
        core::mem::swap(self, &mut taken);
        let mut names = taken.names;
        let mut bindings = taken.bindings;
        if hit {
            assert(texts(names_before)[at as int] == names_before[at as int]@);
            let kept = bindings[at].0;
            bindings.set(at, (kept, action));
            assert(bindings@ =~= inserted(before, code, action));
            assert(texts(names@) =~= names_of(bindings@));
        } else {
            proof {
                if (at as int) < before.len() {
                    assert(texts(names_before)[at as int] == names_before[at as int]@);
                }
            }
            names.insert(at, text);
            bindings.insert(at, (code, action));
            assert(bindings@ =~= inserted(before, code, action));
            assert(texts(names@) =~= names_of(bindings@)) by {
                assert forall|k: int| 0 <= k < names@.len() implies texts(names@)[k] == names_of(
                    bindings@,
                )[k] by {
                    if k < at {
                        assert(names@[k] == names_before[k]);
                        assert(texts(names_before)[k] == names_of(before)[k]);
                    } else if k > at {
                        assert(names@[k] == names_before[k - 1]);
                        assert(texts(names_before)[k - 1] == names_of(before)[k - 1]);
                    }
                }
            }
        }
        *self = KeyBindings { names, bindings };
    }

    /// The key map that results from binding the given pairs one after the
    /// other.
    ///
    /// Where the key map has as many bindings as pairs were given, no two
    /// of the keys have the same name, and each key is bound to its own
    /// action.
    pub fn from_pairs(pairs: &Vec<(KeyCode, Action)>) -> (b: KeyBindings)
        ensures
            b@ == built(pairs@),
            sorted(b@),
            b@.len() <= pairs@.len(),
            b@.len() == pairs@.len() ==> forall|i: int|
                0 <= i < pairs@.len() ==> lookup(b@, key_code_debug(#[trigger] pairs@[i].0))
                    == Some(pairs@[i].1),
    {
        let mut b = KeyBindings::empty();
        let mut i: usize = 0;
        proof {
            assert(pairs@.take(0) =~= Pairs::empty());
        }
        while i < pairs.len()
            invariant
                0 <= i <= pairs.len(),
                b@ == built(pairs@.take(i as int)),
            decreases pairs.len() - i,
        {
            proof {
                assert(pairs@.take(i + 1).drop_last() =~= pairs@.take(i as int));
                assert(pairs@.take(i + 1).last() == pairs@[i as int]);
            }
            b.insert(pairs[i].0, pairs[i].1);
            i += 1;
        }
        proof {
            assert(pairs@.take(pairs.len() as int) =~= pairs@);
            use_type_invariant(&b);
            lemma_built_len(pairs@);
            if b@.len() == pairs@.len() {
                assert forall|i: int| 0 <= i < pairs@.len() implies lookup(
                    b@,
                    key_code_debug(#[trigger] pairs@[i].0),
                ) == Some(pairs@[i].1) by {
                    lemma_built_keeps_all(pairs@, i);
                }
            }
        }
        b
    }

    /// The standard key map: `j`, `n` and down move on, `k`, `p` and up move
    /// back, enter chooses, `q` and escape quit.
    ///
    /// Where it has nine bindings, the nine keys have nine names, and each
    /// of them is bound to its action.
    pub fn new() -> (b: KeyBindings)
        ensures
            b@ == built(standard_pairs()),
            sorted(b@),
            b@.len() <= 9,
            b@.len() == 9 ==> forall|i: int|
                0 <= i < 9 ==> lookup(b@, key_code_debug(#[trigger] standard_pairs()[i].0))
                    == Some(standard_pairs()[i].1),
    {
        let pairs = vec![
            (KeyCode::Char('j'), Action::Next),
            (KeyCode::Char('n'), Action::Next),
            (KeyCode::Down, Action::Next),
            (KeyCode::Char('k'), Action::Previous),
            (KeyCode::Char('p'), Action::Previous),
            (KeyCode::Up, Action::Previous),
            (KeyCode::Enter, Action::Select),
            (KeyCode::Char('q'), Action::Quit),
            (KeyCode::Esc, Action::Quit),
        ];
        assert(pairs@ =~= standard_pairs());
        KeyBindings::from_pairs(&pairs)
    }

    /// The action to which `key` is bound, if it is bound.
    pub fn get_action(&self, key: KeyCode) -> (r: Option<&Action>)
        ensures
            sorted(self@),
            match r {
                Some(action) => lookup(self@, key_code_debug(key)) == Some(*action),
                None => lookup(self@, key_code_debug(key)) is None,
            },
    {
        proof {
            use_type_invariant(self);
        }
        let text = debug_text(key);
        let (at, hit) = place(&self.names, text.as_str());
        assert(texts(self.names@).len() == self.bindings@.len());
        if hit {
            assert(texts(self.names@)[at as int] == self.names@[at as int]@);
            Some(&self.bindings[at].1)
        } else {
            proof {
                if (at as int) < self.bindings@.len() {
                    assert(texts(self.names@)[at as int] == self.names@[at as int]@);
                }
            }
            None
        }
    }

    /// How the footer writes a key.
    fn label(code: KeyCode) -> (r: String)
        ensures
            r@ == key_label(code),
    {
        match code {
            KeyCode::Char(c) => char_text(c),
            KeyCode::Down => "".to_string(),
            KeyCode::Up => "".to_string(),
            KeyCode::Enter => "Enter".to_string(),
            KeyCode::Esc => "Esc".to_string(),
            _ => debug_text(code),
        }
    }

    /// The line of the footer that lists the bindings: for each action its
    /// name and the keys bound to it.
    pub fn format_bindings(&self) -> (r: String)
        ensures
            r@ == format_spec(labelled_pairs(self@)),
    {
        let mut entries: Vec<(String, Action)> = Vec::new();
        let mut i: usize = 0;
        assert(labelled(entries@) =~= labelled_pairs(self@).take(0));
        while i < self.bindings.len()
            invariant
                0 <= i <= self.bindings.len(),
                labelled(entries@) == labelled_pairs(self@).take(i as int),
            decreases self.bindings.len() - i,
        {
            let (code, action) = self.bindings[i];
            let label = KeyBindings::label(code);
            let ghost so_far = entries@;
            entries.push((label, action));
            proof {
                let all = labelled_pairs(self@);
                assert(labelled(entries@) =~= labelled(so_far).push((label@, action)));
                assert(all.take(i + 1) =~= all.take(i as int).push(all[i as int]));
            }
            i += 1;
        }
        assert(labelled_pairs(self@).take(self.bindings.len() as int) =~= labelled_pairs(self@));
        format_labelled(&entries)
    }

    /// The number of bindings.
    pub fn len(&self) -> (n: usize)
        ensures
            n == self@.len(),
    {
        self.bindings.len()
    }
}

} // verus!
