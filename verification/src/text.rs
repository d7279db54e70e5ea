//! Small operations on text.

use vstd::prelude::*;
use vstd::string::StringExecFns;

verus! {

/// How often `c` occurs in `s`.
pub open spec fn count_char(s: Seq<char>, c: char) -> nat
    decreases s.len(),
{
    if s.len() == 0 {
        0
    } else {
        count_char(s.drop_last(), c) + if s.last() == c {
            1nat
        } else {
            0nat
        }
    }
}

/// A character occurs in a text at most as often as the text is long.
pub proof fn lemma_count_char_bounded(s: Seq<char>, c: char)
    ensures
        count_char(s, c) <= s.len(),
    decreases s.len(),
{
    if s.len() > 0 {
        lemma_count_char_bounded(s.drop_last(), c);
    }
}

/// The occurrences in a text are those in its two parts.
pub proof fn lemma_count_char_concat(a: Seq<char>, b: Seq<char>, c: char)
    ensures
        count_char(a + b, c) == count_char(a, c) + count_char(b, c),
    decreases b.len(),
{
    if b.len() == 0 {
        assert(a + b =~= a);
    } else {
        lemma_count_char_concat(a, b.drop_last(), c);
        assert((a + b).drop_last() =~= a + b.drop_last());
        assert((a + b).last() == b.last());
    }
}

/// Decides whether two texts are the same.
pub fn same_text(a: &str, b: &str) -> (r: bool)
    ensures
        r == (a@ == b@),
{
    let n = a.unicode_len();
    if n != b.unicode_len() {
        return false;
    }
    let mut i: usize = 0;
    while i < n
        invariant
            0 <= i <= n,
            n == a@.len(),
            n == b@.len(),
            forall|k: int| 0 <= k < i ==> a@[k] == b@[k],
        decreases n - i,
    {
        if a.get_char(i) != b.get_char(i) {
            return false;
        }
        i += 1;
    }
    assert(a@ =~= b@);
    true
}

/// Counts how often `c` occurs in `s`.
pub fn count_occurrences(s: &str, c: char) -> (n: usize)
    ensures
        n == count_char(s@, c),
{
    let len = s.unicode_len();
    let mut n: usize = 0;
    let mut i: usize = 0;
    while i < len
        invariant
            0 <= i <= len,
            len == s@.len(),
            n == count_char(s@.take(i as int), c),
            n <= i,
        decreases len - i,
    {
        proof {
            assert(s@.take(i + 1).drop_last() =~= s@.take(i as int));
        }
        if s.get_char(i) == c {
            n += 1;
        }
        i += 1;
    }
    assert(s@.take(len as int) =~= s@);
    n
}


/// The text of a string that may be absent.
pub open spec fn optional_text(text: Option<String>) -> Option<Seq<char>> {
    match text {
        Some(t) => Some(t@),
        None => None,
    }
}

/// The texts of a list of strings.
pub open spec fn texts(items: Seq<String>) -> Seq<Seq<char>> {
    items.map_values(|s: String| s@)
}

/// Whether `a` comes before `b` in the order of strings: at the first place
/// where the two differ `a` has the smaller character, or `a` ends there
/// and `b` goes on.
pub open spec fn text_before(a: Seq<char>, b: Seq<char>) -> bool
    decreases a.len(),
{
    if b.len() == 0 {
        false
    } else if a.len() == 0 {
        true
    } else if a[0] != b[0] {
        a[0] < b[0]
    } else {
        text_before(a.drop_first(), b.drop_first())
    }
}

/// Of two texts at most one comes before the other; none comes before
/// itself.
pub proof fn lemma_text_before_asymmetric(a: Seq<char>, b: Seq<char>)
    requires
        text_before(a, b),
    ensures
        !text_before(b, a),
    decreases a.len(),
{
    if a.len() > 0 && b.len() > 0 && a[0] == b[0] {
        lemma_text_before_asymmetric(a.drop_first(), b.drop_first());
    }
}

/// The order of texts is transitive.
pub proof fn lemma_text_before_transitive(a: Seq<char>, b: Seq<char>, c: Seq<char>)
    requires
        text_before(a, b),
        text_before(b, c),
    ensures
        text_before(a, c),
    decreases a.len(),
{
    if a.len() > 0 && a[0] == b[0] && b[0] == c[0] {
        lemma_text_before_transitive(a.drop_first(), b.drop_first(), c.drop_first());
    }
}

/// Of two different texts one comes before the other.
pub proof fn lemma_text_before_total(a: Seq<char>, b: Seq<char>)
    ensures
        text_before(a, b) || text_before(b, a) || a == b,
    decreases a.len(),
{
    if a.len() > 0 && b.len() > 0 && a[0] == b[0] {
        lemma_text_before_total(a.drop_first(), b.drop_first());
        if a.drop_first() == b.drop_first() {
            assert(a =~= seq![a[0]] + a.drop_first());
            assert(b =~= seq![b[0]] + b.drop_first());
        }
    } else if a.len() == 0 && b.len() == 0 {
        assert(a =~= b);
    }
}

/// Decides whether `a` comes before `b` in the order of strings.
pub fn is_before(a: &str, b: &str) -> (r: bool)
    ensures
        r == text_before(a@, b@),
{
    let n = a.unicode_len();
    let m = b.unicode_len();
    let mut i: usize = 0;
    assert(a@.skip(0) =~= a@ && b@.skip(0) =~= b@);
    while i < n && i < m
        invariant
            0 <= i <= n,
            i <= m,
            n == a@.len(),
            m == b@.len(),
            text_before(a@, b@) == text_before(a@.skip(i as int), b@.skip(i as int)),
        decreases n - i,
    {
        let x = a.get_char(i);
        let y = b.get_char(i);
        proof {
            assert(a@.skip(i as int)[0] == x);
            assert(b@.skip(i as int)[0] == y);
            assert(a@.skip(i as int).drop_first() =~= a@.skip(i + 1));
            assert(b@.skip(i as int).drop_first() =~= b@.skip(i + 1));
        }
        if x != y {
            return x < y;
        }
        i += 1;
    }
    i < m
}

/// The parts put one after the other with `sep` between each two.
pub open spec fn joined(parts: Seq<Seq<char>>, sep: Seq<char>) -> Seq<char>
    decreases parts.len(),
{
    if parts.len() == 0 {
        Seq::empty()
    } else if parts.len() == 1 {
        parts[0]
    } else {
        joined(parts.drop_last(), sep) + sep + parts.last()
    }
}

/// Puts the parts one after the other with `sep` between each two.
pub fn join(parts: &Vec<String>, sep: &str) -> (r: String)
    ensures
        r@ == joined(texts(parts@), sep@),
{
    let mut r = String::new();
    let mut i: usize = 0;
    while i < parts.len()
        invariant
            0 <= i <= parts.len(),
            r@ == joined(texts(parts@).take(i as int), sep@),
        decreases parts.len() - i,
    {
        proof {
            let upto = texts(parts@).take(i + 1);
            assert(upto.drop_last() =~= texts(parts@).take(i as int));
            assert(upto.last() == parts@[i as int]@);
            if i == 0 {
                assert(r@ + parts@[i as int]@ =~= upto[0]);
            }
        }
        if i > 0 {
            r.append(sep);
        }
        r.append(parts[i].as_str());
        i += 1;
    }
    assert(texts(parts@).take(parts.len() as int) =~= texts(parts@));
    r
}


/// Whether `c` is white space: one of the characters that Unicode gives
/// the property `White_Space`.
pub open spec fn is_whitespace(c: char) -> bool {
    let n = c as u32;
    ||| 0x09 <= n <= 0x0D
    ||| n == 0x20
    ||| n == 0x85
    ||| n == 0xA0
    ||| n == 0x1680
    ||| 0x2000 <= n <= 0x200A
    ||| n == 0x2028
    ||| n == 0x2029
    ||| n == 0x202F
    ||| n == 0x205F
    ||| n == 0x3000
}

/// Decides whether `c` is white space.
pub fn whitespace(c: char) -> (r: bool)
    ensures
        r == is_whitespace(c),
{
    let n = c as u32;
    (0x09 <= n && n <= 0x0D) || n == 0x20 || n == 0x85 || n == 0xA0 || n == 0x1680 || (0x2000 <= n
        && n <= 0x200A) || n == 0x2028 || n == 0x2029 || n == 0x202F || n == 0x205F || n == 0x3000
}

/// The text in lower case, as the standard library writes it.
pub uninterp spec fn lowercase(s: Seq<char>) -> Seq<char>;

/// Writes a text in lower case, by `str::to_lowercase` of the standard
/// library. The result is a function of the text alone; nothing else is
/// claimed of it.
#[verifier::external_body]
pub(crate) fn to_lowercase(s: &str) -> (r: String)
    ensures
        r@ == lowercase(s@),
{
    s.to_lowercase()
}

/// The number of characters at the head of `s` that are white space
/// (`space` true) or are not (`space` false).
pub open spec fn run_len(s: Seq<char>, space: bool) -> int
    decreases s.len(),
{
    if s.len() == 0 || is_whitespace(s[0]) != space {
        0
    } else {
        1 + run_len(s.drop_first(), space)
    }
}

/// The number of characters at the end of `s` that are white space.
pub open spec fn trailing_space(s: Seq<char>) -> int
    decreases s.len(),
{
    if s.len() == 0 || !is_whitespace(s.last()) {
        0
    } else {
        1 + trailing_space(s.drop_last())
    }
}

/// The text without the white space at its head and at its end.
pub open spec fn trimmed(s: Seq<char>) -> Seq<char> {
    let from = run_len(s, true);
    if from == s.len() {
        Seq::empty()
    } else {
        s.subrange(from, s.len() - trailing_space(s))
    }
}

/// A run is no longer than the text.
pub proof fn lemma_run_len_bounded(s: Seq<char>, space: bool)
    ensures
        0 <= run_len(s, space) <= s.len(),
    decreases s.len(),
{
    if s.len() > 0 && is_whitespace(s[0]) == space {
        lemma_run_len_bounded(s.drop_first(), space);
    }
}

/// A text that is not all white space has less white space at its end than
/// characters behind the white space at its head.
pub proof fn lemma_trim_ends(s: Seq<char>)
    requires
        run_len(s, true) < s.len(),
    ensures
        run_len(s, true) + trailing_space(s) < s.len(),
    decreases s.len(),
{
    lemma_run_len_bounded(s, true);
    lemma_run_len_stops(s, true);
    if is_whitespace(s.last()) {
        let front = s.drop_last();
        lemma_run_len_front(s, s.len() - 1);
        assert(front =~= s.take(s.len() - 1));
        lemma_trim_ends(front);
    }
}

/// The character behind a run is not of the run's kind.
pub proof fn lemma_run_len_stops(s: Seq<char>, space: bool)
    requires
        run_len(s, space) < s.len(),
    ensures
        0 <= run_len(s, space),
        is_whitespace(s[run_len(s, space)]) != space,
    decreases s.len(),
{
    if s.len() > 0 && is_whitespace(s[0]) == space {
        lemma_run_len_stops(s.drop_first(), space);
    }
}

/// Where the first `k` characters do not end the run at the head, the run
/// of the whole text is the run of those characters.
pub proof fn lemma_run_len_front(s: Seq<char>, k: int)
    requires
        0 <= k <= s.len(),
        run_len(s, true) < k,
    ensures
        run_len(s.take(k), true) == run_len(s, true),
    decreases s.len(),
{
    if s.len() > 0 && is_whitespace(s[0]) {
        lemma_run_len_bounded(s.drop_first(), true);
        lemma_run_len_front(s.drop_first(), k - 1);
        assert(s.take(k).drop_first() =~= s.drop_first().take(k - 1));
        assert(s.take(k)[0] == s[0]);
    } else if k > 0 {
        assert(s.take(k)[0] == s[0]);
    }
}

/// Counts the characters from place `from` on that are white space
/// (`space` true) or are not (`space` false), up to the first that differs.
pub fn run_from(s: &str, from: usize, space: bool) -> (end: usize)
    requires
        from <= s@.len(),
    ensures
        end == from + run_len(s@.skip(from as int), space),
        from <= end <= s@.len(),
{
    let len = s.unicode_len();
    let mut i: usize = from;
    proof {
        assert(s@.skip(from as int).skip(0) =~= s@.skip(from as int));
    }
    while i < len && whitespace(s.get_char(i)) == space
        invariant
            from <= i <= len,
            len == s@.len(),
            run_len(s@.skip(from as int), space) == (i - from) + run_len(s@.skip(i as int), space),
        decreases len - i,
    {
        proof {
            assert(s@.skip(i as int)[0] == s@[i as int]);
            assert(s@.skip(i as int).drop_first() =~= s@.skip(i + 1));
        }
        i += 1;
    }
    proof {
        if i < len {
            assert(s@.skip(i as int)[0] == s@[i as int]);
        }
    }
    i
}

/// Removes the white space at the head and at the end of a text.
pub fn trim(s: &str) -> (r: &str)
    ensures
        r@ == trimmed(s@),
{
    let len = s.unicode_len();
    proof {
        assert(s@.skip(0) =~= s@);
    }
    let from = run_from(s, 0, true);
    if from == len {
        let r = s.substring_char(0, 0);
        assert(r@ =~= Seq::<char>::empty());
        return r;
    }
    let mut to: usize = len;
    proof {
        lemma_trim_ends(s@);
        assert(s@.take(len as int) =~= s@);
    }
    while to > 0 && whitespace(s.get_char(to - 1))
        invariant
            0 <= to <= len,
            len == s@.len(),
            trailing_space(s@) == (len - to) + trailing_space(s@.take(to as int)),
        decreases to,
    {
        proof {
            assert(s@.take(to as int).last() == s@[to - 1]);
            assert(s@.take(to as int).drop_last() =~= s@.take(to - 1));
        }
        to -= 1;
    }
    proof {
        if to > 0 {
            assert(s@.take(to as int).last() == s@[to - 1]);
        }
    }
    s.substring_char(from, to)
}

/// The first line of a text: the characters before the first line feed,
/// less a carriage return that stands right before it; the whole text where
/// it holds no line feed; no line where the text is empty.
pub open spec fn first_line(s: Seq<char>) -> Option<Seq<char>> {
    if s.len() == 0 {
        None
    } else {
        let end = s.index_of_first('\n');
        match end {
            None => Some(s),
            Some(i) => if i > 0 && s[i - 1] == '\r' {
                Some(s.take(i - 1))
            } else {
                Some(s.take(i))
            },
        }
    }
}

/// The first line of a text.
pub fn take_first_line(s: &str) -> (r: Option<&str>)
    ensures
        match r {
            Some(line) => first_line(s@) == Some(line@),
            None => first_line(s@) is None,
        },
{
    let len = s.unicode_len();
    if len == 0 {
        return None;
    }
    let mut i: usize = 0;
    while i < len && s.get_char(i) != '\n'
        invariant
            0 <= i <= len,
            len == s@.len(),
            forall|k: int| 0 <= k < i ==> s@[k] != '\n',
        decreases len - i,
    {
        i += 1;
    }
    proof {
        s@.index_of_first_ensures('\n');
    }
    if i == len {
        let r = s.substring_char(0, len);
        assert(r@ =~= s@);
        assert(!s@.contains('\n'));
        Some(r)
    } else {
        proof {
            assert(s@[i as int] == '\n');
            assert(s@.contains('\n'));
            let j = s@.index_of_first('\n').unwrap();
            assert(j == i) by {
                if j < i {
                    assert(s@[j] != '\n');
                }
            }
        }
        if i > 0 && s.get_char(i - 1) == '\r' {
            Some(s.substring_char(0, i - 1))
        } else {
            Some(s.substring_char(0, i))
        }
    }
}

/// The second of the words of a text, where words are what white space
/// parts; none where the text has fewer than two words.
pub open spec fn second_word(s: Seq<char>) -> Option<Seq<char>> {
    let first = run_len(s, true);
    let behind = first + run_len(s.skip(first), false);
    let second = behind + run_len(s.skip(behind), true);
    let end = second + run_len(s.skip(second), false);
    if second < s.len() {
        Some(s.subrange(second, end))
    } else {
        None
    }
}

/// The second of the words of a text.
pub fn take_second_word(s: &str) -> (r: Option<&str>)
    ensures
        match r {
            Some(word) => second_word(s@) == Some(word@),
            None => second_word(s@) is None,
        },
{
    let len = s.unicode_len();
    proof {
        assert(s@.skip(0) =~= s@);
    }
    let first = run_from(s, 0, true);
    let behind = run_from(s, first, false);
    let second = run_from(s, behind, true);
    let end = run_from(s, second, false);
    if second < len {
        Some(s.substring_char(second, end))
    } else {
        None
    }
}

/// The text without the pieces that equal `piece`, found from the left,
/// none overlapping another. An empty `piece` leaves the text as it is.
pub open spec fn without(s: Seq<char>, piece: Seq<char>) -> Seq<char>
    decreases s.len(),
{
    if piece.len() == 0 || s.len() < piece.len() {
        s
    } else if s.take(piece.len() as int) == piece {
        without(s.skip(piece.len() as int), piece)
    } else {
        seq![s[0]] + without(s.drop_first(), piece)
    }
}

/// Decides whether `piece` stands in `s` at place `at`.
pub fn stands_at(s: &str, at: usize, piece: &str) -> (r: bool)
    requires
        at <= s@.len(),
    ensures
        r == (at + piece@.len() <= s@.len() && s@.skip(at as int).take(piece@.len() as int)
            == piece@),
{
    let len = s.unicode_len();
    let n = piece.unicode_len();
    if n > len - at {
        return false;
    }
    let mut k: usize = 0;
    while k < n
        invariant
            0 <= k <= n,
            n == piece@.len(),
            len == s@.len(),
            at + n <= len,
            forall|j: int| 0 <= j < k ==> s@[at + j] == piece@[j],
        decreases n - k,
    {
        if s.get_char(at + k) != piece.get_char(k) {
            assert(s@.skip(at as int).take(n as int)[k as int] != piece@[k as int]);
            return false;
        }
        k += 1;
    }
    assert(s@.skip(at as int).take(n as int) =~= piece@);
    true
}

/// Removes from a text the pieces that equal `piece`.
pub fn remove_all(s: &str, piece: &str) -> (r: String)
    ensures
        r@ == without(s@, piece@),
{
    let len = s.unicode_len();
    let n = piece.unicode_len();
    let mut r = String::new();
    if n == 0 {
        r.append(s);
        assert(r@ =~= s@);
        return r;
    }
    let mut i: usize = 0;
    proof {
        assert(s@.skip(0) =~= s@);
        assert(r@ + without(s@, piece@) =~= without(s@, piece@));
    }
    while i < len
        invariant
            0 <= i <= len,
            len == s@.len(),
            n == piece@.len(),
            n > 0,
            without(s@, piece@) == r@ + without(s@.skip(i as int), piece@),
        decreases len - i,
    {
        let ghost rest = s@.skip(i as int);
        if stands_at(s, i, piece) {
            proof {
                assert(rest.skip(n as int) =~= s@.skip(i + n));
            }
            i += n;
        } else {
            let one = s.substring_char(i, i + 1);
            proof {
                assert(one@ =~= seq![rest[0]]);
                assert(rest.drop_first() =~= s@.skip(i + 1));
                assert(r@ + (seq![rest[0]] + without(rest.drop_first(), piece@)) =~= (r@ + one@)
                    + without(rest.drop_first(), piece@));
            }
            r.append(one);
            i += 1;
        }
    }
    proof {
        assert(s@.skip(len as int) =~= Seq::<char>::empty());
        assert(r@ + Seq::<char>::empty() =~= r@);
    }
    r
}

} // verus!
