//! Small text operations the protocol needs, proved over sequences of
//! characters.

use vstd::prelude::*;
use vstd::std_specs::iter::IteratorSpec;
use vstd::string::*;

verus! {

/// A text with every trailing occurrence of `c` removed.
pub open spec fn without_trailing(s: Seq<char>, c: char) -> Seq<char>
    decreases s.len(),
{
    if s.len() > 0 && s.last() == c {
        without_trailing(s.drop_last(), c)
    } else {
        s
    }
}

/// A text with every leading occurrence of `c` removed.
pub open spec fn without_leading(s: Seq<char>, c: char) -> Seq<char>
    decreases s.len(),
{
    if s.len() > 0 && s.first() == c {
        without_leading(s.drop_first(), c)
    } else {
        s
    }
}

/// Whether `needle` occurs in `s` starting at index `at`.
pub open spec fn occurs_at(s: Seq<char>, needle: Seq<char>, at: int) -> bool {
    0 <= at && at + needle.len() <= s.len() && s.subrange(at, at + needle.len()) == needle
}

/// Whether `needle` occurs somewhere in `s`.
pub open spec fn has_substring(s: Seq<char>, needle: Seq<char>) -> bool {
    exists|at: int| occurs_at(s, needle, at)
}

/// The index of the first `c` in `s`, or the length of `s` if there is
/// none.
pub open spec fn first_index_of(s: Seq<char>, c: char) -> int
    decreases s.len(),
{
    if s.len() == 0 || s.first() == c {
        0
    } else {
        1 + first_index_of(s.drop_first(), c)
    }
}

/// The three parts of a compact token `a.b.c`: the texts around its two
/// dots. `None` unless the text holds exactly two dots.
pub open spec fn compact_parts(s: Seq<char>) -> Option<(Seq<char>, Seq<char>, Seq<char>)> {
    let i = first_index_of(s, '.');
    if i >= s.len() {
        None
    } else {
        let rest = s.subrange(i + 1, s.len() as int);
        let j = first_index_of(rest, '.');
        if j >= rest.len() {
            None
        } else {
            let last = rest.subrange(j + 1, rest.len() as int);
            if first_index_of(last, '.') < last.len() {
                None
            } else {
                Some((s.subrange(0, i), rest.subrange(0, j), last))
            }
        }
    }
}

/// The first index of `c` is the position before which no `c` stands and
/// at which one does, or the end.
pub proof fn lemma_first_index_of(s: Seq<char>, c: char, at: int)
    requires
        0 <= at <= s.len(),
        forall|k: int| 0 <= k < at ==> s[k] != c,
        at < s.len() ==> s[at] == c,
    ensures
        first_index_of(s, c) == at,
    decreases s.len(),
{
    if s.len() == 0 || s.first() == c {
    } else {
        let t = s.drop_first();
        assert forall|k: int| 0 <= k < at - 1 implies t[k] != c by {
            assert(t[k] == s[k + 1]);
        }
        lemma_first_index_of(t, c, at - 1);
    }
}

/// The non-empty runs of characters between spaces, in order.
pub open spec fn space_separated(s: Seq<char>) -> Seq<Seq<char>>
    decreases s.len(),
{
    if s.len() == 0 {
        Seq::empty()
    } else if s.first() == ' ' {
        space_separated(s.drop_first())
    } else {
        let n = run_length(s);
        if 0 < n <= s.len() {
            seq![s.subrange(0, n)] + space_separated(s.subrange(n, s.len() as int))
        } else {
            seq![s]
        }
    }
}

/// The length of the longest prefix of `s` that holds no space.
pub open spec fn run_length(s: Seq<char>) -> int
    decreases s.len(),
{
    if s.len() == 0 || s.first() == ' ' {
        0
    } else {
        1 + run_length(s.drop_first())
    }
}

/// The texts of `parts` with one space between neighbours.
pub open spec fn joined_by_space(parts: Seq<Seq<char>>) -> Seq<char>
    decreases parts.len(),
{
    if parts.len() == 0 {
        Seq::empty()
    } else if parts.len() == 1 {
        parts[0]
    } else {
        joined_by_space(parts.drop_last()) + seq![' '] + parts.last()
    }
}

/// The views of a vector of strings.
pub open spec fn views(parts: Seq<String>) -> Seq<Seq<char>> {
    Seq::new(parts.len(), |i: int| parts[i]@)
}

pub proof fn lemma_run_length_bounds(s: Seq<char>)
    ensures
        0 <= run_length(s) <= s.len(),
        run_length(s) < s.len() ==> s[run_length(s)] == ' ',
        forall|k: int| 0 <= k < run_length(s) ==> s[k] != ' ',
        s.len() > 0 && s.first() != ' ' ==> run_length(s) > 0,
    decreases s.len(),
{
    if s.len() == 0 || s.first() == ' ' {
    } else {
        lemma_run_length_bounds(s.drop_first());
        let t = s.drop_first();
        assert forall|k: int| 0 <= k < run_length(s) implies s[k] != ' ' by {
            if k > 0 {
                assert(s[k] == t[k - 1]);
            }
        }
        if run_length(s) < s.len() {
            assert(s[run_length(s)] == t[run_length(t)]);
        }
    }
}

/// Copies the characters of a text into a vector.
pub fn to_chars(text: &str) -> (chars: Vec<char>)
    ensures
        chars@ == text@,
{
    broadcast use vstd::string::group_string_axioms;

    let mut chars: Vec<char> = Vec::new();
    let mut rest = text.chars();
    loop
        invariant
            rest.obeys_prophetic_iter_laws(),
            chars@ + rest.remaining() == text@,
            rest.decrease() is Some,
        ensures
            chars@ == text@,
        decreases rest.decrease()->0,
    {
        match rest.next() {
            Some(c) => {
                chars.push(c);
            },
            None => {
                assert(chars@ + rest.remaining() =~= chars@);
                break ;
            },
        }
    }
    chars
}

/// Whether two texts hold the same characters.
pub fn same_text(a: &str, b: &str) -> (same: bool)
    ensures
        same == (a@ == b@),
{
    let x = to_chars(a);
    let y = to_chars(b);
    if x.len() != y.len() {
        return false;
    }
    let mut i: usize = 0;
    while i < x.len()
        invariant
            x@ == a@,
            y@ == b@,
            x@.len() == y@.len(),
            0 <= i <= x@.len(),
            forall|k: int| 0 <= k < i ==> x@[k] == y@[k],
        decreases x@.len() - i,
    {
        if x[i] != y[i] {
            return false;
        }
        i += 1;
    }
    assert(x@ =~= y@);
    true
}

/// Removes `prefix` from the front of `text`, if `text` starts with it.
pub fn strip_prefix<'a>(text: &'a str, prefix: &str) -> (rest: Option<&'a str>)
    ensures
        match rest {
            Some(r) => prefix@.is_prefix_of(text@) && r@ == text@.subrange(
                prefix@.len() as int,
                text@.len() as int,
            ),
            None => !prefix@.is_prefix_of(text@),
        },
{
    let t = to_chars(text);
    let p = to_chars(prefix);
    if p.len() > t.len() {
        return None;
    }
    let mut i: usize = 0;
    while i < p.len()
        invariant
            t@ == text@,
            p@ == prefix@,
            p@.len() <= t@.len(),
            0 <= i <= p@.len(),
            forall|k: int| 0 <= k < i ==> t@[k] == p@[k],
        decreases p@.len() - i,
    {
        if t[i] != p[i] {
            proof {
                if p@.is_prefix_of(t@) {
                    assert(t@.subrange(0, p@.len() as int)[i as int] == p@[i as int]);
                }
            }
            return None;
        }
        i += 1;
    }
    assert(t@.subrange(0, p@.len() as int) =~= p@);
    Some(text.substring_char(p.len(), t.len()))
}

/// Removes every trailing `c` from `text`.
pub fn trim_end_matches<'a>(text: &'a str, c: char) -> (trimmed: &'a str)
    ensures
        trimmed@ == without_trailing(text@, c),
{
    let t = to_chars(text);
    let mut end: usize = t.len();
    proof {
        assert(t@.subrange(0, t@.len() as int) =~= t@);
    }
    while end > 0 && t[end - 1] == c
        invariant
            0 <= end <= t@.len(),
            without_trailing(t@, c) == without_trailing(t@.subrange(0, end as int), c),
        decreases end,
    {
        proof {
            let s = t@.subrange(0, end as int);
            assert(s.last() == c);
            assert(s.drop_last() =~= t@.subrange(0, end as int - 1));
        }
        end -= 1;
    }
    text.substring_char(0, end)
}

/// Removes every leading `c` from `text`.
pub fn trim_start_matches<'a>(text: &'a str, c: char) -> (trimmed: &'a str)
    ensures
        trimmed@ == without_leading(text@, c),
{
    let t = to_chars(text);
    let mut start: usize = 0;
    proof {
        assert(t@.subrange(0, t@.len() as int) =~= t@);
    }
    while start < t.len() && t[start] == c
        invariant
            0 <= start <= t@.len(),
            without_leading(t@, c) == without_leading(
                t@.subrange(start as int, t@.len() as int),
                c,
            ),
        decreases t@.len() - start,
    {
        proof {
            let s = t@.subrange(start as int, t@.len() as int);
            assert(s.first() == c);
            assert(s.drop_first() =~= t@.subrange(start as int + 1, t@.len() as int));
        }
        start += 1;
    }
    text.substring_char(start, t.len())
}

/// Whether `needle` occurs in `haystack`.
pub fn contains_text(haystack: &str, needle: &str) -> (found: bool)
    ensures
        found == has_substring(haystack@, needle@),
{
    let h = to_chars(haystack);
    let n = to_chars(needle);
    if n.len() > h.len() {
        assert forall|at: int| !occurs_at(h@, n@, at) by {}
        return false;
    }
    let last: usize = h.len() - n.len();
    let mut at: usize = 0;
    while at <= last
        invariant
            h@ == haystack@,
            n@ == needle@,
            n@.len() <= h@.len(),
            h@.len() <= usize::MAX,
            last == h@.len() - n@.len(),
            0 <= at <= last + 1,
            forall|k: int| 0 <= k < at ==> !occurs_at(h@, n@, k),
        decreases last + 1 - at,
    {
        let mut j: usize = 0;
        let mut matches = true;
        while j < n.len()
            invariant
                n@.len() <= h@.len(),
                h@.len() <= usize::MAX,
                last == h@.len() - n@.len(),
                0 <= at <= last,
                0 <= j <= n@.len(),
                matches ==> forall|k: int| 0 <= k < j ==> h@[at + k] == n@[k],
                !matches ==> !occurs_at(h@, n@, at as int),
            decreases n@.len() - j,
        {
            if h[at + j] != n[j] {
                proof {
                    if occurs_at(h@, n@, at as int) {
                        assert(h@.subrange(at as int, at + n@.len())[j as int] == n@[j as int]);
                    }
                }
                matches = false;
            }
            j += 1;
        }
        if matches {
            assert(h@.subrange(at as int, at + n@.len()) =~= n@);
            assert(occurs_at(h@, n@, at as int));
            return true;
        }
        if at == last {
            assert forall|k: int| !occurs_at(h@, n@, k) by {}
            return false;
        }
        at += 1;
    }
    assert forall|k: int| !occurs_at(h@, n@, k) by {}
    false
}

/// Splits a compact token into its three dot-separated parts. `None` when
/// the text does not hold exactly two dots.
pub fn split_compact<'a>(token: &'a str) -> (parts: Option<(&'a str, &'a str, &'a str)>)
    ensures
        match parts {
            Some((a, b, c)) => compact_parts(token@) == Some((a@, b@, c@)),
            None => compact_parts(token@) is None,
        },
{
    let t = to_chars(token);
    let n = t.len();
    let mut first: usize = 0;
    while first < n && t[first] != '.'
        invariant
            n == t@.len(),
            0 <= first <= n,
            forall|k: int| 0 <= k < first ==> t@[k] != '.',
        decreases n - first,
    {
        first += 1;
    }
    proof {
        lemma_first_index_of(t@, '.', first as int);
    }
    if first == n {
        return None;
    }
    let ghost rest = t@.subrange(first as int + 1, n as int);
    let mut second: usize = first + 1;
    while second < n && t[second] != '.'
        invariant
            n == t@.len(),
            first < second <= n,
            forall|k: int| first < k < second ==> t@[k] != '.',
        decreases n - second,
    {
        second += 1;
    }
    proof {
        assert forall|k: int| 0 <= k < second - first - 1 implies rest[k] != '.' by {
            assert(rest[k] == t@[first + 1 + k]);
        }
        lemma_first_index_of(rest, '.', second - first - 1);
    }
    if second == n {
        return None;
    }
    let ghost last = rest.subrange(second - first, rest.len() as int);
    let mut third: usize = second + 1;
    while third < n && t[third] != '.'
        invariant
            n == t@.len(),
            second < third <= n,
            forall|k: int| second < k < third ==> t@[k] != '.',
        decreases n - third,
    {
        third += 1;
    }
    proof {
        assert(last =~= t@.subrange(second as int + 1, n as int));
        assert forall|k: int| 0 <= k < third - second - 1 implies last[k] != '.' by {
            assert(last[k] == t@[second + 1 + k]);
        }
        lemma_first_index_of(last, '.', third - second - 1);
    }
    if third < n {
        return None;
    }
    let a = token.substring_char(0, first);
    let b = token.substring_char(first + 1, second);
    let c = token.substring_char(second + 1, n);
    proof {
        assert(b@ =~= rest.subrange(0, second - first - 1));
        assert(c@ =~= last);
    }
    Some((a, b, c))
}

/// Splits a text at spaces, dropping empty pieces.
pub fn split_spaces(text: &str) -> (parts: Vec<String>)
    ensures
        views(parts@) == space_separated(text@),
{
    let t = to_chars(text);
    let n = t.len();
    let mut parts: Vec<String> = Vec::new();
    let mut pos: usize = 0;
    proof {
        assert(t@.subrange(0, n as int) =~= t@);
        assert(views(parts@) + space_separated(t@) =~= space_separated(t@));
    }
    while pos < n
        invariant
            n == t@.len(),
            t@ == text@,
            0 <= pos <= n,
            space_separated(t@) == views(parts@) + space_separated(
                t@.subrange(pos as int, n as int),
            ),
        decreases n - pos,
    {
        let ghost rest = t@.subrange(pos as int, n as int);
        if t[pos] == ' ' {
            proof {
                assert(rest.first() == ' ');
                assert(rest.drop_first() =~= t@.subrange(pos as int + 1, n as int));
            }
            pos += 1;
        } else {
            let start = pos;
            let mut end: usize = pos + 1;
            proof {
                lemma_run_length_bounds(rest);
            }
            while end < n && t[end] != ' '
                invariant
                    n == t@.len(),
                    start < end <= n,
                    rest == t@.subrange(start as int, n as int),
                    forall|k: int| start <= k < end ==> t@[k] != ' ',
                    end - start <= run_length(rest),
                    0 <= run_length(rest) <= rest.len(),
                    run_length(rest) < rest.len() ==> rest[run_length(rest)] == ' ',
                    forall|k: int| 0 <= k < run_length(rest) ==> rest[k] != ' ',
                decreases n - end,
            {
                proof {
                    if end - start == run_length(rest) {
                        assert(rest[end - start] == t@[end as int]);
                    }
                }
                end += 1;
            }
            proof {
                if end - start < run_length(rest) {
                    assert(rest[end - start] == t@[end as int]);
                }
                assert(end - start == run_length(rest));
                assert(rest.first() != ' ');
                assert(rest.subrange(0, end - start) =~= t@.subrange(start as int, end as int));
                assert(rest.subrange(end - start, rest.len() as int) =~= t@.subrange(
                    end as int,
                    n as int,
                ));
            }
            let piece = String::from_str(text.substring_char(start, end));
            let ghost before = views(parts@);
            parts.push(piece);
            proof {
                assert(views(parts@) =~= before + seq![piece@]);
                assert(before + (seq![piece@] + space_separated(t@.subrange(end as int, n as int)))
                    =~= (before + seq![piece@]) + space_separated(
                    t@.subrange(end as int, n as int),
                ));
            }
            pos = end;
        }
    }
    proof {
        assert(t@.subrange(n as int, n as int) =~= Seq::<char>::empty());
        assert(views(parts@) + Seq::<Seq<char>>::empty() =~= views(parts@));
    }
    parts
}

/// Copies an optional text.
pub fn copy_optional(text: &Option<String>) -> (copy: Option<String>)
    ensures
        copy == *text,
{
    match text {
        Some(t) => Some(t.clone()),
        None => None,
    }
}

/// Copies a list of texts.
pub fn copy_texts(texts: &Vec<String>) -> (copy: Vec<String>)
    ensures
        copy@ == texts@,
{
    let mut copy: Vec<String> = Vec::new();
    let mut i: usize = 0;
    while i < texts.len()
        invariant
            0 <= i <= texts@.len(),
            copy@ == texts@.subrange(0, i as int),
        decreases texts@.len() - i,
    {
        copy.push(texts[i].clone());
        proof {
            assert(copy@ =~= texts@.subrange(0, i as int + 1));
        }
        i += 1;
    }
    proof {
        assert(texts@.subrange(0, texts@.len() as int) =~= texts@);
    }
    copy
}

/// Joins texts with single spaces.
pub fn join_spaces(parts: &Vec<String>) -> (text: String)
    ensures
        text@ == joined_by_space(views(parts@)),
{
    let mut text = String::new();
    let mut i: usize = 0;
    while i < parts.len()
        invariant
            0 <= i <= parts@.len(),
            text@ == joined_by_space(views(parts@).subrange(0, i as int)),
        decreases parts@.len() - i,
    {
        let ghost done = views(parts@).subrange(0, i as int);
        let ghost next = views(parts@).subrange(0, i as int + 1);
        proof {
            reveal_strlit(" ");
            assert(next.drop_last() =~= done);
            assert(next.last() == parts@[i as int]@);
            assert(" "@ =~= seq![' ']);
        }
        if i > 0 {
            text.append(" ");
        } else {
            proof {
                assert(text@ =~= Seq::<char>::empty());
                assert(Seq::<char>::empty() + parts@[0]@ =~= parts@[0]@);
            }
        }
        text.append(parts[i].as_str());
        i += 1;
    }
    proof {
        assert(views(parts@).subrange(0, parts@.len() as int) =~= views(parts@));
    }
    text
}

/// The texts between the occurrences of `c` in `s`, empty ones included.
pub open spec fn pieces(s: Seq<char>, c: char) -> Seq<Seq<char>>
    decreases s.len(),
{
    let i = first_index_of(s, c);
    if i < 0 || i >= s.len() {
        seq![s]
    } else {
        seq![s.subrange(0, i)] + pieces(s.subrange(i + 1, s.len() as int), c)
    }
}

/// Whether a character is white space.
pub open spec fn is_space(c: char) -> bool {
    c == ' ' || ('\t' <= c && c <= '\r') || c == '\u{85}' || c == '\u{a0}' || c == '\u{1680}' || (
    '\u{2000}' <= c && c <= '\u{200a}') || c == '\u{2028}' || c == '\u{2029}' || c == '\u{202f}'
        || c == '\u{205f}' || c == '\u{3000}'
}

/// A text without its leading white space.
pub open spec fn without_leading_space(s: Seq<char>) -> Seq<char>
    decreases s.len(),
{
    if s.len() > 0 && is_space(s.first()) {
        without_leading_space(s.drop_first())
    } else {
        s
    }
}

/// A text without its trailing white space.
pub open spec fn without_trailing_space(s: Seq<char>) -> Seq<char>
    decreases s.len(),
{
    if s.len() > 0 && is_space(s.last()) {
        without_trailing_space(s.drop_last())
    } else {
        s
    }
}

/// A text without the white space around it.
pub open spec fn trimmed(s: Seq<char>) -> Seq<char> {
    without_trailing_space(without_leading_space(s))
}

/// Whether a character is white space.
pub fn is_whitespace(c: char) -> (space: bool)
    ensures
        space == is_space(c),
{
    c == ' ' || ('\t' <= c && c <= '\r') || c == '\u{85}' || c == '\u{a0}' || c == '\u{1680}' || (
    '\u{2000}' <= c && c <= '\u{200a}') || c == '\u{2028}' || c == '\u{2029}' || c == '\u{202f}'
        || c == '\u{205f}' || c == '\u{3000}'
}

/// Counts the white space at the front of a text.
pub fn leading_space(t: &Vec<char>) -> (start: usize)
    ensures
        start <= t@.len(),
        without_leading_space(t@) == t@.skip(start as int),
{
    let n = t.len();
    let mut start: usize = 0;
    proof {
        assert(t@.skip(0) =~= t@);
    }
    while start < n && is_whitespace(t[start])
        invariant
            n == t@.len(),
            0 <= start <= n,
            without_leading_space(t@) == without_leading_space(t@.skip(start as int)),
        decreases n - start,
    {
        proof {
            let rest = t@.skip(start as int);
            assert(rest.first() == t@[start as int]);
            assert(rest.drop_first() =~= t@.skip(start as int + 1));
        }
        start += 1;
    }
    proof {
        let rest = t@.skip(start as int);
        if start < n {
            assert(rest.first() == t@[start as int]);
        }
    }
    start
}

/// Finds where the white space at the end of a text begins, looking no
/// further to the front than `start`.
pub fn trailing_space(t: &Vec<char>, start: usize) -> (end: usize)
    requires
        start <= t@.len(),
    ensures
        start <= end <= t@.len(),
        without_trailing_space(t@.skip(start as int)) == t@.subrange(start as int, end as int),
{
    let n = t.len();
    let ghost middle = t@.skip(start as int);
    let mut end: usize = n;
    proof {
        assert(middle.take(n - start) =~= middle);
    }
    while end > start && is_whitespace(t[end - 1])
        invariant
            n == t@.len(),
            start <= end <= n,
            middle == t@.skip(start as int),
            without_trailing_space(middle) == without_trailing_space(middle.take(end - start)),
        decreases end,
    {
        proof {
            let front = middle.take(end - start);
            assert(front.last() == t@[end as int - 1]);
            assert(front.drop_last() =~= middle.take(end - start - 1));
        }
        end -= 1;
    }
    proof {
        let front = middle.take(end - start);
        if end > start {
            assert(front.last() == t@[end as int - 1]);
        }
        assert(front =~= t@.subrange(start as int, end as int));
    }
    end
}

/// Removes the white space around a text.
pub fn trim<'a>(text: &'a str) -> (inner: &'a str)
    ensures
        inner@ == trimmed(text@),
{
    let t = to_chars(text);
    let start = leading_space(&t);
    let end = trailing_space(&t, start);
    text.substring_char(start, end)
}

/// Splits a text at every occurrence of `c`.
pub fn split_on(text: &str, c: char) -> (parts: Vec<String>)
    ensures
        views(parts@) == pieces(text@, c),
{
    let t = to_chars(text);
    let n = t.len();
    let mut parts: Vec<String> = Vec::new();
    let mut pos: usize = 0;
    proof {
        assert(t@.subrange(0, n as int) =~= t@);
        assert(views(parts@) + pieces(t@, c) =~= pieces(t@, c));
    }
    loop
        invariant_except_break
            pieces(t@, c) == views(parts@) + pieces(t@.subrange(pos as int, n as int), c),
        invariant
            n == t@.len(),
            t@ == text@,
            0 <= pos <= n,
        ensures
            views(parts@) == pieces(text@, c),
        decreases n - pos,
    {
        let ghost rest = t@.subrange(pos as int, n as int);
        let mut end: usize = pos;
        while end < n && t[end] != c
            invariant
                n == t@.len(),
                pos <= end <= n,
                forall|k: int| pos <= k < end ==> t@[k] != c,
            decreases n - end,
        {
            end += 1;
        }
        proof {
            assert forall|k: int| 0 <= k < end - pos implies rest[k] != c by {
                assert(rest[k] == t@[pos + k]);
            }
            if end < n {
                assert(rest[end - pos] == t@[end as int]);
            }
            lemma_first_index_of(rest, c, end - pos);
        }
        let piece = String::from_str(text.substring_char(pos, end));
        let ghost before = views(parts@);
        parts.push(piece);
        proof {
            assert(views(parts@) =~= before + seq![piece@]);
            assert(piece@ =~= rest.subrange(0, end - pos));
        }
        if end == n {
            proof {
                assert(rest.subrange(0, rest.len() as int) =~= rest);
                assert(pieces(rest, c) =~= seq![rest]);
            }
            break ;
        }
        proof {
            assert(rest.subrange(end - pos + 1, rest.len() as int) =~= t@.subrange(
                end as int + 1,
                n as int,
            ));
            assert(before + (seq![piece@] + pieces(t@.subrange(end as int + 1, n as int), c))
                =~= (before + seq![piece@]) + pieces(t@.subrange(end as int + 1, n as int), c));
        }
        pos = end + 1;
    }
    parts
}

/// The view of an optional text.
pub open spec fn optional_view(text: Option<&str>) -> Option<Seq<char>> {
    match text {
        Some(t) => Some(t@),
        None => None,
    }
}

/// The view of an optional string.
pub open spec fn text_view(text: Option<String>) -> Option<Seq<char>> {
    match text {
        Some(t) => Some(t@),
        None => None,
    }
}

/// Borrows the text of an optional string.
pub fn borrowed(text: &Option<String>) -> (part: Option<&str>)
    ensures
        optional_view(part) == text_view(*text),
{
    match text {
        Some(t) => Some(t.as_str()),
        None => None,
    }
}

/// Whether two byte strings hold the same bytes.
pub fn same_bytes(a: &Vec<u8>, b: &Vec<u8>) -> (same: bool)
    ensures
        same == (a@ == b@),
{
    if a.len() != b.len() {
        return false;
    }
    let mut i: usize = 0;
    while i < a.len()
        invariant
            a@.len() == b@.len(),
            0 <= i <= a@.len(),
            forall|k: int| 0 <= k < i ==> a@[k] == b@[k],
        decreases a@.len() - i,
    {
        if a[i] != b[i] {
            return false;
        }
        i += 1;
    }
    assert(a@ =~= b@);
    true
}

} // verus!
