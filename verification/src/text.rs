//! Character-level helpers on strings: white space, trimming and
//! comma-separated lists.
//!
//! Every function is stated over the sequence of characters that a string
//! holds, its view.

use vstd::prelude::*;

verus! {

/// The characters of `s`, in order.
pub fn chars_of(s: &str) -> (out: Vec<char>)
    ensures
        out@ == s@,
{
    let mut out: Vec<char> = Vec::new();
    for c in it: s.chars()
        invariant
            out@ == it.seq().take(it.index() as int),
            it.seq() == s@,
    {
        out.push(c);
    }
    out
}

/// Whether two strings hold the same characters.
pub fn same_text(a: &str, b: &str) -> (same: bool)
    ensures
        same == (a@ == b@),
{
    let x = chars_of(a);
    let y = chars_of(b);
    if x.len() != y.len() {
        return false;
    }
    let mut i: usize = 0;
    while i < x.len()
        invariant
            i <= x.len(),
            x.len() == y.len(),
            x@ == a@,
            y@ == b@,
            forall|j: int| 0 <= j < i ==> x@[j] == y@[j],
        decreases x.len() - i,
    {
        if x[i] != y[i] {
            return false;
        }
        i += 1;
    }
    assert(x@ =~= y@);
    true
}

/// The character sequences that a sequence of strings holds.
pub open spec fn texts(strings: Seq<String>) -> Seq<Seq<char>> {
    strings.map_values(|s: String| s@)
}

/// `a` followed by `b`.
pub fn joined(a: &str, b: &str) -> (out: String)
    ensures
        out@ == a@ + b@,
{
    let mut out = String::from_str(a);
    out.append(b);
    out
}

// ---------------------------------------------------------------------------
// White space
// ---------------------------------------------------------------------------

/// The characters with the Unicode property `White_Space`.
pub open spec fn is_white_space(c: char) -> bool {
    ||| '\u{9}' <= c <= '\u{d}'
    ||| c == ' '
    ||| c == '\u{85}'
    ||| c == '\u{a0}'
    ||| c == '\u{1680}'
    ||| '\u{2000}' <= c <= '\u{200a}'
    ||| c == '\u{2028}'
    ||| c == '\u{2029}'
    ||| c == '\u{202f}'
    ||| c == '\u{205f}'
    ||| c == '\u{3000}'
}

/// Whether `c` is white space.
pub fn white_space(c: char) -> (yes: bool)
    ensures
        yes == is_white_space(c),
{
    ('\u{9}' <= c && c <= '\u{d}') || c == ' ' || c == '\u{85}' || c == '\u{a0}' || c
        == '\u{1680}' || ('\u{2000}' <= c && c <= '\u{200a}') || c == '\u{2028}' || c
        == '\u{2029}' || c == '\u{202f}' || c == '\u{205f}' || c == '\u{3000}'
}

/// How many white-space characters `s` starts with.
pub open spec fn leading_white(s: Seq<char>) -> nat
    decreases s.len(),
{
    if s.len() > 0 && is_white_space(s[0]) {
        1 + leading_white(s.skip(1))
    } else {
        0
    }
}

/// How many white-space characters `s` ends with.
pub open spec fn trailing_white(s: Seq<char>) -> nat
    decreases s.len(),
{
    if s.len() > 0 && is_white_space(s.last()) {
        1 + trailing_white(s.drop_last())
    } else {
        0
    }
}

/// `s` without the white space at its two ends.
pub open spec fn trimmed(s: Seq<char>) -> Seq<char> {
    let rest = s.skip(leading_white(s) as int);
    rest.take(rest.len() - trailing_white(rest))
}

/// The leading white space of `s` is a prefix of `s`.
pub proof fn lemma_leading_white_bound(s: Seq<char>)
    ensures
        leading_white(s) <= s.len(),
    decreases s.len(),
{
    if s.len() > 0 && is_white_space(s[0]) {
        lemma_leading_white_bound(s.skip(1));
    }
}

/// The trailing white space of `s` is a suffix of `s`.
pub proof fn lemma_trailing_white_bound(s: Seq<char>)
    ensures
        trailing_white(s) <= s.len(),
    decreases s.len(),
{
    if s.len() > 0 && is_white_space(s.last()) {
        lemma_trailing_white_bound(s.drop_last());
    }
}

/// A trimmed string neither starts nor ends with white space, and trimming
/// it again changes nothing.
pub proof fn lemma_trimmed_is_tight(s: Seq<char>)
    ensures
        trimmed(s).len() > 0 ==> !is_white_space(trimmed(s)[0]) && !is_white_space(
            trimmed(s).last(),
        ),
        trimmed(trimmed(s)) == trimmed(s),
{
    lemma_leading_white_bound(s);
    let rest = s.skip(leading_white(s) as int);
    lemma_leading_white_stops(s);
    lemma_trailing_white_bound(rest);
    lemma_trailing_white_stops(rest);
    let t = trimmed(s);
    if t.len() > 0 {
        assert(t[0] == rest[0]);
        assert(leading_white(t) == 0);
        assert(trailing_white(t) == 0);
        assert(t.skip(0) =~= t);
        assert(t.take(t.len() as int) =~= t);
    } else {
        assert(leading_white(t) == 0);
        assert(t.skip(0) =~= t);
        assert(trailing_white(t) == 0);
        assert(t.take(t.len() as int) =~= t);
    }
}

proof fn lemma_leading_white_stops(s: Seq<char>)
    ensures
        leading_white(s) <= s.len(),
        leading_white(s) < s.len() ==> !is_white_space(s[leading_white(s) as int]),
        forall|i: int| 0 <= i < leading_white(s) ==> is_white_space(#[trigger] s[i]),
    decreases s.len(),
{
    if s.len() > 0 && is_white_space(s[0]) {
        let r = s.skip(1);
        lemma_leading_white_stops(r);
        assert forall|i: int| 0 <= i < leading_white(s) implies is_white_space(
            #[trigger] s[i],
        ) by {
            if i > 0 {
                assert(s[i] == r[i - 1]);
            }
        }
        if leading_white(s) < s.len() {
            assert(s[leading_white(s) as int] == r[leading_white(r) as int]);
        }
    }
}

proof fn lemma_trailing_white_stops(s: Seq<char>)
    ensures
        trailing_white(s) <= s.len(),
        trailing_white(s) < s.len() ==> !is_white_space(s[s.len() - trailing_white(s) - 1]),
        forall|i: int|
            s.len() - trailing_white(s) <= i < s.len() ==> is_white_space(#[trigger] s[i]),
    decreases s.len(),
{
    if s.len() > 0 && is_white_space(s.last()) {
        let r = s.drop_last();
        lemma_trailing_white_stops(r);
        assert forall|i: int| s.len() - trailing_white(s) <= i < s.len() implies is_white_space(
            #[trigger] s[i],
        ) by {
            if i < s.len() - 1 {
                assert(s[i] == r[i]);
            }
        }
        if trailing_white(s) < s.len() {
            assert(s[s.len() - trailing_white(s) - 1] == r[r.len() - trailing_white(r) - 1]);
        }
    }
}

/// A run of white space at the front of `s`, followed by something else or
/// by the end, is all of its leading white space.
proof fn lemma_leading_white_is(s: Seq<char>, n: int)
    requires
        0 <= n <= s.len(),
        forall|i: int| 0 <= i < n ==> is_white_space(#[trigger] s[i]),
        n < s.len() ==> !is_white_space(s[n]),
    ensures
        leading_white(s) == n,
    decreases n,
{
    if n > 0 {
        let r = s.skip(1);
        assert forall|i: int| 0 <= i < n - 1 implies is_white_space(#[trigger] r[i]) by {
            assert(r[i] == s[i + 1]);
        }
        lemma_leading_white_is(r, n - 1);
    }
}

/// A run of white space at the back of `s`, preceded by something else or
/// by the start, is all of its trailing white space.
proof fn lemma_trailing_white_is(s: Seq<char>, n: int)
    requires
        0 <= n <= s.len(),
        forall|i: int| s.len() - n <= i < s.len() ==> is_white_space(#[trigger] s[i]),
        n < s.len() ==> !is_white_space(s[s.len() - n - 1]),
    ensures
        trailing_white(s) == n,
    decreases n,
{
    if n > 0 {
        let r = s.drop_last();
        assert forall|i: int| r.len() - (n - 1) <= i < r.len() implies is_white_space(
            #[trigger] r[i],
        ) by {
            assert(r[i] == s[i]);
        }
        lemma_trailing_white_is(r, n - 1);
    }
}

/// The part of `chars[from..to]` that is left when the white space at its two
/// ends is taken away, as a pair of positions in `chars`.
pub fn trim_bounds(chars: &Vec<char>, from: usize, to: usize) -> (bounds: (usize, usize))
    requires
        from <= to <= chars@.len(),
    ensures
        from <= bounds.0 <= bounds.1 <= to,
        chars@.subrange(bounds.0 as int, bounds.1 as int) == trimmed(
            chars@.subrange(from as int, to as int),
        ),
{
    let ghost s = chars@.subrange(from as int, to as int);
    let mut a: usize = from;
    while a < to && white_space(chars[a])
        invariant
            from <= a <= to <= chars@.len(),
            forall|i: int| from <= i < a ==> is_white_space(#[trigger] chars@[i]),
        decreases to - a,
    {
        a += 1;
    }
    let mut b: usize = to;
    while b > a && white_space(chars[b - 1])
        invariant
            from <= a <= b <= to <= chars@.len(),
            forall|i: int| b <= i < to ==> is_white_space(#[trigger] chars@[i]),
        decreases b - a,
    {
        b -= 1;
    }
    proof {
        assert forall|i: int| 0 <= i < a - from implies is_white_space(#[trigger] s[i]) by {
            assert(s[i] == chars@[from + i]);
        }
        lemma_leading_white_is(s, a - from);
        let rest = s.skip((a - from) as int);
        assert(rest =~= chars@.subrange(a as int, to as int));
        assert forall|i: int| rest.len() - (to - b) <= i < rest.len() implies is_white_space(
            #[trigger] rest[i],
        ) by {
            assert(rest[i] == chars@[a + i]);
        }
        if b > a {
            assert(rest[rest.len() - (to - b) - 1] == chars@[b - 1]);
        }
        lemma_trailing_white_is(rest, to - b);
        assert(rest.take(rest.len() - (to - b)) =~= chars@.subrange(a as int, b as int));
    }
    (a, b)
}

/// `s` without the white space at its two ends.
pub fn trim(s: &str) -> (out: String)
    ensures
        out@ == trimmed(s@),
{
    let chars = chars_of(s);
    let (a, b) = trim_bounds(&chars, 0, chars.len());
    assert(chars@.subrange(0, chars@.len() as int) =~= s@);
    String::from_str(s.substring_char(a, b))
}

// ---------------------------------------------------------------------------
// Comma-separated lists
// ---------------------------------------------------------------------------

/// How many characters of `s` stand before its first comma, or all of them
/// if it has none.
pub open spec fn first_entry_len(s: Seq<char>) -> nat
    decreases s.len(),
{
    if s.len() == 0 || s[0] == ',' {
        0
    } else {
        1 + first_entry_len(s.skip(1))
    }
}

/// The entries of a comma-separated list: the texts between its commas, in
/// order. A list without a comma has one entry, which may be empty.
pub open spec fn split_commas(s: Seq<char>) -> Seq<Seq<char>>
    decreases s.len(),
    via split_commas_decreases
{
    let n = first_entry_len(s) as int;
    if n >= s.len() {
        seq![s]
    } else {
        seq![s.take(n)] + split_commas(s.skip(n + 1))
    }
}

#[via_fn]
proof fn split_commas_decreases(s: Seq<char>) {
    lemma_first_entry_len_is_bounded(s);
}

proof fn lemma_first_entry_len_is_bounded(s: Seq<char>)
    ensures
        first_entry_len(s) <= s.len(),
    decreases s.len(),
{
    if !(s.len() == 0 || s[0] == ',') {
        lemma_first_entry_len_is_bounded(s.skip(1));
    }
}

/// A run without a comma at the front of `s`, followed by a comma or by the
/// end, is its first entry.
proof fn lemma_first_entry_len_is(s: Seq<char>, n: int)
    requires
        0 <= n <= s.len(),
        forall|i: int| 0 <= i < n ==> #[trigger] s[i] != ',',
        n < s.len() ==> s[n] == ',',
    ensures
        first_entry_len(s) == n,
    decreases n,
{
    if n > 0 {
        let r = s.skip(1);
        assert forall|i: int| 0 <= i < n - 1 implies #[trigger] r[i] != ',' by {
            assert(r[i] == s[i + 1]);
        }
        lemma_first_entry_len_is(r, n - 1);
    }
}

/// The entries of a comma-separated list, see [`split_commas`].
pub fn split_at_commas(s: &str) -> (out: Vec<String>)
    ensures
        texts(out@) == split_commas(s@),
{
    let chars = chars_of(s);
    let n = chars.len();
    let mut out: Vec<String> = Vec::new();
    let mut start: usize = 0;
    let mut i: usize = 0;
    let ghost view_of = |e: String| e@;
    proof {
        assert(s@.skip(0) =~= s@);
        assert(out@.map_values(view_of) + split_commas(s@.skip(0)) =~= split_commas(s@));
    }
    while i < n
        invariant
            start <= i <= n,
            n == chars@.len(),
            chars@ == s@,
            view_of == |e: String| e@,
            forall|j: int| start <= j < i ==> #[trigger] chars@[j] != ',',
            out@.map_values(view_of) + split_commas(s@.skip(start as int)) == split_commas(s@),
        decreases n - i,
    {
        if chars[i] == ',' {
            let entry = String::from_str(s.substring_char(start, i));
            proof {
                let rest = s@.skip(start as int);
                assert forall|j: int| 0 <= j < i - start implies #[trigger] rest[j] != ',' by {
                    assert(rest[j] == chars@[start + j]);
                }
                lemma_first_entry_len_is(rest, i - start);
                assert(rest.take(i - start) =~= s@.subrange(start as int, i as int));
                assert(rest.skip(i - start + 1) =~= s@.skip(i + 1));
                assert(out@.push(entry).map_values(view_of) =~= out@.map_values(view_of).push(
                    entry@,
                ));
                assert(out@.map_values(view_of).push(entry@) + split_commas(s@.skip(i + 1))
                    =~= out@.map_values(view_of) + split_commas(rest));
            }
            out.push(entry);
            start = i + 1;
        }
        i += 1;
    }
    let entry = String::from_str(s.substring_char(start, n));
    proof {
        let rest = s@.skip(start as int);
        assert forall|j: int| 0 <= j < n - start implies #[trigger] rest[j] != ',' by {
            assert(rest[j] == chars@[start + j]);
        }
        lemma_first_entry_len_is(rest, n - start);
        assert(rest =~= s@.subrange(start as int, n as int));
        assert(out@.push(entry).map_values(view_of) =~= out@.map_values(view_of).push(entry@));
        assert(out@.map_values(view_of).push(entry@) =~= out@.map_values(view_of) + seq![rest]);
    }
    out.push(entry);
    out
}

} // verus!
