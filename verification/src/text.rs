//! Character-sequence helpers: the text model every parser of this crate uses.
//!
//! Text is handled as sequences of `char`s.  The spec functions here state the
//! meaning of the std string operations the parsers rely on (`find`,
//! `contains`, `lines`, `trim`, `split`), and the executable functions are
//! proved against them.

use vstd::prelude::*;

verus! {

// ─── Specifications ──────────────────────────────────────────────────────────

/// Index of the first occurrence of `pat` in `s` that starts at `i` or later.
pub open spec fn find_from(s: Seq<char>, pat: Seq<char>, i: int) -> Option<int>
    decreases s.len() + 1 - i,
{
    if i < 0 || i + pat.len() > s.len() {
        None
    } else if s.subrange(i, i + pat.len()) == pat {
        Some(i)
    } else {
        find_from(s, pat, i + 1)
    }
}

/// Index of the first occurrence of `pat` in `s` (what `str::find` returns,
/// counted in characters).
pub open spec fn spec_find(s: Seq<char>, pat: Seq<char>) -> Option<int> {
    find_from(s, pat, 0)
}

/// `s` holds `pat` somewhere.
pub open spec fn spec_contains(s: Seq<char>, pat: Seq<char>) -> bool {
    spec_find(s, pat) is Some
}

/// `s` begins with `pre`.
pub open spec fn spec_starts_with(s: Seq<char>, pre: Seq<char>) -> bool {
    pre.len() <= s.len() && s.take(pre.len() as int) == pre
}

/// `s` ends with `suf`.
pub open spec fn spec_ends_with(s: Seq<char>, suf: Seq<char>) -> bool {
    suf.len() <= s.len() && s.skip(s.len() - suf.len()) == suf
}

/// The characters with the Unicode `White_Space` property (`char::is_whitespace`).
pub open spec fn is_ws(c: char) -> bool {
    ||| ('\u{9}' <= c && c <= '\u{d}')
    ||| c == ' '
    ||| c == '\u{85}'
    ||| c == '\u{a0}'
    ||| c == '\u{1680}'
    ||| ('\u{2000}' <= c && c <= '\u{200a}')
    ||| c == '\u{2028}'
    ||| c == '\u{2029}'
    ||| c == '\u{202f}'
    ||| c == '\u{205f}'
    ||| c == '\u{3000}'
}

/// `s` without its leading whitespace.
pub open spec fn trim_start(s: Seq<char>) -> Seq<char>
    decreases s.len(),
{
    if s.len() > 0 && is_ws(s[0]) {
        trim_start(s.drop_first())
    } else {
        s
    }
}

/// `s` without its trailing whitespace.
pub open spec fn trim_end(s: Seq<char>) -> Seq<char>
    decreases s.len(),
{
    if s.len() > 0 && is_ws(s.last()) {
        trim_end(s.drop_last())
    } else {
        s
    }
}

/// `s` without leading and trailing whitespace (`str::trim`).
pub open spec fn spec_trim(s: Seq<char>) -> Seq<char> {
    trim_end(trim_start(s))
}

/// A line as `str::lines` yields it: a `"\r"` before the `"\n"` that ended it
/// is dropped.
pub open spec fn strip_cr(line: Seq<char>) -> Seq<char> {
    if line.len() > 0 && line.last() == '\r' {
        line.drop_last()
    } else {
        line
    }
}

/// The lines of `cur + s`, where `cur` is the unfinished line read so far.
pub open spec fn lines_from(s: Seq<char>, cur: Seq<char>) -> Seq<Seq<char>>
    decreases s.len(),
{
    if s.len() == 0 {
        if cur.len() == 0 {
            Seq::empty()
        } else {
            seq![cur]
        }
    } else if s[0] == '\n' {
        seq![strip_cr(cur)] + lines_from(s.drop_first(), Seq::empty())
    } else {
        lines_from(s.drop_first(), cur.push(s[0]))
    }
}

/// The lines of `s` (`str::lines`): split at `"\n"`, a `"\r"` right before a
/// `"\n"` dropped, and no empty last line after a final `"\n"`.
pub open spec fn spec_lines(s: Seq<char>) -> Seq<Seq<char>> {
    lines_from(s, Seq::empty())
}

/// The pieces of `cur + s` split at `sep`.
pub open spec fn split_from(s: Seq<char>, sep: char, cur: Seq<char>) -> Seq<Seq<char>>
    decreases s.len(),
{
    if s.len() == 0 {
        seq![cur]
    } else if s[0] == sep {
        seq![cur] + split_from(s.drop_first(), sep, Seq::empty())
    } else {
        split_from(s.drop_first(), sep, cur.push(s[0]))
    }
}

/// The pieces of `s` split at `sep` (`str::split` with a `char`).
pub open spec fn spec_split(s: Seq<char>, sep: char) -> Seq<Seq<char>> {
    split_from(s, sep, Seq::empty())
}

/// The digit character for `d < 10`.
pub open spec fn digit_char(d: nat) -> char {
    if d == 0 { '0' }
    else if d == 1 { '1' }
    else if d == 2 { '2' }
    else if d == 3 { '3' }
    else if d == 4 { '4' }
    else if d == 5 { '5' }
    else if d == 6 { '6' }
    else if d == 7 { '7' }
    else if d == 8 { '8' }
    else { '9' }
}

/// The decimal representation of `n`, as `Display` for integers writes it.
pub open spec fn decimal(n: nat) -> Seq<char>
    decreases n,
{
    if n < 10 {
        seq![digit_char(n)]
    } else {
        decimal(n / 10).push(digit_char(n % 10))
    }
}

/// ASCII lower-casing of one character (`char::to_ascii_lowercase`).
pub open spec fn ascii_lower(c: char) -> char {
    if 'A' <= c && c <= 'Z' {
        ((c as u32) + 32) as char
    } else {
        c
    }
}

/// ASCII lower-casing of a sequence (`str::to_ascii_lowercase`).
pub open spec fn spec_ascii_lower(s: Seq<char>) -> Seq<char> {
    s.map_values(|c: char| ascii_lower(c))
}

/// The character sequences held by a sequence of vectors.
pub open spec fn views(v: Seq<Vec<char>>) -> Seq<Seq<char>> {
    v.map_values(|x: Vec<char>| x@)
}

/// The character sequences held by a sequence of strings.
pub open spec fn string_views(v: Seq<String>) -> Seq<Seq<char>> {
    v.map_values(|x: String| x@)
}

/// Unicode lower-casing of `s`, as `str::to_lowercase` performs it.
pub uninterp spec fn lowercase(s: Seq<char>) -> Seq<char>;

// ─── Lemmas ──────────────────────────────────────────────────────────────────

/// Unfolding `lines_from` one character at a time.
proof fn lemma_lines_step(s: Seq<char>, i: int, cur: Seq<char>)
    requires
        0 <= i < s.len(),
    ensures
        lines_from(s.skip(i), cur) == if s[i] == '\n' {
            seq![strip_cr(cur)] + lines_from(s.skip(i + 1), Seq::empty())
        } else {
            lines_from(s.skip(i + 1), cur.push(s[i]))
        },
{
    assert(s.skip(i).drop_first() =~= s.skip(i + 1));
}

/// Unfolding `split_from` one character at a time.
proof fn lemma_split_step(s: Seq<char>, sep: char, i: int, cur: Seq<char>)
    requires
        0 <= i < s.len(),
    ensures
        split_from(s.skip(i), sep, cur) == if s[i] == sep {
            seq![cur] + split_from(s.skip(i + 1), sep, Seq::empty())
        } else {
            split_from(s.skip(i + 1), sep, cur.push(s[i]))
        },
{
    assert(s.skip(i).drop_first() =~= s.skip(i + 1));
}

/// A match that `find_from` reports lies inside `s` and really is `pat`.
pub proof fn lemma_find_bounds(s: Seq<char>, pat: Seq<char>, i: int)
    ensures
        find_from(s, pat, i) matches Some(j) ==> {
            &&& i <= j
            &&& 0 <= j
            &&& j + pat.len() <= s.len()
            &&& s.subrange(j, j + pat.len()) == pat
        },
    decreases s.len() + 1 - i,
{
    if i < 0 || i + pat.len() > s.len() {
    } else if s.subrange(i, i + pat.len()) == pat {
    } else {
        lemma_find_bounds(s, pat, i + 1);
    }
}

/// Splitting text that holds no separator before the rest: that text joins
/// the piece being read.
pub proof fn lemma_split_no_sep(a: Seq<char>, s: Seq<char>, sep: char, cur: Seq<char>)
    requires
        forall|k: int| 0 <= k < a.len() ==> a[k] != sep,
    ensures
        split_from(a + s, sep, cur) == split_from(s, sep, cur + a),
    decreases a.len(),
{
    if a.len() == 0 {
        assert(a + s =~= s);
        assert(cur + a =~= cur);
    } else {
        assert((a + s)[0] == a[0]);
        assert((a + s).drop_first() =~= a.drop_first() + s);
        lemma_split_no_sep(a.drop_first(), s, sep, cur.push(a[0]));
        assert(cur.push(a[0]) + a.drop_first() =~= cur + a);
    }
}

/// The pieces of `a`, a separator and `b`, where `a` holds no separator: `a`
/// first, then the pieces of `b`.
pub proof fn lemma_split_prepend(a: Seq<char>, b: Seq<char>, sep: char)
    requires
        forall|k: int| 0 <= k < a.len() ==> a[k] != sep,
    ensures
        spec_split(a + seq![sep] + b, sep) == seq![a] + spec_split(b, sep),
{
    lemma_split_no_sep(a, seq![sep] + b, sep, Seq::empty());
    assert(a + seq![sep] + b =~= a + (seq![sep] + b));
    assert((seq![sep] + b).drop_first() =~= b);
    assert(Seq::<char>::empty() + a =~= a);
}

/// The entries `es` joined with `sep` between them (`<[_]>::join`).
pub open spec fn join_entries(es: Seq<Seq<char>>, sep: char) -> Seq<char>
    decreases es.len(),
{
    if es.len() == 0 {
        Seq::empty()
    } else if es.len() == 1 {
        es[0]
    } else {
        es[0] + seq![sep] + join_entries(es.drop_first(), sep)
    }
}

/// `s` holds no `sep`.
pub open spec fn free_of(s: Seq<char>, sep: char) -> bool {
    forall|k: int| 0 <= k < s.len() ==> s[k] != sep
}

/// Joining one more entry appends the separator and the entry.
pub proof fn lemma_join_take(es: Seq<Seq<char>>, sep: char, i: int)
    requires
        1 <= i < es.len(),
    ensures
        join_entries(es.take(i + 1), sep) == join_entries(es.take(i), sep) + seq![sep] + es[i],
    decreases i,
{
    if i == 1 {
        let t2 = es.take(2);
        assert(t2.drop_first() =~= seq![es[1]]);
        assert(join_entries(seq![es[1]], sep) == es[1]);
        assert(t2.len() == 2 && t2[0] == es[0]);
        assert(join_entries(t2, sep) == es[0] + seq![sep] + es[1]);
        assert(es.take(1) =~= seq![es[0]]);
        assert(join_entries(seq![es[0]], sep) == es[0]);
    } else {
        let t = es.drop_first();
        lemma_join_take(t, sep, i - 1);
        assert(es.take(i + 1).drop_first() =~= t.take(i));
        assert(es.take(i).drop_first() =~= t.take(i - 1));
        assert(t[i - 1] == es[i]);
        assert(es.take(i + 1)[0] == es[0]);
        assert(es.take(i)[0] == es[0]);
        assert(es[0] + seq![sep] + (join_entries(t.take(i - 1), sep) + seq![sep] + es[i])
            =~= es[0] + seq![sep] + join_entries(t.take(i - 1), sep) + seq![sep] + es[i]);
    }
}

/// Splitting entries joined with a separator that none of them holds gives
/// the entries back.
pub proof fn lemma_split_join(es: Seq<Seq<char>>, sep: char)
    requires
        es.len() > 0,
        forall|i: int| 0 <= i < es.len() ==> free_of(#[trigger] es[i], sep),
    ensures
        spec_split(join_entries(es, sep), sep) == es,
    decreases es.len(),
{
    if es.len() == 1 {
        lemma_split_no_sep(es[0], Seq::empty(), sep, Seq::empty());
        assert(es[0] + Seq::<char>::empty() =~= es[0]);
        assert(Seq::<char>::empty() + es[0] =~= es[0]);
        assert(seq![es[0]] =~= es);
    } else {
        let t = es.drop_first();
        assert forall|i: int| 0 <= i < t.len() implies free_of(#[trigger] t[i], sep) by {
            assert(t[i] == es[i + 1]);
        }
        lemma_split_join(t, sep);
        assert(free_of(es[0], sep));
        lemma_split_prepend(es[0], join_entries(t, sep), sep);
        assert(seq![es[0]] + t =~= es);
    }
}

/// The pieces of a split hold no separator.
pub proof fn lemma_split_pieces_free(s: Seq<char>, sep: char, cur: Seq<char>)
    requires
        free_of(cur, sep),
    ensures
        forall|i: int| 0 <= i < split_from(s, sep, cur).len() ==> free_of(#[trigger] split_from(s, sep, cur)[i], sep),
        split_from(s, sep, cur).len() > 0,
    decreases s.len(),
{
    if s.len() == 0 {
        assert forall|i: int| 0 <= i < split_from(s, sep, cur).len() implies free_of(
            #[trigger] split_from(s, sep, cur)[i],
            sep,
        ) by {
            assert(split_from(s, sep, cur)[i] == cur);
        }
    } else if s[0] == sep {
        lemma_split_pieces_free(s.drop_first(), sep, Seq::empty());
        let rest = split_from(s.drop_first(), sep, Seq::empty());
        assert forall|i: int| 0 <= i < split_from(s, sep, cur).len() implies free_of(
            #[trigger] split_from(s, sep, cur)[i],
            sep,
        ) by {
            if i == 0 {
                assert(split_from(s, sep, cur)[i] == cur);
            } else {
                assert(split_from(s, sep, cur)[i] == rest[i - 1]);
            }
        }
    } else {
        let c2 = cur.push(s[0]);
        assert forall|k: int| 0 <= k < c2.len() implies c2[k] != sep by {
            if k < cur.len() {
                assert(c2[k] == cur[k]);
            }
        }
        lemma_split_pieces_free(s.drop_first(), sep, c2);
        assert(split_from(s, sep, cur) == split_from(s.drop_first(), sep, c2));
    }
}

// ─── Executable functions ────────────────────────────────────────────────────

/// Appends one character to a `String` (std `String::push`).
#[verifier::external_body]
pub(crate) fn push_char(s: &mut String, c: char)
    ensures
        final(s)@ == old(s)@.push(c),
{
    s.push(c);
}

/// Unicode lower-casing (std `str::to_lowercase`): the contract names the
/// result and says nothing more of it.
#[verifier::external_body]
pub(crate) fn to_lowercase(s: &str) -> (r: String)
    ensures
        r@ == lowercase(s@),
{
    s.to_lowercase()
}

/// The characters of `s`, in order.
pub fn chars_of(s: &str) -> (res: Vec<char>)
    ensures
        res@ == s@,
{
    let mut res: Vec<char> = Vec::new();
    for c in it: s.chars()
        invariant
            res@ == it.seq().take(it.index() as int),
    {
        res.push(c);
    }
    res
}

/// A `String` holding the characters of `s`.
pub fn string_of(s: &[char]) -> (res: String)
    ensures
        res@ == s@,
{
    let mut res = String::new();
    let mut i: usize = 0;
    while i < s.len()
        invariant
            i <= s.len(),
            res@ == s@.take(i as int),
        decreases s.len() - i,
    {
        push_char(&mut res, s[i]);
        assert(s@.take(i + 1) =~= s@.take(i as int).push(s@[i as int]));
        i += 1;
    }
    assert(s@.take(s@.len() as int) =~= s@);
    res
}

/// A copy of `s`.
pub fn copy_string(s: &String) -> (r: String)
    ensures
        r@ == s@,
{
    String::from_str(s.as_str())
}

/// `s[i..i + pat.len()] == pat`.
fn matches_at(s: &[char], pat: &[char], i: usize) -> (r: bool)
    requires
        pat.len() <= s.len(),
        i <= s.len() - pat.len(),
    ensures
        r == (s@.subrange(i as int, i + pat@.len()) == pat@),
{
    let mut j: usize = 0;
    while j < pat.len()
        invariant
            j <= pat.len(),
            pat.len() <= s.len(),
            i <= s.len() - pat.len(),
            forall|k: int| 0 <= k < j ==> s@[i + k] == pat@[k],
        decreases pat.len() - j,
    {
        if s[i + j] != pat[j] {
            assert(s@.subrange(i as int, i + pat@.len())[j as int] != pat@[j as int]);
            return false;
        }
        j += 1;
    }
    assert(s@.subrange(i as int, i + pat@.len()) =~= pat@);
    true
}

/// The first occurrence of `pat` in `s` (`str::find`).
pub fn find(s: &[char], pat: &[char]) -> (r: Option<usize>)
    ensures
        match r {
            Some(i) => spec_find(s@, pat@) == Some(i as int) && i + pat@.len() <= s@.len(),
            None => spec_find(s@, pat@) is None,
        },
{
    proof {
        lemma_find_bounds(s@, pat@, 0);
    }
    if pat.len() > s.len() {
        return None;
    }
    let last = s.len() - pat.len();
    let mut i: usize = 0;
    loop
        invariant
            pat.len() <= s.len(),
            last == s.len() - pat.len(),
            i <= last,
            spec_find(s@, pat@) == find_from(s@, pat@, i as int),
        decreases last - i,
    {
        if matches_at(s, pat, i) {
            return Some(i);
        }
        if i == last {
            assert(find_from(s@, pat@, i + 1) is None);
            return None;
        }
        i += 1;
    }
}

/// `a` and `b` hold the same characters.
pub fn eq_chars(a: &[char], b: &[char]) -> (r: bool)
    ensures
        r == (a@ == b@),
{
    if a.len() != b.len() {
        return false;
    }
    let r = matches_at(a, b, 0);
    assert(a@.subrange(0, b@.len() as int) =~= a@);
    r
}

/// `s` holds `pat` (`str::contains`).
pub fn contains(s: &[char], pat: &[char]) -> (r: bool)
    ensures
        r == spec_contains(s@, pat@),
{
    find(s, pat).is_some()
}

/// `s` begins with `pre` (`str::starts_with`).
pub fn starts_with(s: &[char], pre: &[char]) -> (r: bool)
    ensures
        r == spec_starts_with(s@, pre@),
{
    if pre.len() > s.len() {
        return false;
    }
    let r = matches_at(s, pre, 0);
    assert(s@.subrange(0, pre@.len() as int) =~= s@.take(pre@.len() as int));
    r
}

/// `s` ends with `suf` (`str::ends_with`).
pub fn ends_with(s: &[char], suf: &[char]) -> (r: bool)
    ensures
        r == spec_ends_with(s@, suf@),
{
    if suf.len() > s.len() {
        return false;
    }
    let r = matches_at(s, suf, s.len() - suf.len());
    assert(s@.subrange(s@.len() - suf@.len(), s@.len() - suf@.len() + suf@.len())
        =~= s@.skip(s@.len() - suf@.len()));
    r
}

/// `c` is whitespace (`char::is_whitespace`).
pub fn is_whitespace(c: char) -> (r: bool)
    ensures
        r == is_ws(c),
{
    ('\u{9}' <= c && c <= '\u{d}') || c == ' ' || c == '\u{85}' || c == '\u{a0}'
        || c == '\u{1680}' || ('\u{2000}' <= c && c <= '\u{200a}') || c == '\u{2028}'
        || c == '\u{2029}' || c == '\u{202f}' || c == '\u{205f}' || c == '\u{3000}'
}

/// `s` without leading and trailing whitespace (`str::trim`).
pub fn trim(s: &[char]) -> (r: Vec<char>)
    ensures
        r@ == spec_trim(s@),
{
    let mut lo: usize = 0;
    assert(s@.skip(0) =~= s@);
    while lo < s.len() && is_whitespace(s[lo])
        invariant
            lo <= s.len(),
            trim_start(s@) == trim_start(s@.skip(lo as int)),
        decreases s.len() - lo,
    {
        assert(s@.skip(lo as int).drop_first() =~= s@.skip(lo + 1));
        lo += 1;
    }
    assert(trim_start(s@.skip(lo as int)) == s@.skip(lo as int));
    let mut hi: usize = s.len();
    while hi > lo && is_whitespace(s[hi - 1])
        invariant
            lo <= hi <= s.len(),
            trim_end(s@.skip(lo as int)) == trim_end(s@.subrange(lo as int, hi as int)),
        decreases hi,
    {
        assert(s@.subrange(lo as int, hi as int).drop_last() =~= s@.subrange(lo as int, hi - 1));
        hi -= 1;
    }
    assert(s@.skip(lo as int) =~= s@.subrange(lo as int, s@.len() as int));
    let mut r: Vec<char> = Vec::new();
    let mut k: usize = lo;
    while k < hi
        invariant
            lo <= k <= hi <= s.len(),
            r@ == s@.subrange(lo as int, k as int),
        decreases hi - k,
    {
        r.push(s[k]);
        assert(s@.subrange(lo as int, k + 1) =~= s@.subrange(lo as int, k as int).push(s@[k as int]));
        k += 1;
    }
    r
}

/// Removes the `"\r"` before a line break (executable `strip_cr`).
fn strip_cr_vec(line: Vec<char>) -> (r: Vec<char>)
    ensures
        r@ == strip_cr(line@),
{
    let mut line = line;
    if line.len() > 0 && line[line.len() - 1] == '\r' {
        line.pop();
    }
    line
}

/// The lines of `s` (`str::lines`).
pub fn split_lines(s: &[char]) -> (res: Vec<Vec<char>>)
    ensures
        views(res@) == spec_lines(s@),
{
    let mut res: Vec<Vec<char>> = Vec::new();
    let mut cur: Vec<char> = Vec::new();
    let mut i: usize = 0;
    assert(s@.skip(0) =~= s@);
    while i < s.len()
        invariant
            i <= s.len(),
            spec_lines(s@) == views(res@) + lines_from(s@.skip(i as int), cur@),
        decreases s.len() - i,
    {
        proof {
            lemma_lines_step(s@, i as int, cur@);
        }
        if s[i] == '\n' {
            let line = strip_cr_vec(cur);
            let ghost old_vec = res@;
            let ghost old_res = views(res@);
            res.push(line);
            assert(res@ == old_vec.push(line));
            assert(views(res@) =~= old_res.push(strip_cr(cur@)));
            assert(old_res + (seq![strip_cr(cur@)] + lines_from(s@.skip(i + 1), Seq::empty()))
                =~= old_res.push(strip_cr(cur@)) + lines_from(s@.skip(i + 1), Seq::empty()));
            cur = Vec::new();
        } else {
            cur.push(s[i]);
        }
        i += 1;
    }
    assert(s@.skip(i as int) =~= Seq::<char>::empty());
    if cur.len() > 0 {
        let ghost old_res = views(res@);
        res.push(cur);
        assert(views(res@) =~= old_res + seq![cur@]);
    } else {
        assert(views(res@) =~= views(res@) + Seq::<Seq<char>>::empty());
    }
    res
}

/// The pieces of `s` split at `sep` (`str::split`).
pub fn split(s: &[char], sep: char) -> (res: Vec<Vec<char>>)
    ensures
        views(res@) == spec_split(s@, sep),
{
    let mut res: Vec<Vec<char>> = Vec::new();
    let mut cur: Vec<char> = Vec::new();
    let mut i: usize = 0;
    assert(s@.skip(0) =~= s@);
    while i < s.len()
        invariant
            i <= s.len(),
            spec_split(s@, sep) == views(res@) + split_from(s@.skip(i as int), sep, cur@),
        decreases s.len() - i,
    {
        proof {
            lemma_split_step(s@, sep, i as int, cur@);
        }
        if s[i] == sep {
            let ghost old_res = views(res@);
            let ghost piece = cur@;
            res.push(cur);
            assert(views(res@) =~= old_res.push(piece));
            assert(old_res + (seq![piece] + split_from(s@.skip(i + 1), sep, Seq::empty()))
                =~= old_res.push(piece) + split_from(s@.skip(i + 1), sep, Seq::empty()));
            cur = Vec::new();
        } else {
            cur.push(s[i]);
        }
        i += 1;
    }
    assert(s@.skip(i as int) =~= Seq::<char>::empty());
    let ghost old_res = views(res@);
    res.push(cur);
    assert(views(res@) =~= old_res + seq![cur@]);
    res
}

/// The digit character of `d < 10`.
fn digit(d: usize) -> (c: char)
    requires
        d < 10,
    ensures
        c == digit_char(d as nat),
{
    if d == 0 { '0' }
    else if d == 1 { '1' }
    else if d == 2 { '2' }
    else if d == 3 { '3' }
    else if d == 4 { '4' }
    else if d == 5 { '5' }
    else if d == 6 { '6' }
    else if d == 7 { '7' }
    else if d == 8 { '8' }
    else { '9' }
}

/// Appends the decimal representation of `n` to `s` (`write!(s, "{}", n)`).
pub fn push_decimal(s: &mut String, n: usize)
    ensures
        final(s)@ == old(s)@ + decimal(n as nat),
    decreases n,
{
    if n < 10 {
        push_char(s, digit(n));
        assert(decimal(n as nat) =~= seq![digit_char(n as nat)]);
        assert(old(s)@.push(digit_char(n as nat)) =~= old(s)@ + seq![digit_char(n as nat)]);
    } else {
        push_decimal(s, n / 10);
        push_char(s, digit(n % 10));
        assert(old(s)@ + decimal((n / 10) as nat) + seq![digit_char((n % 10) as nat)]
            =~= old(s)@ + decimal(n as nat));
    }
}

/// Appends the characters of `t` to `s`.
pub fn push_chars(s: &mut String, t: &[char])
    ensures
        final(s)@ == old(s)@ + t@,
{
    let mut i: usize = 0;
    while i < t.len()
        invariant
            i <= t.len(),
            s@ == old(s)@ + t@.take(i as int),
        decreases t.len() - i,
    {
        push_char(s, t[i]);
        assert(t@.take(i + 1) =~= t@.take(i as int).push(t@[i as int]));
        i += 1;
    }
    assert(t@.take(t@.len() as int) =~= t@);
}

/// The lower-case letter of an upper-case ASCII letter.
fn char_add_32(c: char) -> (r: char)
    requires
        'A' <= c && c <= 'Z',
    ensures
        r == ascii_lower(c),
{
    let b: u8 = c as u8;
    let l: u8 = b + 32;
    l as char
}

/// ASCII lower-casing (`str::to_ascii_lowercase`).
pub fn to_ascii_lowercase(s: &[char]) -> (r: Vec<char>)
    ensures
        r@ == spec_ascii_lower(s@),
{
    let mut r: Vec<char> = Vec::new();
    let mut i: usize = 0;
    while i < s.len()
        invariant
            i <= s.len(),
            r@ == spec_ascii_lower(s@.take(i as int)),
        decreases s.len() - i,
    {
        let c = s[i];
        let l = if 'A' <= c && c <= 'Z' {
            char_add_32(c)
        } else {
            c
        };
        r.push(l);
        assert(spec_ascii_lower(s@.take(i + 1)) =~= spec_ascii_lower(s@.take(i as int)).push(ascii_lower(c)));
        i += 1;
    }
    assert(s@.take(s@.len() as int) =~= s@);
    r
}

/// The entries `es` joined with `sep` between them.
pub fn join_with(es: &Vec<Vec<char>>, sep: char) -> (r: String)
    ensures
        r@ == join_entries(views(es@), sep),
{
    let ghost v = views(es@);
    let mut r = String::new();
    if es.len() == 0 {
        return r;
    }
    push_chars(&mut r, es[0].as_slice());
    assert(v.take(1) =~= seq![v[0]]);
    assert(r@ =~= join_entries(v.take(1), sep));
    let mut i: usize = 1;
    while i < es.len()
        invariant
            1 <= i <= es.len(),
            v == views(es@),
            r@ == join_entries(v.take(i as int), sep),
        decreases es.len() - i,
    {
        proof {
            lemma_join_take(v, sep, i as int);
        }
        push_char(&mut r, sep);
        push_chars(&mut r, es[i].as_slice());
        assert(r@ =~= join_entries(v.take(i as int), sep) + seq![sep] + v[i as int]);
        i += 1;
    }
    assert(v.take(es.len() as int) =~= v);
    r
}

} // verus!
