//! Character-level string helpers with their mathematical meaning stated over `Seq<char>`.

use vstd::prelude::*;
use vstd::string::*;

verus! {

// ---------------------------------------------------------------------------
// Specifications
// ---------------------------------------------------------------------------

/// Unicode `White_Space` property, the set `char::is_whitespace` tests for.
pub open spec fn is_whitespace_char(c: char) -> bool {
    let n = c as u32;
    ||| 0x09 <= n <= 0x0d
    ||| n == 0x20
    ||| n == 0x85
    ||| n == 0xa0
    ||| n == 0x1680
    ||| 0x2000 <= n <= 0x200a
    ||| n == 0x2028
    ||| n == 0x2029
    ||| n == 0x202f
    ||| n == 0x205f
    ||| n == 0x3000
}

/// `s` without its leading whitespace.
pub open spec fn trim_start_spec(s: Seq<char>) -> Seq<char>
    decreases s.len(),
{
    if s.len() > 0 && is_whitespace_char(s[0]) {
        trim_start_spec(s.drop_first())
    } else {
        s
    }
}

/// `s` without its trailing whitespace.
pub open spec fn trim_end_spec(s: Seq<char>) -> Seq<char>
    decreases s.len(),
{
    if s.len() > 0 && is_whitespace_char(s.last()) {
        trim_end_spec(s.drop_last())
    } else {
        s
    }
}

/// `s` without leading and trailing whitespace (what `str::trim` returns).
pub open spec fn trim_spec(s: Seq<char>) -> Seq<char> {
    trim_end_spec(trim_start_spec(s))
}

/// Index of the first occurrence of `c` in `s`, or -1.
pub open spec fn first_index_of(s: Seq<char>, c: char) -> int
    decreases s.len(),
{
    if s.len() == 0 {
        -1
    } else if s[0] == c {
        0
    } else {
        let r = first_index_of(s.drop_first(), c);
        if r < 0 {
            -1
        } else {
            r + 1
        }
    }
}

/// `first_index_of` is -1 or an index of `s` that holds `c`, with no `c` before it.
pub proof fn lemma_first_index_of_bounds(s: Seq<char>, c: char)
    ensures
        -1 <= first_index_of(s, c) < s.len(),
        first_index_of(s, c) >= 0 ==> s[first_index_of(s, c)] == c,
        forall|k: int|
            0 <= k < s.len() && (first_index_of(s, c) < 0 || k < first_index_of(s, c)) ==> s[k]
                != c,
    decreases s.len(),
{
    if s.len() > 0 && s[0] != c {
        lemma_first_index_of_bounds(s.drop_first(), c);
        assert forall|k: int|
            0 <= k < s.len() && (first_index_of(s, c) < 0 || k < first_index_of(s, c)) implies s[k]
            != c by {
            if k > 0 {
                assert(s[k] == s.drop_first()[k - 1]);
            }
        }
    }
}

/// Index of the last occurrence of `c` in `s`, or -1.
pub open spec fn last_index_of(s: Seq<char>, c: char) -> int
    decreases s.len(),
{
    if s.len() == 0 {
        -1
    } else if s.last() == c {
        s.len() - 1
    } else {
        last_index_of(s.drop_last(), c)
    }
}

/// `last_index_of` is -1 or an index of `s` that holds `c`, with no `c` after it.
pub proof fn lemma_last_index_of_bounds(s: Seq<char>, c: char)
    ensures
        -1 <= last_index_of(s, c) < s.len(),
        last_index_of(s, c) >= 0 ==> s[last_index_of(s, c)] == c,
        forall|k: int| last_index_of(s, c) < k < s.len() ==> s[k] != c,
    decreases s.len(),
{
    if s.len() > 0 && s.last() != c {
        lemma_last_index_of_bounds(s.drop_last(), c);
        assert forall|k: int| last_index_of(s, c) < k < s.len() implies s[k] != c by {
            if k < s.len() - 1 {
                assert(s[k] == s.drop_last()[k]);
            }
        }
    }
}

/// The last `c` of `a`, `c`, `b` is the one after `a` when `b` holds no `c`.
pub proof fn lemma_last_index_of_after(a: Seq<char>, c: char, b: Seq<char>)
    requires
        forall|k: int| 0 <= k < b.len() ==> b[k] != c,
    ensures
        last_index_of(a.push(c) + b, c) == a.len(),
    decreases b.len(),
{
    let s = a.push(c) + b;
    if b.len() == 0 {
        assert(s =~= a.push(c));
    } else {
        assert(s.last() == b.last());
        assert(s.drop_last() =~= a.push(c) + b.drop_last());
        lemma_last_index_of_after(a, c, b.drop_last());
    }
}

/// Joining `x` in front of non-empty `rest` puts `x` and a separator before the rest's join.
pub proof fn lemma_join_prepend(x: Seq<char>, rest: Seq<Seq<char>>, sep: Seq<char>)
    ensures
        join_spec(seq![x] + rest, sep) == if rest.len() == 0 {
            x
        } else {
            x + sep + join_spec(rest, sep)
        },
    decreases rest.len(),
{
    let parts = seq![x] + rest;
    if rest.len() == 0 {
        assert(parts =~= seq![x]);
        assert(join_spec(parts, sep) == parts[0]);
    } else if rest.len() == 1 {
        assert(parts.drop_last() =~= seq![x]);
        assert(parts.last() == rest[0]);
        assert(join_spec(seq![x], sep) == x);
        assert(join_spec(rest, sep) == rest[0]);
        assert(join_spec(parts, sep) == join_spec(parts.drop_last(), sep) + sep + parts.last());
    } else {
        lemma_join_prepend(x, rest.drop_last(), sep);
        assert(parts.drop_last() =~= seq![x] + rest.drop_last());
        assert(parts.last() == rest.last());
        assert(x + sep + join_spec(rest, sep) =~= x + sep + join_spec(rest.drop_last(), sep) + sep
            + rest.last());
    }
}

/// A text without `\r`, split into lines and joined again with `\n`, is itself without a
/// final newline.
pub proof fn lemma_join_lines(d: Seq<char>)
    requires
        forall|k: int| 0 <= k < d.len() ==> d[k] != '\r',
    ensures
        join_spec(lines_spec(d), "\n"@) == if d.len() > 0 && d.last() == '\n' {
            d.drop_last()
        } else {
            d
        },
        lines_spec(d).len() == 0 <==> d.len() == 0,
    decreases d.len(),
{
    reveal_strlit("\n");
    if d.len() > 0 {
        let i = first_index_of(d, '\n');
        lemma_first_index_of_bounds(d, '\n');
        if i < 0 {
            assert(lines_spec(d) == seq![d]);
        } else {
            let r = d.skip(i + 1);
            assert forall|k: int| 0 <= k < r.len() implies r[k] != '\r' by {
                assert(r[k] == d[k + i + 1]);
            }
            lemma_join_lines(r);
            assert(strip_cr(d.take(i)) == d.take(i)) by {
                if i > 0 {
                    assert(d.take(i).last() == d[i - 1]);
                }
            }
            lemma_join_prepend(d.take(i), lines_spec(r), "\n"@);
            if r.len() == 0 {
                assert(d.take(i) =~= d.drop_last());
            } else if r.last() == '\n' {
                assert(d.last() == r.last());
                assert(d.take(i) + "\n"@ + r.drop_last() =~= d.drop_last());
            } else {
                assert(d.last() == r.last());
                assert(d.take(i) + "\n"@ + r =~= d);
            }
        }
    }
}

/// Trimming ignores one more whitespace character at the end.
pub proof fn lemma_trim_drop_last_ws(s: Seq<char>)
    requires
        s.len() > 0,
        is_whitespace_char(s.last()),
    ensures
        trim_spec(s) == trim_spec(s.drop_last()),
    decreases s.len(),
{
    if is_whitespace_char(s[0]) {
        if s.len() == 1 {
            assert(s.drop_first() =~= Seq::<char>::empty());
            assert(s.drop_last() =~= Seq::<char>::empty());
        } else {
            lemma_trim_drop_last_ws(s.drop_first());
            assert(s.drop_first().drop_last() =~= s.drop_last().drop_first());
        }
    } else {
        lemma_trim_start_nonws(s);
        lemma_trim_start_nonws(s.drop_last());
        assert(trim_end_spec(s) == trim_end_spec(s.drop_last()));
    }
}

proof fn lemma_trim_start_nonws(s: Seq<char>)
    requires
        s.len() > 0,
        !is_whitespace_char(s[0]),
    ensures
        trim_start_spec(s) == s,
{
}

/// Trimming ignores a leading whitespace character.
pub proof fn lemma_trim_skip_first_ws(s: Seq<char>)
    requires
        s.len() > 0,
        is_whitespace_char(s[0]),
    ensures
        trim_spec(s) == trim_spec(s.drop_first()),
{
}

/// A line as `str::lines` yields it: a `\r` right before the `\n` is dropped.
pub open spec fn strip_cr(line: Seq<char>) -> Seq<char> {
    if line.len() > 0 && line.last() == '\r' {
        line.drop_last()
    } else {
        line
    }
}

/// The lines of `s` as `str::lines` yields them: split at `\n`, a `\r\n` ending counts as one
/// line ending, and a final line ending does not start an empty line.
pub open spec fn lines_spec(s: Seq<char>) -> Seq<Seq<char>>
    decreases s.len(),
{
    if s.len() == 0 {
        Seq::empty()
    } else {
        let i = first_index_of(s, '\n');
        if i < 0 {
            seq![s]
        } else {
            proof {
                lemma_first_index_of_bounds(s, '\n');
            }
            seq![strip_cr(s.take(i))] + lines_spec(s.skip(i + 1))
        }
    }
}

/// The pieces of `parts` with `sep` between each two neighbours.
pub open spec fn join_spec(parts: Seq<Seq<char>>, sep: Seq<char>) -> Seq<char>
    decreases parts.len(),
{
    if parts.len() == 0 {
        Seq::empty()
    } else if parts.len() == 1 {
        parts[0]
    } else {
        join_spec(parts.drop_last(), sep) + sep + parts.last()
    }
}

/// The decimal digit for `d` (0 to 9).
pub open spec fn digit_char(d: int) -> char {
    if d == 0 {
        '0'
    } else if d == 1 {
        '1'
    } else if d == 2 {
        '2'
    } else if d == 3 {
        '3'
    } else if d == 4 {
        '4'
    } else if d == 5 {
        '5'
    } else if d == 6 {
        '6'
    } else if d == 7 {
        '7'
    } else if d == 8 {
        '8'
    } else {
        '9'
    }
}

/// The decimal notation of `n`, without leading zeros.
pub open spec fn decimal(n: nat) -> Seq<char>
    decreases n,
{
    if n < 10 {
        seq![digit_char(n as int)]
    } else {
        decimal(n / 10).push(digit_char((n % 10) as int))
    }
}

/// `prefix` is a prefix of `s`.
pub open spec fn has_prefix(s: Seq<char>, prefix: Seq<char>) -> bool {
    prefix.len() <= s.len() && s.take(prefix.len() as int) == prefix
}

/// The views of a vector of strings.
pub open spec fn views(v: Seq<String>) -> Seq<Seq<char>> {
    v.map_values(|x: String| x@)
}

// ---------------------------------------------------------------------------
// Trusted std calls
// ---------------------------------------------------------------------------

/// Appends one character; `String::push` documents that it appends `c` to the end.
#[verifier::external_body]
pub(crate) fn push_char(s: &mut String, c: char)
    ensures
        final(s)@ == old(s)@.push(c),
{
    s.push(c);
}

// ---------------------------------------------------------------------------
// Verified helpers
// ---------------------------------------------------------------------------

/// The characters of a string slice, collected into a vector.
pub fn chars_of(s: &str) -> (v: Vec<char>)
    ensures
        v@ == s@,
{
    let mut v: Vec<char> = Vec::new();
    for c in it: s.chars()
        invariant
            v@ == it.seq().take(it.index()),
            it.seq() == s@,
    {
        v.push(c);
    }
    v
}

/// A fresh string holding `s`.
pub fn to_owned_string(s: &str) -> (r: String)
    ensures
        r@ == s@,
{
    String::from_str(s)
}

/// A string holding the characters of `v` from `from` up to `to`.
pub fn string_from_chars(v: &Vec<char>, from: usize, to: usize) -> (r: String)
    requires
        from <= to <= v@.len(),
    ensures
        r@ == v@.subrange(from as int, to as int),
{
    let mut r = String::new();
    let mut i = from;
    while i < to
        invariant
            from <= i <= to <= v@.len(),
            r@ == v@.subrange(from as int, i as int),
        decreases to - i,
    {
        push_char(&mut r, v[i]);
        assert(v@.subrange(from as int, i + 1) == v@.subrange(from as int, i as int).push(v@[i as int]));
        i = i + 1;
    }
    r
}

/// Whether `c` is whitespace (`char::is_whitespace`).
pub fn is_whitespace(c: char) -> (b: bool)
    ensures
        b == is_whitespace_char(c),
{
    let n = c as u32;
    (0x09 <= n && n <= 0x0d) || n == 0x20 || n == 0x85 || n == 0xa0 || n == 0x1680 || (0x2000 <= n
        && n <= 0x200a) || n == 0x2028 || n == 0x2029 || n == 0x202f || n == 0x205f || n == 0x3000
}

/// Whether two string slices hold the same characters.
pub fn str_eq(a: &str, b: &str) -> (r: bool)
    ensures
        r == (a@ == b@),
{
    let av = chars_of(a);
    let bv = chars_of(b);
    if av.len() != bv.len() {
        return false;
    }
    let mut i: usize = 0;
    while i < av.len()
        invariant
            av@ == a@,
            bv@ == b@,
            av@.len() == bv@.len(),
            i <= av@.len(),
            forall|k: int| 0 <= k < i ==> av@[k] == bv@[k],
        decreases av@.len() - i,
    {
        if av[i] != bv[i] {
            return false;
        }
        i = i + 1;
    }
    assert(av@ =~= bv@);
    true
}

/// Whether `s` starts with `prefix`.
pub fn starts_with(s: &str, prefix: &str) -> (r: bool)
    ensures
        r == has_prefix(s@, prefix@),
{
    let sv = chars_of(s);
    let pv = chars_of(prefix);
    if pv.len() > sv.len() {
        return false;
    }
    let mut i: usize = 0;
    while i < pv.len()
        invariant
            sv@ == s@,
            pv@ == prefix@,
            pv@.len() <= sv@.len(),
            i <= pv@.len(),
            forall|k: int| 0 <= k < i ==> sv@[k] == pv@[k],
        decreases pv@.len() - i,
    {
        if sv[i] != pv[i] {
            assert(sv@.take(pv@.len() as int)[i as int] != pv@[i as int]);
            return false;
        }
        i = i + 1;
    }
    assert(sv@.take(pv@.len() as int) =~= pv@);
    true
}

proof fn lemma_trim_start_skip(s: Seq<char>, i: int)
    requires
        0 <= i < s.len(),
        is_whitespace_char(s[i]),
    ensures
        trim_start_spec(s.skip(i)) == trim_start_spec(s.skip(i + 1)),
{
    assert(s.skip(i).drop_first() =~= s.skip(i + 1));
}

proof fn lemma_trim_end_take(s: Seq<char>, j: int)
    requires
        0 < j <= s.len(),
        is_whitespace_char(s[j - 1]),
    ensures
        trim_end_spec(s.take(j)) == trim_end_spec(s.take(j - 1)),
{
    assert(s.take(j).drop_last() =~= s.take(j - 1));
}

/// `s` without leading and trailing whitespace (`str::trim`).
pub fn trim(s: &str) -> (r: &str)
    ensures
        r@ == trim_spec(s@),
{
    let v = chars_of(s);
    let mut a: usize = 0;
    assert(s@.skip(0) =~= s@);
    while a < v.len() && is_whitespace(v[a])
        invariant
            v@ == s@,
            a <= v@.len(),
            trim_start_spec(s@) == trim_start_spec(s@.skip(a as int)),
        decreases v@.len() - a,
    {
        proof {
            lemma_trim_start_skip(s@, a as int);
        }
        a = a + 1;
    }
    let ghost t = s@.skip(a as int);
    assert(trim_start_spec(t) == t);
    let mut b: usize = v.len();
    assert(t.take(t.len() as int) =~= t);
    while b > a && is_whitespace(v[b - 1])
        invariant
            v@ == s@,
            a <= b <= v@.len(),
            t == s@.skip(a as int),
            trim_end_spec(t) == trim_end_spec(t.take(b - a)),
        decreases b,
    {
        proof {
            lemma_trim_end_take(t, (b - a) as int);
        }
        b = b - 1;
    }
    assert(trim_end_spec(t.take(b - a)) == t.take(b - a));
    assert(t.take(b - a) =~= s@.subrange(a as int, b as int));
    s.substring_char(a, b)
}

/// Trimming the end keeps everything up to a character that is not whitespace.
pub proof fn lemma_trim_end_keeps_prefix(s: Seq<char>, k: int)
    requires
        0 <= k < s.len(),
        !is_whitespace_char(s[k]),
    ensures
        trim_end_spec(s).len() > k,
        trim_end_spec(s).take(k + 1) == s.take(k + 1),
    decreases s.len(),
{
    if s.len() > 0 && is_whitespace_char(s.last()) {
        assert(k < s.len() - 1);
        lemma_trim_end_keeps_prefix(s.drop_last(), k);
        assert(s.drop_last().take(k + 1) =~= s.take(k + 1));
    }
}

/// `s` without trailing whitespace (`str::trim_end`).
pub fn trim_end(s: &str) -> (r: &str)
    ensures
        r@ == trim_end_spec(s@),
{
    let v = chars_of(s);
    let mut b: usize = v.len();
    assert(s@.take(b as int) =~= s@);
    while b > 0 && is_whitespace(v[b - 1])
        invariant
            v@ == s@,
            b <= v@.len(),
            trim_end_spec(s@) == trim_end_spec(s@.take(b as int)),
        decreases b,
    {
        proof {
            lemma_trim_end_take(s@, b as int);
        }
        b = b - 1;
    }
    assert(trim_end_spec(s@.take(b as int)) == s@.take(b as int));
    assert(s@.take(b as int) =~= s@.subrange(0, b as int));
    s.substring_char(0, b)
}

/// Number of bytes of `c` in UTF-8.
pub open spec fn utf8_len(c: char) -> nat {
    let n = c as u32;
    if n < 0x80 {
        1
    } else if n < 0x800 {
        2
    } else if n < 0x10000 {
        3
    } else {
        4
    }
}

/// Byte offset in UTF-8 of the character at index `k` of `s`.
pub open spec fn byte_offset(s: Seq<char>, k: int) -> nat
    decreases k,
{
    if k <= 0 || s.len() == 0 {
        0
    } else {
        byte_offset(s, k - 1) + utf8_len(s[k - 1])
    }
}

/// Number of bytes of `c` in UTF-8 (`char::len_utf8`).
pub fn char_utf8_len(c: char) -> (n: usize)
    ensures
        n == utf8_len(c),
{
    let u = c as u32;
    if u < 0x80 {
        1
    } else if u < 0x800 {
        2
    } else if u < 0x10000 {
        3
    } else {
        4
    }
}


pub proof fn lemma_first_index_of_is(s: Seq<char>, c: char, k: int)
    requires
        0 <= k < s.len(),
        s[k] == c,
        forall|j: int| 0 <= j < k ==> s[j] != c,
    ensures
        first_index_of(s, c) == k,
{
    lemma_first_index_of_bounds(s, c);
}

pub proof fn lemma_first_index_of_none(s: Seq<char>, c: char)
    requires
        forall|j: int| 0 <= j < s.len() ==> s[j] != c,
    ensures
        first_index_of(s, c) == -1,
{
    lemma_first_index_of_bounds(s, c);
}

pub proof fn lemma_views_push(v: Seq<String>, x: String)
    ensures
        views(v.push(x)) == views(v).push(x@),
{
    assert(views(v.push(x)) =~= views(v).push(x@));
}

/// The views of a prefix grow by the view of the next element.
pub proof fn lemma_views_take(v: Seq<String>, i: int)
    requires
        0 <= i < v.len(),
    ensures
        views(v.take(i + 1)) == views(v.take(i)).push(v[i]@),
{
    assert(views(v.take(i + 1)) =~= views(v.take(i)).push(v[i]@));
}

/// The lines of `s`, as `str::lines` yields them.
pub fn lines(s: &str) -> (r: Vec<String>)
    ensures
        views(r@) == lines_spec(s@),
{
    let v = chars_of(s);
    let mut r: Vec<String> = Vec::new();
    let mut start: usize = 0;
    let mut i: usize = 0;
    assert(s@.skip(0) =~= s@);
    assert(views(r@) =~= Seq::<Seq<char>>::empty());
    while i < v.len()
        invariant
            v@ == s@,
            start <= i <= v@.len(),
            forall|k: int| start <= k < i ==> v@[k] != '\n',
            lines_spec(s@) == views(r@) + lines_spec(s@.skip(start as int)),
        decreases v@.len() - i,
    {
        if v[i] == '\n' {
            let ghost t = s@.skip(start as int);
            proof {
                lemma_first_index_of_is(t, '\n', (i - start) as int);
                assert(t.take((i - start) as int) =~= s@.subrange(start as int, i as int));
                assert(t.skip((i - start) + 1) =~= s@.skip(i + 1));
            }
            let end = if i > start && v[i - 1] == '\r' {
                i - 1
            } else {
                i
            };
            let line = string_from_chars(&v, start, end);
            proof {
                let seg = s@.subrange(start as int, i as int);
                assert(strip_cr(seg) =~= s@.subrange(start as int, end as int));
                lemma_views_push(r@, line);
                assert(lines_spec(t) == seq![strip_cr(seg)] + lines_spec(s@.skip(i + 1)));
                assert(views(r@.push(line)) + lines_spec(s@.skip(i + 1)) =~= views(r@) + (seq![
                    strip_cr(seg),
                ] + lines_spec(s@.skip(i + 1))));
            }
            r.push(line);
            start = i + 1;
        }
        i = i + 1;
    }
    if start < v.len() {
        let ghost t = s@.skip(start as int);
        proof {
            assert forall|j: int| 0 <= j < t.len() implies t[j] != '\n' by {
                assert(t[j] == v@[start + j]);
            }
            lemma_first_index_of_none(t, '\n');
            assert(t =~= s@.subrange(start as int, v@.len() as int));
        }
        let line = string_from_chars(&v, start, v.len());
        proof {
            lemma_views_push(r@, line);
            assert(views(r@.push(line)) =~= views(r@) + lines_spec(t));
        }
        r.push(line);
    } else {
        assert(s@.skip(start as int).len() == 0);
        assert(views(r@) + lines_spec(s@.skip(start as int)) =~= views(r@));
    }
    r
}

/// The pieces of `parts` with `sep` between each two neighbours (`[T]::join`).
pub fn join(parts: &Vec<String>, sep: &str) -> (r: String)
    ensures
        r@ == join_spec(views(parts@), sep@),
{
    let mut r = String::new();
    let mut i: usize = 0;
    while i < parts.len()
        invariant
            i <= parts@.len(),
            r@ == join_spec(views(parts@).take(i as int), sep@),
        decreases parts@.len() - i,
    {
        let ghost w = views(parts@).take(i + 1);
        assert(w.drop_last() =~= views(parts@).take(i as int));
        assert(w.last() == parts@[i as int]@);
        if i > 0 {
            r.append(sep);
        } else {
            assert(r@ =~= Seq::<char>::empty());
        }
        r.append(parts[i].as_str());
        i = i + 1;
    }
    assert(views(parts@).take(parts@.len() as int) =~= views(parts@));
    r
}

/// The decimal digit for `d`.
pub fn digit(d: usize) -> (c: char)
    requires
        d < 10,
    ensures
        c == digit_char(d as int),
{
    if d == 0 {
        '0'
    } else if d == 1 {
        '1'
    } else if d == 2 {
        '2'
    } else if d == 3 {
        '3'
    } else if d == 4 {
        '4'
    } else if d == 5 {
        '5'
    } else if d == 6 {
        '6'
    } else if d == 7 {
        '7'
    } else if d == 8 {
        '8'
    } else {
        '9'
    }
}

/// Appends the decimal notation of `n`.
pub fn push_decimal(s: &mut String, n: usize)
    ensures
        final(s)@ == old(s)@ + decimal(n as nat),
    decreases n,
{
    if n >= 10 {
        push_decimal(s, n / 10);
    }
    push_char(s, digit(n % 10));
    assert(old(s)@ + decimal(n as nat) =~= final(s)@) by {
        if n >= 10 {
            assert(decimal(n as nat) == decimal((n / 10) as nat).push(digit_char((n % 10) as int)));
        }
    }
}


// ---------------------------------------------------------------------------
// Ordering of strings
// ---------------------------------------------------------------------------

/// Lexicographic order on character sequences; for strings this is the order of `String`'s
/// `Ord` (UTF-8 byte order equals code point order).
pub open spec fn lex_lt(a: Seq<char>, b: Seq<char>) -> bool
    decreases a.len(),
{
    if a.len() == 0 {
        b.len() > 0
    } else if b.len() == 0 {
        false
    } else if a[0] < b[0] {
        true
    } else if a[0] > b[0] {
        false
    } else {
        lex_lt(a.drop_first(), b.drop_first())
    }
}

/// `s` is in strictly increasing lexicographic order (so it holds no element twice).
pub open spec fn strictly_sorted(s: Seq<Seq<char>>) -> bool {
    forall|i: int, j: int| 0 <= i < j < s.len() ==> lex_lt(#[trigger] s[i], #[trigger] s[j])
}

pub proof fn lemma_lex_irreflexive(a: Seq<char>)
    ensures
        !lex_lt(a, a),
    decreases a.len(),
{
    if a.len() > 0 {
        lemma_lex_irreflexive(a.drop_first());
    }
}

pub proof fn lemma_lex_transitive(a: Seq<char>, b: Seq<char>, c: Seq<char>)
    requires
        lex_lt(a, b),
        lex_lt(b, c),
    ensures
        lex_lt(a, c),
    decreases a.len(),
{
    if a.len() > 0 && b.len() > 0 && c.len() > 0 {
        if a[0] == b[0] && b[0] == c[0] {
            lemma_lex_transitive(a.drop_first(), b.drop_first(), c.drop_first());
        }
    }
}

pub proof fn lemma_lex_total(a: Seq<char>, b: Seq<char>)
    requires
        a != b,
    ensures
        lex_lt(a, b) || lex_lt(b, a),
    decreases a.len(),
{
    if a.len() > 0 && b.len() > 0 {
        if a[0] == b[0] {
            if a.drop_first() == b.drop_first() {
                assert(a =~= seq![a[0]] + a.drop_first());
                assert(b =~= seq![b[0]] + b.drop_first());
            }
            lemma_lex_total(a.drop_first(), b.drop_first());
        }
    } else if a.len() == 0 && b.len() == 0 {
        assert(a =~= b);
    }
}

pub proof fn lemma_lex_asymmetric(a: Seq<char>, b: Seq<char>)
    requires
        lex_lt(a, b),
    ensures
        !lex_lt(b, a),
{
    if lex_lt(b, a) {
        lemma_lex_transitive(a, b, a);
        lemma_lex_irreflexive(a);
    }
}

/// Two strictly sorted sequences with the same elements are equal.
pub proof fn lemma_sorted_unique(s: Seq<Seq<char>>, t: Seq<Seq<char>>)
    requires
        strictly_sorted(s),
        strictly_sorted(t),
        s.to_set() == t.to_set(),
    ensures
        s == t,
    decreases s.len(),
{
    if s.len() == 0 {
        if t.len() > 0 {
            assert(t.to_set().contains(t[0]));
        }
        assert(s =~= t);
    } else if t.len() == 0 {
        assert(s.to_set().contains(s[0]));
    } else {
        // Both heads are the least element.
        assert(s.to_set().contains(s[0]));
        assert(t.to_set().contains(t[0]));
        let k = choose|k: int| 0 <= k < t.len() && t[k] == s[0];
        let m = choose|m: int| 0 <= m < s.len() && s[m] == t[0];
        if k > 0 && m > 0 {
            assert(lex_lt(t[0], t[k]));
            assert(lex_lt(s[0], s[m]));
            lemma_lex_asymmetric(t[0], s[0]);
        } else if k > 0 {
            lemma_lex_irreflexive(s[0]);
            assert(lex_lt(t[0], t[k]));
        } else if m > 0 {
            lemma_lex_irreflexive(t[0]);
            assert(lex_lt(s[0], s[m]));
        }
        assert(s[0] == t[0]);
        let s1 = s.drop_first();
        let t1 = t.drop_first();
        assert forall|x: Seq<char>| s1.to_set().contains(x) implies t1.to_set().contains(x) by {
            let i = choose|i: int| 0 <= i < s1.len() && s1[i] == x;
            assert(s.to_set().contains(x));
            let j = choose|j: int| 0 <= j < t.len() && t[j] == x;
            assert(lex_lt(s[0], s[i + 1]));
            if j == 0 {
                lemma_lex_irreflexive(x);
            }
            assert(t1[j - 1] == x);
        }
        assert forall|x: Seq<char>| t1.to_set().contains(x) implies s1.to_set().contains(x) by {
            let i = choose|i: int| 0 <= i < t1.len() && t1[i] == x;
            assert(t.to_set().contains(x));
            let j = choose|j: int| 0 <= j < s.len() && s[j] == x;
            assert(lex_lt(t[0], t[i + 1]));
            if j == 0 {
                lemma_lex_irreflexive(x);
            }
            assert(s1[j - 1] == x);
        }
        assert(s1.to_set() =~= t1.to_set());
        lemma_sorted_unique(s1, t1);
        assert forall|i: int| 0 <= i < s.len() implies s[i] == t[i] by {
            if i > 0 {
                assert(s[i] == s1[i - 1]);
                assert(t[i] == t1[i - 1]);
            }
        }
        assert(s =~= t);
    }
}

/// The elements of the set `s` in strictly increasing order.
pub open spec fn sorted_elements(s: Set<Seq<char>>) -> Seq<Seq<char>> {
    choose|t: Seq<Seq<char>>| strictly_sorted(t) && t.to_set() == s
}

/// A strictly sorted sequence with the elements of `s` is `sorted_elements(s)`.
pub proof fn lemma_sorted_elements_is(s: Set<Seq<char>>, t: Seq<Seq<char>>)
    requires
        strictly_sorted(t),
        t.to_set() == s,
    ensures
        sorted_elements(s) == t,
{
    let u = sorted_elements(s);
    assert(strictly_sorted(u) && u.to_set() == s);
    lemma_sorted_unique(u, t);
}

/// A finite nonempty set of strings has a least element in lexicographic order.
proof fn lemma_least_element(s: Set<Seq<char>>) -> (m: Seq<char>)
    requires
        s.finite(),
        s.len() > 0,
    ensures
        s.contains(m),
        forall|x: Seq<char>| #[trigger] s.contains(x) && x != m ==> lex_lt(m, x),
    decreases s.len(),
{
    vstd::set::axiom_set_choose_len(s);
    let x = s.choose();
    let r = s.remove(x);
    vstd::set::axiom_set_remove_finite(s, x);
    vstd::set::axiom_set_remove_len(s, x);
    if r.len() == 0 {
        r.lemma_len0_is_empty();
        assert forall|y: Seq<char>| #[trigger] s.contains(y) && y != x implies lex_lt(x, y) by {
            assert(r.contains(y));
        }
        x
    } else {
        let m1 = lemma_least_element(r);
        lemma_lex_total(x, m1);
        if lex_lt(x, m1) {
            assert forall|y: Seq<char>| #[trigger] s.contains(y) && y != x implies lex_lt(x, y) by {
                assert(r.contains(y));
                if y != m1 {
                    lemma_lex_transitive(x, m1, y);
                }
            }
            x
        } else {
            assert forall|y: Seq<char>| #[trigger] s.contains(y) && y != m1 implies lex_lt(m1, y) by {
                if y != x {
                    assert(r.contains(y));
                }
            }
            m1
        }
    }
}

/// A finite set of strings has a strictly sorted listing.
proof fn lemma_sorted_listing(s: Set<Seq<char>>) -> (t: Seq<Seq<char>>)
    requires
        s.finite(),
    ensures
        strictly_sorted(t),
        t.to_set() == s,
    decreases s.len(),
{
    if s.len() == 0 {
        s.lemma_len0_is_empty();
        let t = Seq::<Seq<char>>::empty();
        assert(t.to_set() =~= s);
        t
    } else {
        let m = lemma_least_element(s);
        let r = s.remove(m);
        vstd::set::axiom_set_remove_finite(s, m);
        vstd::set::axiom_set_remove_len(s, m);
        let t1 = lemma_sorted_listing(r);
        let t = seq![m] + t1;
        assert forall|i: int, j: int| 0 <= i < j < t.len() implies lex_lt(
            #[trigger] t[i],
            #[trigger] t[j],
        ) by {
            assert(t[j] == t1[j - 1]);
            if i == 0 {
                assert(t1.to_set().contains(t1[j - 1]));
            } else {
                assert(t[i] == t1[i - 1]);
            }
        }
        assert forall|x: Seq<char>| t.to_set().contains(x) <==> s.contains(x) by {
            if t.to_set().contains(x) {
                let k = choose|k: int| 0 <= k < t.len() && t[k] == x;
                if k > 0 {
                    assert(t1[k - 1] == x);
                    assert(t1.to_set().contains(x));
                }
            }
            if s.contains(x) {
                if x == m {
                    assert(t[0] == x);
                } else {
                    assert(r.contains(x));
                    let k = choose|k: int| 0 <= k < t1.len() && t1[k] == x;
                    assert(t[k + 1] == x);
                }
            }
        }
        assert(t.to_set() =~= s);
        t
    }
}

/// Every finite set of strings has its sorted listing: `sorted_elements(s)` is strictly
/// sorted and holds exactly the elements of `s`.
pub proof fn lemma_sorted_elements(s: Set<Seq<char>>)
    requires
        s.finite(),
    ensures
        strictly_sorted(sorted_elements(s)),
        sorted_elements(s).to_set() == s,
{
    let t = lemma_sorted_listing(s);
    lemma_sorted_elements_is(s, t);
}

/// Whether `v` holds a string equal to `x`.
pub fn contains_str(v: &Vec<String>, x: &str) -> (r: bool)
    ensures
        r == views(v@).contains(x@),
{
    let mut i: usize = 0;
    while i < v.len()
        invariant
            i <= v@.len(),
            forall|k: int| 0 <= k < i ==> v@[k]@ != x@,
        decreases v@.len() - i,
    {
        if str_eq(v[i].as_str(), x) {
            assert(views(v@)[i as int] == x@);
            return true;
        }
        i = i + 1;
    }
    assert forall|k: int| 0 <= k < views(v@).len() implies views(v@)[k] != x@ by {
        assert(views(v@)[k] == v@[k]@);
    }
    false
}

/// The elements of `v`, each once, in strictly increasing order.
pub fn sorted_strings(v: &Vec<String>) -> (r: Vec<String>)
    ensures
        views(r@) == sorted_elements(views(v@).to_set()),
{
    let mut r: Vec<String> = Vec::new();
    let mut i: usize = 0;
    assert(views(r@).to_set() =~= views(v@.take(0)).to_set());
    while i < v.len()
        invariant
            i <= v@.len(),
            strictly_sorted(views(r@)),
            views(r@).to_set() == views(v@.take(i as int)).to_set(),
        decreases v@.len() - i,
    {
        let x = v[i].clone();
        insert_sorted(&mut r, x);
        proof {
            lemma_views_take(v@, i as int);
            views(v@.take(i as int)).lemma_push_to_set_commute(v@[i as int]@);
        }
        i = i + 1;
    }
    assert(v@.take(v@.len() as int) =~= v@);
    proof {
        lemma_sorted_elements_is(views(v@).to_set(), views(r@));
    }
    r
}

/// Whether `a` comes before `b` in lexicographic order.
pub fn str_less(a: &str, b: &str) -> (r: bool)
    ensures
        r == lex_lt(a@, b@),
{
    let av = chars_of(a);
    let bv = chars_of(b);
    let mut i: usize = 0;
    assert(a@.skip(0) =~= a@);
    assert(b@.skip(0) =~= b@);
    while i < av.len() && i < bv.len() && av[i] == bv[i]
        invariant
            av@ == a@,
            bv@ == b@,
            i <= av@.len(),
            i <= bv@.len(),
            lex_lt(a@, b@) == lex_lt(a@.skip(i as int), b@.skip(i as int)),
        decreases av@.len() - i,
    {
        assert(a@.skip(i as int).drop_first() =~= a@.skip(i + 1));
        assert(b@.skip(i as int).drop_first() =~= b@.skip(i + 1));
        i = i + 1;
    }
    if i == av.len() {
        return i < bv.len();
    }
    if i == bv.len() {
        return false;
    }
    av[i] < bv[i]
}

/// Inserts `x` into the strictly sorted `v`, unless it is already there.
pub fn insert_sorted(v: &mut Vec<String>, x: String)
    requires
        strictly_sorted(views(old(v)@)),
    ensures
        strictly_sorted(views(final(v)@)),
        views(final(v)@).to_set() == views(old(v)@).to_set().insert(x@),
{
    let mut i: usize = 0;
    while i < v.len() && str_less(v[i].as_str(), x.as_str())
        invariant
            i <= v@.len(),
            v@ == old(v)@,
            strictly_sorted(views(v@)),
            forall|k: int| 0 <= k < i ==> lex_lt(views(v@)[k], x@),
        decreases v@.len() - i,
    {
        i = i + 1;
    }
    if i < v.len() && str_eq(v[i].as_str(), x.as_str()) {
        assert(views(v@)[i as int] == x@);
        assert(views(v@).to_set().insert(x@) =~= views(v@).to_set());
        return ;
    }
    let ghost old_views = views(v@);
    proof {
        if i < v@.len() {
            lemma_lex_total(old_views[i as int], x@);
        }
    }
    v.insert(i, x);
    let ghost nv = views(v@);
    assert(nv =~= old_views.insert(i as int, x@));
    assert forall|a: int, b: int| 0 <= a < b < nv.len() implies lex_lt(
        #[trigger] nv[a],
        #[trigger] nv[b],
    ) by {
        if b < i {
            assert(lex_lt(old_views[a], old_views[b]));
        } else if b == i {
            assert(lex_lt(old_views[a], x@));
        } else if a < i {
            // a before x, b after x
            assert(lex_lt(old_views[a], old_views[b - 1]));
        } else if a == i {
            if b - 1 > i {
                assert(lex_lt(old_views[i as int], old_views[b - 1]));
                lemma_lex_transitive(x@, old_views[i as int], old_views[b - 1]);
            }
        } else {
            assert(lex_lt(old_views[a - 1], old_views[b - 1]));
        }
    }
    assert forall|y: Seq<char>| nv.to_set().contains(y) <==> old_views.to_set().insert(
        x@,
    ).contains(y) by {
        if nv.to_set().contains(y) {
            let k = choose|k: int| 0 <= k < nv.len() && nv[k] == y;
            if k < i {
                assert(old_views[k] == y);
            } else if k > i {
                assert(old_views[k - 1] == y);
            }
        }
        if old_views.to_set().contains(y) {
            let k = choose|k: int| 0 <= k < old_views.len() && old_views[k] == y;
            if k < i {
                assert(nv[k] == y);
            } else {
                assert(nv[k + 1] == y);
            }
        }
        if y == x@ {
            assert(nv[i as int] == y);
        }
    }
    assert(nv.to_set() =~= old_views.to_set().insert(x@));
}
} // verus!
