//! Character-level string helpers with exact specifications.
//!
//! Positions are counted in `char`s, which is how the specifications view a
//! string (`s@: Seq<char>`).

use vstd::prelude::*;
use vstd::std_specs::iter::IteratorSpec;
use vstd::string::*;

verus! {

/// Unicode `White_Space` property, the notion of whitespace used by `str::trim`
/// and friends.
pub open spec fn is_white_space(c: char) -> bool {
    let u = c as u32;
    ||| 0x09 <= u <= 0x0d
    ||| u == 0x20
    ||| u == 0x85
    ||| u == 0xa0
    ||| u == 0x1680
    ||| 0x2000 <= u <= 0x200a
    ||| u == 0x2028
    ||| u == 0x2029
    ||| u == 0x202f
    ||| u == 0x205f
    ||| u == 0x3000
}

/// Decides the `White_Space` property of one character.
pub fn white_space(c: char) -> (b: bool)
    ensures
        b == is_white_space(c),
{
    let u = c as u32;
    (0x09 <= u && u <= 0x0d) || u == 0x20 || u == 0x85 || u == 0xa0 || u == 0x1680 || (0x2000
        <= u && u <= 0x200a) || u == 0x2028 || u == 0x2029 || u == 0x202f || u == 0x205f || u
        == 0x3000
}

/// The characters of `s`, in order.
pub fn chars_of(s: &str) -> (v: Vec<char>)
    ensures
        v@ == s@,
{
    broadcast use vstd::string::group_string_axioms;

    let mut it = s.chars();
    let mut v: Vec<char> = Vec::new();
    loop
        invariant
            it.obeys_prophetic_iter_laws(),
            it.decrease() is Some,
            v@ + it.remaining() == s@,
        ensures
            v@ == s@,
        decreases it.decrease()->0,
    {
        match it.next() {
            Some(c) => {
                v.push(c);
            },
            None => {
                assert(v@ + it.remaining() =~= v@);
                break ;
            },
        }
    }
    v
}

/// `p` occurs in `s` starting at position `i`.
pub open spec fn occurs_at(s: Seq<char>, p: Seq<char>, i: int) -> bool {
    0 <= i && i + p.len() <= s.len() && s.subrange(i, i + p.len()) == p
}

/// `i` is the position of the last occurrence of `p` in `s`.
pub open spec fn is_last_occurrence(s: Seq<char>, p: Seq<char>, i: int) -> bool {
    occurs_at(s, p, i) && forall|j: int| i < j ==> !#[trigger] occurs_at(s, p, j)
}

/// `p` occurs in `s` at some position at or after `from`.
pub open spec fn occurs_from(s: Seq<char>, p: Seq<char>, from: int) -> bool {
    exists|j: int| from <= j && #[trigger] occurs_at(s, p, j)
}

/// `s` without its trailing whitespace.
pub open spec fn trim_end_ws(s: Seq<char>) -> Seq<char>
    decreases s.len(),
{
    if s.len() > 0 && is_white_space(s.last()) {
        trim_end_ws(s.drop_last())
    } else {
        s
    }
}

/// `s` without its leading whitespace.
pub open spec fn trim_start_ws(s: Seq<char>) -> Seq<char>
    decreases s.len(),
{
    if s.len() > 0 && is_white_space(s[0]) {
        trim_start_ws(s.drop_first())
    } else {
        s
    }
}

/// `s` without leading and trailing whitespace.
pub open spec fn trim_ws(s: Seq<char>) -> Seq<char> {
    trim_start_ws(trim_end_ws(s))
}

/// `s` without the trailing run of `c`.
pub open spec fn trim_end_char(s: Seq<char>, c: char) -> Seq<char>
    decreases s.len(),
{
    if s.len() > 0 && s.last() == c {
        trim_end_char(s.drop_last(), c)
    } else {
        s
    }
}

/// Trimming trailing whitespace keeps a prefix.
pub proof fn lemma_trim_end_ws_is_prefix(s: Seq<char>)
    ensures
        trim_end_ws(s).len() <= s.len(),
        trim_end_ws(s) == s.take(trim_end_ws(s).len() as int),
    decreases s.len(),
{
    if s.len() > 0 && is_white_space(s.last()) {
        lemma_trim_end_ws_is_prefix(s.drop_last());
        assert(s.drop_last().take(trim_end_ws(s).len() as int) =~= s.take(
            trim_end_ws(s).len() as int,
        ));
    } else {
        assert(s.take(s.len() as int) =~= s);
    }
}

/// Trimming a trailing run of `c` leaves nothing that ends in `c`.
pub proof fn lemma_trim_end_char_ends_otherwise(s: Seq<char>, c: char)
    ensures
        trim_end_char(s, c).len() == 0 || trim_end_char(s, c).last() != c,
    decreases s.len(),
{
    if s.len() > 0 && s.last() == c {
        lemma_trim_end_char_ends_otherwise(s.drop_last(), c);
    }
}

/// Whether `p` occurs in `v` at position `i`.
pub fn matches_at(v: &Vec<char>, p: &Vec<char>, i: usize) -> (b: bool)
    ensures
        b == occurs_at(v@, p@, i as int),
{
    if i > v.len() || p.len() > v.len() - i {
        return false;
    }
    let mut k: usize = 0;
    while k < p.len()
        invariant
            k <= p.len(),
            i + p.len() <= v.len(),
            forall|m: int| 0 <= m < k ==> v@[i + m] == p@[m],
        decreases p.len() - k,
    {
        if v[i + k] != p[k] {
            assert(v@.subrange(i as int, i + p.len())[k as int] != p@[k as int]);
            return false;
        }
        k = k + 1;
    }
    assert(v@.subrange(i as int, i + p.len()) =~= p@);
    true
}

/// Position of the last occurrence of the non-empty pattern `p` in `v`.
pub fn last_occurrence(v: &Vec<char>, p: &Vec<char>) -> (r: Option<usize>)
    requires
        p.len() > 0,
    ensures
        match r {
            Some(i) => is_last_occurrence(v@, p@, i as int),
            None => forall|j: int| !#[trigger] occurs_at(v@, p@, j),
        },
{
    if p.len() > v.len() {
        return None;
    }
    let mut i: usize = v.len() - p.len() + 1;
    while i > 0
        invariant
            p.len() <= v.len(),
            i <= v.len() - p.len() + 1,
            forall|j: int| i <= j ==> !#[trigger] occurs_at(v@, p@, j),
        decreases i,
    {
        i = i - 1;
        if matches_at(v, p, i) {
            return Some(i);
        }
    }
    None
}

/// Whether `p` occurs in `v` at or after position `from`.
pub fn occurs_from_exec(v: &Vec<char>, p: &Vec<char>, from: usize) -> (b: bool)
    ensures
        b == occurs_from(v@, p@, from as int),
{
    if from > v.len() {
        assert forall|k: int| from <= k implies !#[trigger] occurs_at(v@, p@, k) by {}
        return false;
    }
    let mut j: usize = from;
    while j < v.len()
        invariant
            from <= j <= v.len(),
            forall|k: int| from <= k < j ==> !#[trigger] occurs_at(v@, p@, k),
        decreases v.len() - j,
    {
        if matches_at(v, p, j) {
            return true;
        }
        j = j + 1;
    }
    if matches_at(v, p, j) {
        return true;
    }
    assert forall|k: int| from <= k implies !#[trigger] occurs_at(v@, p@, k) by {
        if k > j {
            assert(k > v.len());
        }
    }
    false
}

/// End of `v.take(end)` once its trailing whitespace is cut off.
pub fn trimmed_end(v: &Vec<char>, end: usize) -> (k: usize)
    requires
        end <= v.len(),
    ensures
        k <= end,
        v@.take(k as int) == trim_end_ws(v@.take(end as int)),
{
    let mut k = end;
    while k > 0 && white_space(v[k - 1])
        invariant
            k <= end <= v.len(),
            trim_end_ws(v@.take(k as int)) == trim_end_ws(v@.take(end as int)),
        decreases k,
    {
        assert(v@.take(k as int).drop_last() =~= v@.take(k - 1));
        k = k - 1;
    }
    k
}

/// Start of `v.subrange(start, end)` once its leading whitespace is cut off.
pub fn trimmed_start(v: &Vec<char>, start: usize, end: usize) -> (k: usize)
    requires
        start <= end <= v.len(),
    ensures
        start <= k <= end,
        v@.subrange(k as int, end as int) == trim_start_ws(v@.subrange(start as int, end as int)),
{
    let mut k = start;
    while k < end && white_space(v[k])
        invariant
            start <= k <= end <= v.len(),
            trim_start_ws(v@.subrange(k as int, end as int)) == trim_start_ws(
                v@.subrange(start as int, end as int),
            ),
        decreases end - k,
    {
        assert(v@.subrange(k as int, end as int).drop_first() =~= v@.subrange(k + 1, end as int));
        k = k + 1;
    }
    k
}

/// `s` without leading and trailing whitespace.
pub fn trim_str(s: &str) -> (r: &str)
    ensures
        r@ == trim_ws(s@),
{
    let v = chars_of(s);
    let e = trimmed_end(&v, v.len());
    assert(v@.take(v.len() as int) =~= v@);
    let b = trimmed_start(&v, 0, e);
    assert(v@.subrange(0, e as int) =~= v@.take(e as int));
    s.substring_char(b, e)
}

/// `s` without the trailing run of the character `c`.
pub fn trim_end_matches_char(s: &str, c: char) -> (r: &str)
    ensures
        r@ == trim_end_char(s@, c),
{
    let v = chars_of(s);
    let mut k = v.len();
    assert(v@.take(k as int) =~= v@);
    while k > 0 && v[k - 1] == c
        invariant
            k <= v.len(),
            trim_end_char(v@.take(k as int), c) == trim_end_char(v@, c),
        decreases k,
    {
        assert(v@.take(k as int).drop_last() =~= v@.take(k - 1));
        k = k - 1;
    }
    s.substring_char(0, k)
}

/// `s` with `prefix` removed from its front, if `s` starts with `prefix`.
pub fn strip_prefix_str<'a>(s: &'a str, prefix: &str) -> (r: Option<&'a str>)
    ensures
        match r {
            Some(rest) => prefix@.len() <= s@.len() && s@.take(prefix@.len() as int) == prefix@
                && rest@ == s@.skip(prefix@.len() as int),
            None => !(prefix@.len() <= s@.len() && s@.take(prefix@.len() as int) == prefix@),
        },
{
    let v = chars_of(s);
    let p = chars_of(prefix);
    if matches_at(&v, &p, 0) {
        assert(v@.subrange(0, p@.len() as int) =~= v@.take(p@.len() as int));
        Some(s.substring_char(p.len(), v.len()))
    } else {
        assert(v@.subrange(0, p@.len() as int) =~= v@.take(p@.len() as int));
        None
    }
}

/// Whether two strings hold the same characters.
pub fn str_eq(a: &str, b: &str) -> (r: bool)
    ensures
        r == (a@ == b@),
{
    let x = a.to_owned();
    let y = b.to_owned();
    x == y
}

} // verus!
