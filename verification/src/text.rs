//! Character-level text primitives shared by the rewriting engines.
//!
//! Text is modelled as `Seq<char>` (the view of `str` / `String`); executable
//! code works on `Vec<char>` and converts at the public boundary.
use vstd::prelude::*;

verus! {

// ---------------------------------------------------------------------------
// Conversions
// ---------------------------------------------------------------------------

/// `String::push`: appends one character.
#[verifier::external_body]
pub fn push_char(s: &mut String, c: char)
    ensures
        final(s)@ == old(s)@.push(c),
{
    s.push(c);
}

/// The characters of a string slice, in order.
pub fn chars_of(s: &str) -> (v: Vec<char>)
    ensures
        v@ == s@,
{
    let mut v: Vec<char> = Vec::new();
    for c in it: s.chars()
        invariant
            v@ == it.seq().take(it.index() as int),
    {
        v.push(c);
    }
    v
}

/// Builds a `String` holding exactly the given characters.
pub fn string_of(v: &Vec<char>) -> (s: String)
    ensures
        s@ == v@,
{
    let mut s = String::new();
    let mut i: usize = 0;
    while i < v.len()
        invariant
            i <= v.len(),
            s@ == v@.take(i as int),
        decreases v.len() - i,
    {
        push_char(&mut s, v[i]);
        assert(v@.take(i + 1) =~= v@.take(i as int).push(v@[i as int]));
        i = i + 1;
    }
    assert(v@.take(v.len() as int) =~= v@);
    s
}

/// Appends all characters of `src` to `dst`.
pub fn extend_chars(dst: &mut Vec<char>, src: &Vec<char>)
    ensures
        final(dst)@ == old(dst)@ + src@,
{
    let mut i: usize = 0;
    while i < src.len()
        invariant
            i <= src.len(),
            dst@ == old(dst)@ + src@.take(i as int),
        decreases src.len() - i,
    {
        dst.push(src[i]);
        assert(src@.take(i + 1) =~= src@.take(i as int).push(src@[i as int]));
        i = i + 1;
    }
    assert(src@.take(src.len() as int) =~= src@);
}

/// Appends the characters of a string slice to `dst`.
pub fn extend_str(dst: &mut Vec<char>, src: &str)
    ensures
        final(dst)@ == old(dst)@ + src@,
{
    let v = chars_of(src);
    extend_chars(dst, &v);
}

/// The characters `s[lo..hi]` as a new vector.
pub fn slice_chars(s: &Vec<char>, lo: usize, hi: usize) -> (r: Vec<char>)
    requires
        lo <= hi <= s.len(),
    ensures
        r@ == s@.subrange(lo as int, hi as int),
{
    let mut r: Vec<char> = Vec::new();
    let mut i: usize = lo;
    while i < hi
        invariant
            lo <= i <= hi <= s.len(),
            r@ == s@.subrange(lo as int, i as int),
        decreases hi - i,
    {
        r.push(s[i]);
        assert(s@.subrange(lo as int, i + 1) =~= s@.subrange(lo as int, i as int).push(s@[i as int]));
        i = i + 1;
    }
    r
}

/// Sequence equality of two character vectors.
pub fn chars_eq(a: &Vec<char>, b: &Vec<char>) -> (r: bool)
    ensures
        r == (a@ == b@),
{
    if a.len() != b.len() {
        return false;
    }
    let mut i: usize = 0;
    while i < a.len()
        invariant
            a.len() == b.len(),
            i <= a.len(),
            forall|k: int| 0 <= k < i ==> a@[k] == b@[k],
        decreases a.len() - i,
    {
        if a[i] != b[i] {
            return false;
        }
        i = i + 1;
    }
    assert(a@ =~= b@);
    true
}

/// Whether `v` equals the characters of `s`.
pub fn eq_str(v: &Vec<char>, s: &str) -> (r: bool)
    ensures
        r == (v@ == s@),
{
    let w = chars_of(s);
    chars_eq(v, &w)
}

// ---------------------------------------------------------------------------
// Whitespace and trimming (Unicode `White_Space`, as `char::is_whitespace`)
// ---------------------------------------------------------------------------

/// `char::is_whitespace`: the Unicode `White_Space` property.
pub open spec fn is_ws(c: char) -> bool {
    let u = c as u32;
    ||| 0x09 <= u <= 0x0D
    ||| u == 0x20
    ||| u == 0x85
    ||| u == 0xA0
    ||| u == 0x1680
    ||| 0x2000 <= u <= 0x200A
    ||| u == 0x2028
    ||| u == 0x2029
    ||| u == 0x202F
    ||| u == 0x205F
    ||| u == 0x3000
}

/// ASCII whitespace as `u8::is_ascii_whitespace` (space, `\t`, `\n`, form feed, `\r`).
pub open spec fn is_ascii_ws(c: char) -> bool {
    c == ' ' || c == '\t' || c == '\n' || c == '\x0C' || c == '\r'
}

pub fn is_ws_char(c: char) -> (r: bool)
    ensures
        r == is_ws(c),
{
    let u = c as u32;
    (0x09 <= u && u <= 0x0D) || u == 0x20 || u == 0x85 || u == 0xA0 || u == 0x1680 || (0x2000 <= u
        && u <= 0x200A) || u == 0x2028 || u == 0x2029 || u == 0x202F || u == 0x205F || u == 0x3000
}

pub fn is_ascii_ws_char(c: char) -> (r: bool)
    ensures
        r == is_ascii_ws(c),
{
    c == ' ' || c == '\t' || c == '\n' || c == '\x0C' || c == '\r'
}

/// `str::trim_start`.
pub open spec fn trim_start(s: Seq<char>) -> Seq<char>
    decreases s.len(),
{
    if s.len() > 0 && is_ws(s[0]) {
        trim_start(s.drop_first())
    } else {
        s
    }
}

/// `str::trim_end`.
pub open spec fn trim_end(s: Seq<char>) -> Seq<char>
    decreases s.len(),
{
    if s.len() > 0 && is_ws(s.last()) {
        trim_end(s.drop_last())
    } else {
        s
    }
}

/// `str::trim`.
pub open spec fn trim(s: Seq<char>) -> Seq<char> {
    trim_end(trim_start(s))
}

/// `trim_start` removes a prefix.
pub proof fn lemma_trim_start_suffix(s: Seq<char>)
    ensures
        trim_start(s).len() <= s.len(),
        trim_start(s) =~= s.skip(s.len() - trim_start(s).len()),
        trim_start(s).len() > 0 ==> !is_ws(trim_start(s)[0]),
        forall|k: int| 0 <= k < s.len() - trim_start(s).len() ==> is_ws(#[trigger] s[k]),
    decreases s.len(),
{
    if s.len() > 0 && is_ws(s[0]) {
        lemma_trim_start_suffix(s.drop_first());
        assert forall|k: int| 0 <= k < s.len() - trim_start(s).len() implies is_ws(#[trigger] s[k]) by {
            if k > 0 {
                assert(s[k] == s.drop_first()[k - 1]);
            }
        }
    }
}

/// `trim_end` removes a suffix.
pub proof fn lemma_trim_end_prefix(s: Seq<char>)
    ensures
        trim_end(s).len() <= s.len(),
        trim_end(s) =~= s.take(trim_end(s).len() as int),
        trim_end(s).len() > 0 ==> !is_ws(trim_end(s).last()),
    decreases s.len(),
{
    if s.len() > 0 && is_ws(s.last()) {
        lemma_trim_end_prefix(s.drop_last());
    }
}

/// Number of leading whitespace characters of `s[lo..]`.
pub fn ws_prefix_end(s: &Vec<char>, lo: usize) -> (i: usize)
    requires
        lo <= s.len(),
    ensures
        lo <= i <= s.len(),
        trim_start(s@.skip(lo as int)) =~= s@.skip(i as int),
{
    let mut i = lo;
    while i < s.len() && is_ws_char(s[i])
        invariant
            lo <= i <= s.len(),
            trim_start(s@.skip(lo as int)) == trim_start(s@.skip(i as int)),
        decreases s.len() - i,
    {
        assert(s@.skip(i as int).drop_first() =~= s@.skip(i + 1));
        i = i + 1;
    }
    i
}

/// `str::trim_start` on a vector.
pub fn trim_start_chars(s: &Vec<char>) -> (r: Vec<char>)
    ensures
        r@ == trim_start(s@),
{
    let i = ws_prefix_end(s, 0);
    assert(s@.skip(0) =~= s@);
    slice_chars(s, i, s.len())
}

/// Index just past the last non-whitespace character of `s[..hi]`.
pub fn ws_suffix_start(s: &Vec<char>, hi: usize) -> (j: usize)
    requires
        hi <= s.len(),
    ensures
        j <= hi,
        trim_end(s@.take(hi as int)) =~= s@.take(j as int),
{
    let mut j = hi;
    while j > 0 && is_ws_char(s[j - 1])
        invariant
            j <= hi <= s.len(),
            trim_end(s@.take(hi as int)) == trim_end(s@.take(j as int)),
        decreases j,
    {
        assert(s@.take(j as int).drop_last() =~= s@.take(j - 1));
        j = j - 1;
    }
    j
}

/// `str::trim` on a vector.
pub fn trim_chars(s: &Vec<char>) -> (r: Vec<char>)
    ensures
        r@ == trim(s@),
{
    let t = trim_start_chars(s);
    let j = ws_suffix_start(&t, t.len());
    assert(t@.take(t.len() as int) =~= t@);
    slice_chars(&t, 0, j)
}

// ---------------------------------------------------------------------------
// Searching
// ---------------------------------------------------------------------------

/// `p` occurs in `s` at position `i`.
pub open spec fn matches_at(s: Seq<char>, p: Seq<char>, i: int) -> bool {
    0 <= i && i + p.len() <= s.len() && s.subrange(i, i + p.len()) == p
}

/// First position `>= from` where `p` occurs in `s` (`str::find` on `s[from..]`).
pub open spec fn find_from(s: Seq<char>, p: Seq<char>, from: int) -> Option<int>
    decreases s.len() + 1 - from,
{
    if from < 0 || from + p.len() > s.len() {
        None
    } else if matches_at(s, p, from) {
        Some(from)
    } else {
        find_from(s, p, from + 1)
    }
}

/// `str::find`.
pub open spec fn find(s: Seq<char>, p: Seq<char>) -> Option<int> {
    find_from(s, p, 0)
}

/// `str::contains`.
pub open spec fn contains(s: Seq<char>, p: Seq<char>) -> bool {
    find(s, p) is Some
}

/// `str::starts_with`.
pub open spec fn starts_with(s: Seq<char>, p: Seq<char>) -> bool {
    p.len() <= s.len() && s.take(p.len() as int) == p
}

/// `str::ends_with`.
pub open spec fn ends_with(s: Seq<char>, p: Seq<char>) -> bool {
    p.len() <= s.len() && s.skip(s.len() - p.len()) == p
}

/// What `find_from` returns is a match, and nothing before it (from `from`) matches.
pub proof fn lemma_find_from(s: Seq<char>, p: Seq<char>, from: int)
    requires
        0 <= from,
    ensures
        find_from(s, p, from) matches Some(i) ==> from <= i && matches_at(s, p, i) && forall|
            k: int,
        | from <= k < i ==> !matches_at(s, p, k),
        find_from(s, p, from) is None ==> forall|k: int| from <= k ==> !matches_at(s, p, k),
    decreases s.len() + 1 - from,
{
    if from + p.len() > s.len() {
    } else if matches_at(s, p, from) {
    } else {
        lemma_find_from(s, p, from + 1);
    }
}

/// A match anywhere means `contains`.
pub proof fn lemma_match_contains(s: Seq<char>, p: Seq<char>, i: int)
    requires
        matches_at(s, p, i),
    ensures
        contains(s, p),
{
    lemma_find_from(s, p, 0);
}

/// What occurs in the middle part occurs in the whole.
pub proof fn lemma_contains_mid(a: Seq<char>, b: Seq<char>, c: Seq<char>, p: Seq<char>)
    requires
        contains(b, p),
    ensures
        contains(a + b + c, p),
{
    lemma_find_from(b, p, 0);
    let k = find(b, p)->0;
    let s = a + b + c;
    assert(s.subrange(a.len() + k, a.len() + k + p.len()) =~= b.subrange(k, k + p.len()));
    lemma_match_contains(s, p, a.len() + k);
}

/// A literal occurs in a text at a known position.
pub proof fn lemma_contains_at(s: Seq<char>, p: Seq<char>, k: int)
    requires
        0 <= k,
        k + p.len() <= s.len(),
        s.subrange(k, k + p.len()) == p,
    ensures
        contains(s, p),
{
    lemma_match_contains(s, p, k);
}

/// Whether `p` occurs in `s` at position `i`.
pub fn matches_at_exec(s: &Vec<char>, p: &Vec<char>, i: usize) -> (r: bool)
    ensures
        r == matches_at(s@, p@, i as int),
{
    if i > s.len() || p.len() > s.len() - i {
        return false;
    }
    let mut k: usize = 0;
    while k < p.len()
        invariant
            i + p.len() <= s.len(),
            k <= p.len(),
            forall|j: int| 0 <= j < k ==> s@[i + j] == p@[j],
        decreases p.len() - k,
    {
        if s[i + k] != p[k] {
            assert(s@.subrange(i as int, i + p.len())[k as int] != p@[k as int]);
            return false;
        }
        k = k + 1;
    }
    assert(s@.subrange(i as int, i + p.len()) =~= p@);
    true
}

/// `s[from..].find(p)`, as an absolute index.
pub fn find_from_exec(s: &Vec<char>, p: &Vec<char>, from: usize) -> (r: Option<usize>)
    ensures
        r matches Some(i) ==> find_from(s@, p@, from as int) == Some(i as int),
        r is None ==> find_from(s@, p@, from as int) is None,
{
    let mut i = from;
    while i <= s.len() && p.len() <= s.len() - i
        invariant
            from <= i,
            find_from(s@, p@, from as int) == find_from(s@, p@, i as int),
        decreases s.len() + 1 - i,
    {
        if matches_at_exec(s, p, i) {
            return Some(i);
        }
        if i == s.len() {
            assert(p@.len() == 0 ==> s@.subrange(i as int, i as int) =~= p@);
            return None;
        }
        i = i + 1;
    }
    None
}

/// `s.contains(p)` where `p` is a literal.
pub fn contains_str(s: &Vec<char>, p: &str) -> (r: bool)
    ensures
        r == contains(s@, p@),
{
    let pv = chars_of(p);
    find_from_exec(s, &pv, 0).is_some()
}

/// `s.starts_with(p)`.
pub fn starts_with_str(s: &Vec<char>, p: &str) -> (r: bool)
    ensures
        r == starts_with(s@, p@),
{
    let pv = chars_of(p);
    let r = matches_at_exec(s, &pv, 0);
    assert(r == starts_with(s@, p@)) by {
        if pv.len() <= s.len() {
            assert(s@.subrange(0, pv@.len() as int) =~= s@.take(pv@.len() as int));
        }
    }
    r
}

/// `s.ends_with(p)`.
pub fn ends_with_str(s: &Vec<char>, p: &str) -> (r: bool)
    ensures
        r == ends_with(s@, p@),
{
    let pv = chars_of(p);
    if pv.len() > s.len() {
        return false;
    }
    let r = matches_at_exec(s, &pv, s.len() - pv.len());
    assert(r == ends_with(s@, p@)) by {
        assert(s@.subrange(s.len() - pv.len(), s.len() as int) =~= s@.skip(s.len() - pv.len()));
    }
    r
}

/// First index of character `c` in `s` (`str::find(char)`).
pub open spec fn index_of(s: Seq<char>, c: char) -> Option<int> {
    find(s, seq![c])
}

/// The part of `s` before the first `c` (`s.split(c).next()`).
pub open spec fn before_char(s: Seq<char>, c: char) -> Seq<char> {
    match index_of(s, c) {
        Some(i) => s.take(i),
        None => s,
    }
}

pub proof fn lemma_single_match(s: Seq<char>, c: char, k: int)
    requires
        0 <= k < s.len(),
    ensures
        matches_at(s, seq![c], k) == (s[k] == c),
{
    if s[k] == c {
        assert(s.subrange(k, k + 1) =~= seq![c]);
    } else {
        assert(s.subrange(k, k + 1)[0] == s[k]);
    }
}

/// First index of `c` in `s[from..]`.
pub fn index_of_from(s: &Vec<char>, c: char, from: usize) -> (r: Option<usize>)
    ensures
        r == (match find_from(s@, seq![c], from as int) {
            Some(i) => Some(i as usize),
            None => None::<usize>,
        }),
        r matches Some(i) ==> from <= i < s.len(),
{
    let mut i = from;
    while i < s.len()
        invariant
            from <= i,
            find_from(s@, seq![c], from as int) == find_from(s@, seq![c], i as int),
        decreases s.len() - i,
    {
        proof {
            lemma_single_match(s@, c, i as int);
        }
        if s[i] == c {
            return Some(i);
        }
        i = i + 1;
    }
    None
}

/// `s.split(c).next()`.
pub fn before_char_exec(s: &Vec<char>, c: char) -> (r: Vec<char>)
    ensures
        r@ == before_char(s@, c),
{
    proof {
        lemma_find_from(s@, seq![c], 0);
    }
    match index_of_from(s, c, 0) {
        Some(i) => {
            let r = slice_chars(s, 0, i);
            assert(r@ =~= s@.take(i as int));
            r
        },
        None => {
            let r = slice_chars(s, 0, s.len());
            assert(r@ =~= s@);
            r
        },
    }
}

// ---------------------------------------------------------------------------
// Case
// ---------------------------------------------------------------------------

/// `char::to_ascii_lowercase`.
pub open spec fn lower_char(c: char) -> char {
    if 'A' <= c && c <= 'Z' {
        ((c as u32) + 32) as char
    } else {
        c
    }
}

/// `str::to_ascii_lowercase`.
pub open spec fn lower(s: Seq<char>) -> Seq<char> {
    s.map_values(|c: char| lower_char(c))
}

pub fn lower_char_exec(c: char) -> (r: char)
    ensures
        r == lower_char(c),
{
    if 'A' <= c && c <= 'Z' {
        let b: u8 = (c as u8) + 32;
        b as char
    } else {
        c
    }
}

pub fn lower_chars(s: &Vec<char>) -> (r: Vec<char>)
    ensures
        r@ == lower(s@),
{
    let mut r: Vec<char> = Vec::new();
    let mut i: usize = 0;
    while i < s.len()
        invariant
            i <= s.len(),
            r@ == lower(s@.take(i as int)),
        decreases s.len() - i,
    {
        r.push(lower_char_exec(s[i]));
        assert(lower(s@.take(i + 1)) =~= lower(s@.take(i as int)).push(lower_char(s@[i as int])));
        i = i + 1;
    }
    assert(s@.take(s.len() as int) =~= s@);
    r
}

// ---------------------------------------------------------------------------
// Replacing and counting
// ---------------------------------------------------------------------------

/// `str::replace` with a non-empty pattern: left-to-right, non-overlapping.
pub open spec fn replace_all(s: Seq<char>, from: Seq<char>, to: Seq<char>) -> Seq<char>
    recommends
        from.len() > 0,
    decreases s.len(),
{
    if s.len() == 0 || from.len() == 0 {
        s
    } else if starts_with(s, from) {
        to + replace_all(s.skip(from.len() as int), from, to)
    } else {
        seq![s[0]] + replace_all(s.drop_first(), from, to)
    }
}

/// `str::matches(p).count()` with a non-empty pattern.
pub open spec fn count_matches(s: Seq<char>, p: Seq<char>) -> nat
    decreases s.len(),
{
    if s.len() == 0 || p.len() == 0 {
        0
    } else if starts_with(s, p) {
        1 + count_matches(s.skip(p.len() as int), p)
    } else {
        count_matches(s.drop_first(), p)
    }
}

pub proof fn lemma_count_le_len(s: Seq<char>, p: Seq<char>)
    ensures
        count_matches(s, p) <= s.len(),
    decreases s.len(),
{
    if s.len() == 0 || p.len() == 0 {
    } else if starts_with(s, p) {
        lemma_count_le_len(s.skip(p.len() as int), p);
    } else {
        lemma_count_le_len(s.drop_first(), p);
    }
}

/// `s.replace(from, to)` (non-empty `from`) together with `s.matches(from).count()`.
pub fn replace_count(s: &Vec<char>, from: &Vec<char>, to: &Vec<char>) -> (r: (Vec<char>, usize))
    requires
        from.len() > 0,
    ensures
        r.0@ == replace_all(s@, from@, to@),
        r.1 == count_matches(s@, from@),
{
    let mut out: Vec<char> = Vec::new();
    let mut n: usize = 0;
    let mut i: usize = 0;
    proof {
        lemma_count_le_len(s@, from@);
        assert(s@.skip(0) =~= s@);
    }
    while i < s.len()
        invariant
            from.len() > 0,
            i <= s.len(),
            out@ + replace_all(s@.skip(i as int), from@, to@) == replace_all(s@, from@, to@),
            n + count_matches(s@.skip(i as int), from@) == count_matches(s@, from@),
            count_matches(s@, from@) <= s.len(),
        decreases s.len() - i,
    {
        let ghost rest = s@.skip(i as int);
        if matches_at_exec(s, from, i) {
            assert(rest.take(from.len() as int) =~= s@.subrange(i as int, i + from.len()));
            assert(rest.skip(from.len() as int) =~= s@.skip(i + from.len()));
            let ghost before = out@;
            extend_chars(&mut out, to);
            assert(out@ + replace_all(s@.skip(i + from.len()), from@, to@) =~= before + (to@
                + replace_all(rest.skip(from.len() as int), from@, to@)));
            n = n + 1;
            i = i + from.len();
        } else {
            assert(starts_with(rest, from@) ==> rest.take(from.len() as int) =~= s@.subrange(
                i as int,
                i + from.len(),
            ));
            assert(rest.drop_first() =~= s@.skip(i + 1));
            let ghost before = out@;
            out.push(s[i]);
            assert(out@ + replace_all(s@.skip(i + 1), from@, to@) =~= before + (seq![rest[0]]
                + replace_all(rest.drop_first(), from@, to@)));
            i = i + 1;
        }
    }
    assert(s@.skip(i as int) =~= Seq::<char>::empty());
    (out, n)
}

// ---------------------------------------------------------------------------
// Lines
// ---------------------------------------------------------------------------

/// Removes one trailing `\r` (as `str::lines` does before a `\n`).
pub open spec fn strip_cr(l: Seq<char>) -> Seq<char> {
    if l.len() > 0 && l.last() == '\r' {
        l.drop_last()
    } else {
        l
    }
}

/// `str::lines`: split at `\n`, drop a `\r` before each `\n`, no empty last line.
pub open spec fn lines(s: Seq<char>) -> Seq<Seq<char>>
    decreases s.len(),
{
    if s.len() == 0 {
        Seq::empty()
    } else {
        match index_of(s, '\n') {
            Some(i) => if 0 <= i < s.len() {
                seq![strip_cr(s.take(i))] + lines(s.skip(i + 1))
            } else {
                seq![s]
            },
            None => seq![s],
        }
    }
}

/// Each line followed by `\n`.
pub open spec fn join_nl(ls: Seq<Seq<char>>) -> Seq<char>
    decreases ls.len(),
{
    if ls.len() == 0 {
        Seq::empty()
    } else {
        ls[0] + seq!['\n'] + join_nl(ls.drop_first())
    }
}

/// Drops the final `\n` of `out` when the source text did not end with one
/// (the `if !yaml.ends_with('\n') && out.ends_with('\n') { out.pop() }` step).
pub open spec fn match_final_nl(src: Seq<char>, out: Seq<char>) -> Seq<char> {
    if !(src.len() > 0 && src.last() == '\n') && out.len() > 0 && out.last() == '\n' {
        out.drop_last()
    } else {
        out
    }
}

pub proof fn lemma_join_nl_push(ls: Seq<Seq<char>>, l: Seq<char>)
    ensures
        join_nl(ls.push(l)) == join_nl(ls) + l + seq!['\n'],
    decreases ls.len(),
{
    if ls.len() == 0 {
        assert(ls.push(l).drop_first() =~= Seq::<Seq<char>>::empty());
        assert(ls.push(l)[0] == l);
        assert(join_nl(Seq::<Seq<char>>::empty()) == Seq::<char>::empty());
        assert(join_nl(ls.push(l)) =~= l + seq!['\n']);
    } else {
        assert(ls.push(l)[0] == ls[0]);
        assert(ls.push(l).drop_first() =~= ls.drop_first().push(l));
        lemma_join_nl_push(ls.drop_first(), l);
        assert(join_nl(ls.push(l)) =~= join_nl(ls) + l + seq!['\n']);
    }
}

/// The contents of a vector of lines.
pub open spec fn vviews(v: Seq<Vec<char>>) -> Seq<Seq<char>> {
    v.map_values(|l: Vec<char>| l@)
}

/// `s.lines()` collected into owned lines.
pub fn lines_of(s: &Vec<char>) -> (r: Vec<Vec<char>>)
    ensures
        vviews(r@) == lines(s@),
{
    let mut r: Vec<Vec<char>> = Vec::new();
    let mut i: usize = 0;
    assert(s@.skip(0) =~= s@);
    assert(vviews(r@) =~= Seq::<Seq<char>>::empty());
    while i < s.len()
        invariant
            i <= s.len(),
            vviews(r@) + lines(s@.skip(i as int)) == lines(s@),
        decreases s.len() - i,
    {
        let ghost rest = s@.skip(i as int);
        proof {
            lemma_find_from(s@, seq!['\n'], i as int);
        }
        match index_of_from(s, '\n', i) {
            Some(j) => {
                proof {
                    lemma_find_shift(s@, seq!['\n'], i as int);
                }
                let mut line = slice_chars(s, i, j);
                if line.len() > 0 && line[line.len() - 1] == '\r' {
                    line.pop();
                }
                assert(line@ == strip_cr(rest.take(j - i))) by {
                    assert(rest.take(j - i) =~= s@.subrange(i as int, j as int));
                }
                assert(rest.skip(j - i + 1) =~= s@.skip(j + 1));
                let ghost before = vviews(r@);
                r.push(line);
                assert(vviews(r@) =~= before.push(line@));
                assert(vviews(r@) + lines(s@.skip(j + 1)) =~= before + lines(rest));
                i = j + 1;
            },
            None => {
                proof {
                    lemma_find_shift(s@, seq!['\n'], i as int);
                }
                let line = slice_chars(s, i, s.len());
                assert(line@ =~= rest);
                let ghost before = vviews(r@);
                r.push(line);
                assert(vviews(r@) =~= before.push(line@));
                assert(s@.skip(s.len() as int) =~= Seq::<char>::empty());
                assert(vviews(r@) + lines(s@.skip(s.len() as int)) =~= before + lines(rest));
                i = s.len();
            },
        }
    }
    assert(s@.skip(i as int) =~= Seq::<char>::empty());
    assert(vviews(r@) =~= vviews(r@) + lines(s@.skip(i as int)));
    r
}

/// Searching in a suffix is searching in the whole from the suffix's start.
pub proof fn lemma_find_shift(s: Seq<char>, p: Seq<char>, i: int)
    requires
        0 <= i <= s.len(),
    ensures
        find(s.skip(i), p) == (match find_from(s, p, i) {
            Some(j) => Some(j - i),
            None => None::<int>,
        }),
{
    lemma_find_shift_from(s, p, i, 0);
}

proof fn lemma_find_shift_from(s: Seq<char>, p: Seq<char>, i: int, k: int)
    requires
        0 <= i <= s.len(),
        0 <= k,
    ensures
        find_from(s.skip(i), p, k) == (match find_from(s, p, i + k) {
            Some(j) => Some(j - i),
            None => None::<int>,
        }),
    decreases s.len() + 1 - i - k,
{
    let t = s.skip(i);
    if k + p.len() > t.len() {
    } else {
        assert(t.subrange(k, k + p.len()) =~= s.subrange(i + k, i + k + p.len()));
        if matches_at(t, p, k) {
        } else {
            lemma_find_shift_from(s, p, i, k + 1);
        }
    }
}

// ---------------------------------------------------------------------------
// YAML line anatomy
// ---------------------------------------------------------------------------

/// `line.trim_start().split(':').next().unwrap_or("").trim()`: the key of a YAML line.
pub open spec fn line_key(line: Seq<char>) -> Seq<char> {
    trim(before_char(trim_start(line), ':'))
}

/// UTF-8 length of one character.
pub open spec fn utf8_len(c: char) -> nat {
    let u = c as u32;
    if u < 0x80 {
        1
    } else if u < 0x800 {
        2
    } else if u < 0x10000 {
        3
    } else {
        4
    }
}

/// UTF-8 byte length of a character sequence.
pub open spec fn byte_len(s: Seq<char>) -> nat
    decreases s.len(),
{
    if s.len() == 0 {
        0
    } else {
        utf8_len(s[0]) + byte_len(s.drop_first())
    }
}

/// `line.len() - line.trim_start().len()`: indentation in bytes (capped at `usize::MAX`).
pub open spec fn indent_of(line: Seq<char>) -> int {
    let b = byte_len(line.take(line.len() - trim_start(line).len()));
    if b <= usize::MAX {
        b as int
    } else {
        usize::MAX as int
    }
}

pub proof fn lemma_byte_len_push(s: Seq<char>, c: char)
    ensures
        byte_len(s.push(c)) == byte_len(s) + utf8_len(c),
    decreases s.len(),
{
    if s.len() == 0 {
        assert(s.push(c).drop_first() =~= Seq::<char>::empty());
        assert(s.push(c)[0] == c);
        assert(byte_len(Seq::<char>::empty()) == 0);
    } else {
        assert(s.push(c).drop_first() =~= s.drop_first().push(c));
        assert(s.push(c)[0] == s[0]);
        lemma_byte_len_push(s.drop_first(), c);
    }
}

/// Indentation width of a line in bytes.
pub fn indent_width(line: &Vec<char>) -> (r: usize)
    ensures
        r as int == indent_of(line@),
{
    let e = ws_prefix_end(line, 0);
    proof {
        assert(line@.skip(0) =~= line@);
    }
    let mut b: usize = 0;
    let mut capped = false;
    let mut i: usize = 0;
    while i < e
        invariant
            e <= line.len(),
            i <= e,
            !capped ==> b == byte_len(line@.take(i as int)),
            capped ==> b == usize::MAX && byte_len(line@.take(i as int)) > usize::MAX,
        decreases e - i,
    {
        let u = line[i] as u32;
        let w: usize = if u < 0x80 {
            1
        } else if u < 0x800 {
            2
        } else if u < 0x10000 {
            3
        } else {
            4
        };
        proof {
            assert(line@.take(i + 1) =~= line@.take(i as int).push(line@[i as int]));
            lemma_byte_len_push(line@.take(i as int), line@[i as int]);
        }
        if !capped {
            if b <= usize::MAX - w {
                b = b + w;
            } else {
                b = usize::MAX;
                capped = true;
            }
        }
        i = i + 1;
    }
    b
}

/// The key of a YAML line.
pub fn line_key_exec(line: &Vec<char>) -> (r: Vec<char>)
    ensures
        r@ == line_key(line@),
{
    let t = trim_start_chars(line);
    let b = before_char_exec(&t, ':');
    trim_chars(&b)
}

/// `n` spaces.
pub open spec fn spaces(n: nat) -> Seq<char> {
    Seq::new(n, |i: int| ' ')
}

/// Appends `n` spaces (`" ".repeat(n)`).
pub fn push_spaces(out: &mut Vec<char>, n: usize)
    ensures
        final(out)@ == old(out)@ + spaces(n as nat),
{
    let mut i: usize = 0;
    while i < n
        invariant
            i <= n,
            out@ == old(out)@ + spaces(i as nat),
        decreases n - i,
    {
        out.push(' ');
        assert(spaces((i + 1) as nat) =~= spaces(i as nat).push(' '));
        i = i + 1;
    }
}

// ---------------------------------------------------------------------------
// Line-by-line rewriting
// ---------------------------------------------------------------------------

/// Output of a line-by-line rewrite: each line yields a chunk and the next state.
pub open spec fn fold_lines<S>(
    ls: Seq<Seq<char>>,
    st: S,
    step: spec_fn(Seq<char>, S) -> (Seq<char>, S),
) -> Seq<char>
    decreases ls.len(),
{
    if ls.len() == 0 {
        Seq::empty()
    } else {
        step(ls[0], st).0 + fold_lines(ls.drop_first(), step(ls[0], st).1, step)
    }
}

/// State after a line-by-line rewrite.
pub open spec fn fold_state<S>(
    ls: Seq<Seq<char>>,
    st: S,
    step: spec_fn(Seq<char>, S) -> (Seq<char>, S),
) -> S
    decreases ls.len(),
{
    if ls.len() == 0 {
        st
    } else {
        fold_state(ls.drop_first(), step(ls[0], st).1, step)
    }
}

/// One step of a fold over the lines from `i`.
pub proof fn lemma_fold_step<S>(
    ls: Seq<Seq<char>>,
    i: int,
    st: S,
    step: spec_fn(Seq<char>, S) -> (Seq<char>, S),
)
    requires
        0 <= i < ls.len(),
    ensures
        fold_lines(ls.skip(i), st, step) == step(ls[i], st).0 + fold_lines(
            ls.skip(i + 1),
            step(ls[i], st).1,
            step,
        ),
        fold_state(ls.skip(i), st, step) == fold_state(ls.skip(i + 1), step(ls[i], st).1, step),
{
    assert(ls.skip(i).drop_first() =~= ls.skip(i + 1));
    assert(ls.skip(i)[0] == ls[i]);
}

pub proof fn lemma_fold_end<S>(
    ls: Seq<Seq<char>>,
    st: S,
    step: spec_fn(Seq<char>, S) -> (Seq<char>, S),
)
    ensures
        fold_lines(ls.skip(ls.len() as int), st, step) == Seq::<char>::empty(),
        fold_state(ls.skip(ls.len() as int), st, step) == st,
{
    assert(ls.skip(ls.len() as int) =~= Seq::<Seq<char>>::empty());
}

/// Removes the last character (`String::pop` of the trailing `\n`).
pub fn fix_final_nl(src: &Vec<char>, out: &mut Vec<char>)
    ensures
        final(out)@ == match_final_nl(src@, old(out)@),
{
    let ends = src.len() > 0 && src[src.len() - 1] == '\n';
    if !ends && out.len() > 0 && out[out.len() - 1] == '\n' {
        out.pop();
    }
}

/// `n + extra` spaces, pushed without adding the counts.
pub proof fn lemma_spaces_add(a: nat, b: nat)
    ensures
        spaces(a) + spaces(b) == spaces(a + b),
{
    assert(spaces(a) + spaces(b) =~= spaces(a + b));
}

/// The decimal digit `d` (0..=9).
pub open spec fn digit(d: nat) -> char {
    ((d + 48) as u8) as char
}

/// The decimal form of `n` (`n.to_string()`).
pub open spec fn decimal(n: nat) -> Seq<char>
    decreases n,
{
    if n < 10 {
        seq![digit(n)]
    } else {
        decimal(n / 10).push(digit(n % 10))
    }
}

/// Appends the decimal form of `n`.
pub fn push_decimal(v: &mut Vec<char>, n: u64)
    ensures
        final(v)@ == old(v)@ + decimal(n as nat),
    decreases n,
{
    if n >= 10 {
        push_decimal(v, n / 10);
    }
    let d: u8 = (n % 10) as u8;
    let c: char = (d + 48) as char;
    v.push(c);
    proof {
        assert(c == digit((n % 10) as nat));
    }
}

/// The decimal form of `n` as a string.
pub fn decimal_string(n: u64) -> (r: String)
    ensures
        r@ == decimal(n as nat),
{
    let mut v: Vec<char> = Vec::new();
    push_decimal(&mut v, n);
    string_of(&v)
}

} // verus!
