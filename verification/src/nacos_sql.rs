//! The `config_info` INSERT statements of a Nacos configuration SQL script:
//! locating them, parsing their column list and value tuples, and writing
//! them back.
//!
//! Positions are character indices into the script.  All delimiters the
//! scanner looks at are ASCII, so scanning characters finds the same places
//! as scanning UTF-8 bytes.
use vstd::prelude::*;
use vstd::string::StringExecFns;
use crate::text::{
    lemma_single_match, line_key, line_key_exec, string_of, matches_at, chars_of, eq_str, extend_chars, extend_str, find, replace_all, replace_count, is_ascii_ws, is_ascii_ws_char, find_from, find_from_exec, index_of, index_of_from, lemma_find_from, lemma_find_shift,
    lower, lower_chars, slice_chars, trim, trim_chars, vviews,
};

verus! {

/// Why a statement could not be parsed.
#[derive(Clone, Copy, Debug, PartialEq, Eq, Structural)]
pub enum SqlError {
    UnclosedTuple,
    ExpectedValue,
    NonAsciiValue,
    ExpectedNumber,
    ExpectedQuote,
    UnclosedString,
    NoConfigInfo,
    NoColumnList,
    UnclosedColumns,
    NoValues,
    MissingDataId,
    MissingContent,
    MissingMd5,
    NoInsert,
}

/// A value of a VALUES tuple; strings are kept as written (escapes not undone).
#[derive(Clone, Debug)]
pub enum SqlValue {
    Null,
    Number(Vec<char>),
    Str(Vec<char>),
}

/// The mathematical content of a `SqlValue`.
pub enum SqlValueModel {
    Null,
    Number(Seq<char>),
    Str(Seq<char>),
}

impl View for SqlValue {
    type V = SqlValueModel;

    open spec fn view(&self) -> SqlValueModel {
        match self {
            SqlValue::Null => SqlValueModel::Null,
            SqlValue::Number(n) => SqlValueModel::Number(n@),
            SqlValue::Str(s) => SqlValueModel::Str(s@),
        }
    }
}

pub open spec fn values_model(v: Seq<SqlValue>) -> Seq<SqlValueModel> {
    v.map_values(|x: SqlValue| x@)
}

pub open spec fn rows_model(v: Seq<Vec<SqlValue>>) -> Seq<Seq<SqlValueModel>> {
    v.map_values(|x: Vec<SqlValue>| values_model(x@))
}

// ---------------------------------------------------------------------------
// Statement boundaries
// ---------------------------------------------------------------------------

/// End (just past the `;`) of the statement scanned from `i`, skipping
/// single-quoted strings with backslash escapes.
pub open spec fn stmt_end(s: Seq<char>, i: int, in_str: bool) -> Option<int>
    decreases s.len() - i,
{
    if i < 0 || i >= s.len() {
        None
    } else if in_str {
        if s[i] == '\\' && i + 1 < s.len() {
            stmt_end(s, i + 2, true)
        } else if s[i] == '\'' {
            stmt_end(s, i + 1, false)
        } else {
            stmt_end(s, i + 1, true)
        }
    } else if s[i] == '\'' {
        stmt_end(s, i + 1, true)
    } else if s[i] == ';' {
        Some(i + 1)
    } else {
        stmt_end(s, i + 1, false)
    }
}

pub proof fn lemma_stmt_end_bounds(s: Seq<char>, i: int, in_str: bool)
    ensures
        stmt_end(s, i, in_str) matches Some(e) ==> i < e <= s.len(),
    decreases s.len() - i,
{
    if i < 0 || i >= s.len() {
    } else if in_str {
        if s[i] == '\\' && i + 1 < s.len() {
            lemma_stmt_end_bounds(s, i + 2, true);
        } else if s[i] == '\'' {
            lemma_stmt_end_bounds(s, i + 1, false);
        } else {
            lemma_stmt_end_bounds(s, i + 1, true);
        }
    } else if s[i] == '\'' {
        lemma_stmt_end_bounds(s, i + 1, true);
    } else if s[i] == ';' {
    } else {
        lemma_stmt_end_bounds(s, i + 1, false);
    }
}

/// Index just past the `;` that ends the statement starting at `start`.
fn scan_sql_stmt_end(sql: &Vec<char>, start: usize) -> (r: Option<usize>)
    ensures
        r matches Some(e) ==> stmt_end(sql@, start as int, false) == Some(e as int),
        r is None ==> stmt_end(sql@, start as int, false) is None,
{
    let mut i = start;
    let mut in_str = false;
    while i < sql.len()
        invariant
            stmt_end(sql@, start as int, false) == stmt_end(sql@, i as int, in_str),
        decreases sql.len() - i,
    {
        let c = sql[i];
        if in_str {
            if c == '\\' && i + 1 < sql.len() {
                i = i + 2;
                continue;
            }
            if c == '\'' {
                in_str = false;
            }
            i = i + 1;
            continue;
        }
        if c == '\'' {
            in_str = true;
            i = i + 1;
            continue;
        }
        if c == ';' {
            return Some(i + 1);
        }
        i = i + 1;
    }
    None
}

/// `insert into <table>` as characters.
pub open spec fn insert_needle(table: Seq<char>) -> Seq<char> {
    "insert into "@ + table
}

/// The span `[start, end)` of the first `insert into <table>` statement at or after `from`
/// (keyword matched case-insensitively).
pub open spec fn insert_span(sql: Seq<char>, table: Seq<char>, from: int) -> Option<(int, int)> {
    match find_from(lower(sql), insert_needle(table), from) {
        Some(start) => match stmt_end(sql, start, false) {
            Some(end) => Some((start, end)),
            None => None,
        },
        None => None,
    }
}

fn find_insert_span(sql: &Vec<char>, table: &str, from: usize) -> (r: Option<(usize, usize)>)
    ensures
        r matches Some((a, b)) ==> insert_span(sql@, table@, from as int) == Some(
            (a as int, b as int),
        ) && from <= a < b <= sql.len(),
        r is None ==> insert_span(sql@, table@, from as int) is None,
{
    let low = lower_chars(sql);
    let mut needle: Vec<char> = Vec::new();
    extend_str(&mut needle, "insert into ");
    extend_str(&mut needle, table);
    assert(needle@ =~= insert_needle(table@));
    proof {
        lemma_find_from(low@, needle@, from as int);
    }
    match find_from_exec(&low, &needle, from) {
        Some(start) => {
            proof {
                lemma_stmt_end_bounds(sql@, start as int, false);
            }
            match scan_sql_stmt_end(sql, start) {
                Some(end) => Some((start, end)),
                None => None,
            }
        },
        None => None,
    }
}

// ---------------------------------------------------------------------------
// Column list
// ---------------------------------------------------------------------------

/// Position of the `)` closing a list whose `(` was already consumed, at depth `depth`.
pub open spec fn close_paren(s: Seq<char>, i: int, depth: int, in_str: bool) -> Option<int>
    decreases s.len() - i,
{
    if i < 0 || i >= s.len() {
        None
    } else if in_str {
        if s[i] == '\\' && i + 1 < s.len() {
            close_paren(s, i + 2, depth, true)
        } else if s[i] == '\'' {
            close_paren(s, i + 1, depth, false)
        } else {
            close_paren(s, i + 1, depth, true)
        }
    } else if s[i] == '\'' {
        close_paren(s, i + 1, depth, true)
    } else if s[i] == '(' {
        close_paren(s, i + 1, depth + 1, false)
    } else if s[i] == ')' {
        if depth - 1 == 0 {
            Some(i)
        } else {
            close_paren(s, i + 1, depth - 1, false)
        }
    } else {
        close_paren(s, i + 1, depth, false)
    }
}

pub proof fn lemma_close_paren_bounds(s: Seq<char>, i: int, depth: int, in_str: bool)
    ensures
        close_paren(s, i, depth, in_str) matches Some(e) ==> i <= e < s.len(),
    decreases s.len() - i,
{
    if i < 0 || i >= s.len() {
    } else if in_str {
        if s[i] == '\\' && i + 1 < s.len() {
            lemma_close_paren_bounds(s, i + 2, depth, true);
        } else if s[i] == '\'' {
            lemma_close_paren_bounds(s, i + 1, depth, false);
        } else {
            lemma_close_paren_bounds(s, i + 1, depth, true);
        }
    } else if s[i] == '\'' {
        lemma_close_paren_bounds(s, i + 1, depth, true);
    } else if s[i] == '(' {
        lemma_close_paren_bounds(s, i + 1, depth + 1, false);
    } else if s[i] == ')' {
        if depth - 1 != 0 {
            lemma_close_paren_bounds(s, i + 1, depth - 1, false);
        }
    } else {
        lemma_close_paren_bounds(s, i + 1, depth, false);
    }
}

/// The text up to the `)` matching an already-open `(`, and how much was consumed.
fn split_top_parens(s: &Vec<char>, lo: usize) -> (r: Result<(Vec<char>, usize), SqlError>)
    requires
        lo <= s.len(),
    ensures
        match close_paren(s@, lo as int, 1, false) {
            Some(e) => r matches Ok((inner, consumed)) && inner@ == s@.subrange(lo as int, e)
                && consumed == e - lo + 1,
            None => r == Err::<(Vec<char>, usize), SqlError>(SqlError::UnclosedColumns),
        },
{
    let mut depth: u128 = 1;
    let mut i = lo;
    let mut in_str = false;
    proof {
        lemma_close_paren_bounds(s@, lo as int, 1, false);
    }
    while i < s.len()
        invariant
            lo <= i,
            1 <= depth <= i - lo + 1,
            close_paren(s@, lo as int, 1, false) == close_paren(s@, i as int, depth as int, in_str),
        decreases s.len() - i,
    {
        let c = s[i];
        if in_str {
            if c == '\\' && i + 1 < s.len() {
                i = i + 2;
                continue;
            }
            if c == '\'' {
                in_str = false;
            }
            i = i + 1;
            continue;
        }
        if c == '\'' {
            in_str = true;
        } else if c == '(' {
            depth = depth + 1;
        } else if c == ')' {
            depth = depth - 1;
            if depth == 0 {
                let inner = slice_chars(s, lo, i);
                return Ok((inner, i - lo + 1));
            }
        }
        i = i + 1;
    }
    Err(SqlError::UnclosedColumns)
}

/// `s.split(c)`: every piece, empty ones included.
pub open spec fn split_char(s: Seq<char>, c: char) -> Seq<Seq<char>>
    decreases s.len(),
{
    match index_of(s, c) {
        Some(i) => if 0 <= i < s.len() {
            seq![s.take(i)] + split_char(s.skip(i + 1), c)
        } else {
            seq![s]
        },
        None => seq![s],
    }
}

/// Column names: pieces split at `,`, trimmed, lowercased, empty ones dropped.
pub open spec fn column_names(pieces: Seq<Seq<char>>) -> Seq<Seq<char>>
    decreases pieces.len(),
{
    if pieces.len() == 0 {
        Seq::empty()
    } else {
        let name = lower(trim(pieces[0]));
        if name.len() == 0 {
            column_names(pieces.drop_first())
        } else {
            seq![name] + column_names(pieces.drop_first())
        }
    }
}

/// `cols_raw.split(',').map(|s| s.trim().to_ascii_lowercase()).filter(|s| !s.is_empty())`.
fn split_columns(raw: &Vec<char>) -> (r: Vec<Vec<char>>)
    ensures
        vviews(r@) == column_names(split_char(raw@, ',')),
{
    let mut r: Vec<Vec<char>> = Vec::new();
    let mut i: usize = 0;
    let mut done = false;
    assert(raw@.skip(0) =~= raw@);
    assert(vviews(r@) =~= Seq::<Seq<char>>::empty());
    while !done
        invariant
            i <= raw.len(),
            !done ==> vviews(r@) + column_names(split_char(raw@.skip(i as int), ',')) == column_names(
                split_char(raw@, ','),
            ),
            done ==> vviews(r@) == column_names(split_char(raw@, ',')),
        decreases raw.len() - i + (if done { 0int } else { 1int }),
    {
        let ghost rest = raw@.skip(i as int);
        proof {
            lemma_find_from(raw@, seq![','], i as int);
            lemma_find_shift(raw@, seq![','], i as int);
        }
        let (piece, next, last) = match index_of_from(raw, ',', i) {
            Some(j) => {
                let p = slice_chars(raw, i, j);
                assert(p@ =~= rest.take(j - i));
                assert(rest.skip(j - i + 1) =~= raw@.skip(j + 1));
                (p, j + 1, false)
            },
            None => {
                let p = slice_chars(raw, i, raw.len());
                assert(p@ =~= rest);
                (p, raw.len(), true)
            },
        };
        let t = trim_chars(&piece);
        let name = lower_chars(&t);
        let ghost before = vviews(r@);
        let ghost tail = if last {
            Seq::<Seq<char>>::empty()
        } else {
            split_char(raw@.skip(next as int), ',')
        };
        assert(split_char(rest, ',') =~= seq![piece@] + tail);
        assert((seq![piece@] + tail).drop_first() =~= tail);
        if name.len() > 0 {
            r.push(name);
            assert(vviews(r@) =~= before.push(name@));
            assert(before + column_names(seq![piece@] + tail) =~= vviews(r@) + column_names(tail));
        }
        i = next;
        if last {
            assert(column_names(tail) =~= Seq::<Seq<char>>::empty());
            assert(vviews(r@) =~= vviews(r@) + column_names(tail));
            done = true;
        }
    }
    r
}

// ---------------------------------------------------------------------------
// Values
// ---------------------------------------------------------------------------

/// Skipping whitespace and SQL comments from `i` in `mode`
/// (0: between tokens, 1: inside `-- ...`, 2: inside `/* ... */`).
pub open spec fn skip_ws_from(s: Seq<char>, i: int, mode: int) -> int
    decreases s.len() + 2 - i, mode,
{
    if i < 0 || i > s.len() || mode < 0 || mode > 2 {
        i
    } else if mode == 1 {
        if i < s.len() && s[i] != '\n' && s[i] != '\r' {
            skip_ws_from(s, i + 1, 1)
        } else {
            skip_ws_from(s, i, 0)
        }
    } else if mode == 2 {
        if i + 1 < s.len() {
            if s[i] == '*' && s[i + 1] == '/' {
                skip_ws_from(s, i + 2, 0)
            } else {
                skip_ws_from(s, i + 1, 2)
            }
        } else {
            skip_ws_from(s, s.len() as int, 0)
        }
    } else if i < s.len() && is_ascii_ws(s[i]) {
        skip_ws_from(s, i + 1, 0)
    } else if i + 1 < s.len() && s[i] == '-' && s[i + 1] == '-' {
        skip_ws_from(s, i + 2, 1)
    } else if i + 1 < s.len() && s[i] == '/' && s[i + 1] == '*' {
        skip_ws_from(s, i + 2, 2)
    } else {
        i
    }
}

/// Where the next token starts: after whitespace, `-- ...` line comments and `/* ... */`.
pub open spec fn skip_ws_spec(s: Seq<char>, i: int) -> int {
    skip_ws_from(s, i, 0)
}

pub proof fn lemma_skip_ws_bounds(s: Seq<char>, i: int, mode: int)
    requires
        0 <= i <= s.len(),
        0 <= mode <= 2,
    ensures
        i <= skip_ws_from(s, i, mode) <= s.len(),
    decreases s.len() + 2 - i, mode,
{
    if mode == 1 {
        if i < s.len() && s[i] != '\n' && s[i] != '\r' {
            lemma_skip_ws_bounds(s, i + 1, 1);
        } else {
            lemma_skip_ws_bounds(s, i, 0);
        }
    } else if mode == 2 {
        if i + 1 < s.len() {
            if s[i] == '*' && s[i + 1] == '/' {
                lemma_skip_ws_bounds(s, i + 2, 0);
            } else {
                lemma_skip_ws_bounds(s, i + 1, 2);
            }
        } else {
            lemma_skip_ws_bounds(s, s.len() as int, 0);
        }
    } else if i < s.len() && is_ascii_ws(s[i]) {
        lemma_skip_ws_bounds(s, i + 1, 0);
    } else if i + 1 < s.len() && s[i] == '-' && s[i + 1] == '-' {
        lemma_skip_ws_bounds(s, i + 2, 1);
    } else if i + 1 < s.len() && s[i] == '/' && s[i + 1] == '*' {
        lemma_skip_ws_bounds(s, i + 2, 2);
    }
}

/// Skips whitespace and SQL comments (`-- ...` to end of line, `/* ... */`).
fn skip_ws(s: &Vec<char>, i: usize) -> (r: usize)
    requires
        i <= s.len(),
    ensures
        r == skip_ws_spec(s@, i as int),
        i <= r <= s.len(),
{
    proof {
        lemma_skip_ws_bounds(s@, i as int, 0);
    }
    let mut k = i;
    let mut mode: u8 = 0;
    let ghost target = skip_ws_from(s@, k as int, 0);
    loop
        invariant
            k <= s.len(),
            mode <= 2,
            skip_ws_from(s@, k as int, mode as int) == target,
            target == skip_ws_spec(s@, i as int),
            i <= target <= s.len(),
        decreases s.len() + 2 - k, mode,
    {
        if mode == 1 {
            if k < s.len() && s[k] != '\n' && s[k] != '\r' {
                k = k + 1;
            } else {
                mode = 0;
            }
        } else if mode == 2 {
            if k < s.len() && s.len() - k > 1 {
                if s[k] == '*' && s[k + 1] == '/' {
                    k = k + 2;
                    mode = 0;
                } else {
                    k = k + 1;
                }
            } else {
                k = s.len();
                mode = 0;
            }
        } else if k < s.len() && is_ascii_ws_char(s[k]) {
            k = k + 1;
        } else if k < s.len() && s.len() - k > 1 && s[k] == '-' && s[k + 1] == '-' {
            k = k + 2;
            mode = 1;
        } else if k < s.len() && s.len() - k > 1 && s[k] == '/' && s[k + 1] == '*' {
            k = k + 2;
            mode = 2;
        } else {
            assert(skip_ws_from(s@, k as int, 0) == k as int);
            return k;
        }
    }
}

/// Position of the quote closing a string whose body starts at `i` (backslash escapes).
pub open spec fn str_close(s: Seq<char>, i: int) -> Option<int>
    decreases s.len() - i,
{
    if i < 0 || i >= s.len() {
        None
    } else if s[i] == '\\' && i + 1 < s.len() {
        str_close(s, i + 2)
    } else if s[i] == '\'' {
        Some(i)
    } else {
        str_close(s, i + 1)
    }
}

pub proof fn lemma_str_close_bounds(s: Seq<char>, i: int)
    ensures
        str_close(s, i) matches Some(e) ==> 0 <= i <= e < s.len() && s[e] == '\'',
    decreases s.len() - i,
{
    if i < 0 || i >= s.len() {
    } else if s[i] == '\\' && i + 1 < s.len() {
        lemma_str_close_bounds(s, i + 2);
    } else if s[i] == '\'' {
    } else {
        lemma_str_close_bounds(s, i + 1);
    }
}

/// The raw body of the quoted string at `start` and the index after its closing quote.
pub open spec fn sql_string_at(s: Seq<char>, start: int) -> Result<(Seq<char>, int), SqlError> {
    if !(0 <= start < s.len() && s[start] == '\'') {
        Err(SqlError::ExpectedQuote)
    } else {
        match str_close(s, start + 1) {
            Some(e) => Ok((s.subrange(start + 1, e), e + 1)),
            None => Err(SqlError::UnclosedString),
        }
    }
}

/// Parses a single-quoted SQL string, returning its body as written (escapes kept).
#[verifier::loop_isolation(false)]
fn parse_sql_string(s: &Vec<char>, start: usize) -> (r: Result<(Vec<char>, usize), SqlError>)
    ensures
        match sql_string_at(s@, start as int) {
            Ok((body, next)) => r matches Ok((b, n)) && b@ == body && n == next && start < n
                <= s.len(),
            Err(e) => r == Err::<(Vec<char>, usize), SqlError>(e),
        },
{
    if start >= s.len() || s[start] != '\'' {
        return Err(SqlError::ExpectedQuote);
    }
    proof {
        lemma_str_close_bounds(s@, start + 1);
    }
    let mut i = start + 1;
    while i < s.len()
        invariant
            start < i,
            str_close(s@, start + 1) == str_close(s@, i as int),
        decreases s.len() - i,
    {
        let b = s[i];
        if b == '\\' && i + 1 < s.len() {
            i = i + 2;
            continue;
        }
        if b == '\'' {
            assert(str_close(s@, i as int) == Some(i as int));
            let body = slice_chars(s, start + 1, i);
            assert(sql_string_at(s@, start as int) == Ok::<(Seq<char>, int), SqlError>(
                (body@, i + 1),
            ));
            return Ok((body, i + 1));
        }
        i = i + 1;
    }
    Err(SqlError::UnclosedString)
}

pub open spec fn is_ascii(c: char) -> bool {
    (c as u32) < 0x80
}

pub open spec fn is_ascii_alnum(c: char) -> bool {
    ('0' <= c && c <= '9') || ('a' <= c && c <= 'z') || ('A' <= c && c <= 'Z')
}

/// A case-insensitive `null` at `j` that is not the start of a longer word.
pub open spec fn null_at(s: Seq<char>, j: int) -> bool {
    &&& 0 <= j
    &&& j + 4 <= s.len()
    &&& lower(s.subrange(j, j + 4)) == "null"@
    &&& (j + 4 >= s.len() || !is_ascii_alnum(s[j + 4]))
}

/// End of an unquoted value (number) starting at `k`.
pub open spec fn number_end(s: Seq<char>, k: int) -> int
    decreases s.len() - k,
{
    if k < 0 || k >= s.len() {
        k
    } else if !is_ascii(s[k]) || s[k] == ',' || s[k] == ')' || is_ascii_ws(s[k]) {
        k
    } else {
        number_end(s, k + 1)
    }
}

pub proof fn lemma_number_end_bounds(s: Seq<char>, k: int)
    requires
        0 <= k <= s.len(),
    ensures
        k <= number_end(s, k) <= s.len(),
    decreases s.len() - k,
{
    if k < s.len() && !(!is_ascii(s[k]) || s[k] == ',' || s[k] == ')' || is_ascii_ws(s[k])) {
        lemma_number_end_bounds(s, k + 1);
    }
}

/// The SQL value after the whitespace at `i`, and the index after it.
pub open spec fn value_at(s: Seq<char>, i: int) -> Result<(SqlValueModel, int), SqlError> {
    let j = skip_ws_spec(s, i);
    if j >= s.len() {
        Err(SqlError::ExpectedValue)
    } else if null_at(s, j) {
        Ok((SqlValueModel::Null, j + 4))
    } else if s[j] == '\'' {
        match sql_string_at(s, j) {
            Ok((body, next)) => Ok((SqlValueModel::Str(body), next)),
            Err(e) => Err(e),
        }
    } else if !is_ascii(s[j]) {
        Err(SqlError::NonAsciiValue)
    } else if number_end(s, j) == j {
        Err(SqlError::ExpectedNumber)
    } else {
        Ok((SqlValueModel::Number(s.subrange(j, number_end(s, j))), number_end(s, j)))
    }
}

fn is_ascii_alnum_char(c: char) -> (r: bool)
    ensures
        r == is_ascii_alnum(c),
{
    ('0' <= c && c <= '9') || ('a' <= c && c <= 'z') || ('A' <= c && c <= 'Z')
}

/// Parses one SQL value (`NULL`, a quoted string, or a bare number) after whitespace at `i`.
#[verifier::loop_isolation(false)]
fn parse_value_chars(s: &Vec<char>, i: usize) -> (r: Result<(SqlValue, usize), SqlError>)
    requires
        i <= s.len(),
    ensures
        match value_at(s@, i as int) {
            Ok((v, next)) => r matches Ok((x, n)) && x@ == v && n == next && i < n <= s.len(),
            Err(e) => r == Err::<(SqlValue, usize), SqlError>(e),
        },
{
    let j = skip_ws(s, i);
    if j >= s.len() {
        return Err(SqlError::ExpectedValue);
    }
    if s.len() - j >= 4 {
        let w = slice_chars(s, j, j + 4);
        let lw = lower_chars(&w);
        let is_null_word = eq_str(&lw, "null");
        let boundary = j + 4 >= s.len() || !is_ascii_alnum_char(s[j + 4]);
        if is_null_word && boundary {
            return Ok((SqlValue::Null, j + 4));
        }
    }
    if s[j] == '\'' {
        return match parse_sql_string(s, j) {
            Ok((body, next)) => Ok((SqlValue::Str(body), next)),
            Err(e) => Err(e),
        };
    }
    if (s[j] as u32) >= 0x80 {
        return Err(SqlError::NonAsciiValue);
    }
    proof {
        lemma_number_end_bounds(s@, j as int);
    }
    let mut k = j;
    while k < s.len()
        invariant
            j <= k <= s.len(),
            number_end(s@, j as int) == number_end(s@, k as int),
        decreases s.len() - k,
    {
        let c = s[k];
        if (c as u32) >= 0x80 || c == ',' || c == ')' || is_ascii_ws_char(c) {
            break;
        }
        k = k + 1;
    }
    if k == j {
        assert(!null_at(s@, j as int));
        return Err(SqlError::ExpectedNumber);
    }
    Ok((SqlValue::Number(slice_chars(s, j, k)), k))
}

pub proof fn lemma_value_at_bounds(s: Seq<char>, i: int)
    requires
        0 <= i <= s.len(),
    ensures
        value_at(s, i) matches Ok((v, k)) ==> i < k <= s.len(),
{
    lemma_skip_ws_bounds(s, i, 0);
    let j = skip_ws_spec(s, i);
    if j < s.len() {
        lemma_str_close_bounds(s, j + 1);
        lemma_number_end_bounds(s, j);
    }
}

/// The values of a tuple whose `(` was consumed, up to and including its `)`.
pub open spec fn row_from(s: Seq<char>, i: int) -> Result<(Seq<SqlValueModel>, int), SqlError>
    decreases s.len() - i,
{
    if i < 0 || i > s.len() {
        Err(SqlError::UnclosedTuple)
    } else {
        let j = skip_ws_spec(s, i);
        proof {
            lemma_skip_ws_bounds(s, i, 0);
            lemma_value_at_bounds(s, j);
        }
        if j >= s.len() {
            Err(SqlError::UnclosedTuple)
        } else if s[j] == ')' {
            Ok((Seq::empty(), j + 1))
        } else if s[j] == ',' {
            row_from(s, j + 1)
        } else {
            match value_at(s, j) {
                Ok((v, k)) => match row_from(s, k) {
                    Ok((rest, e)) => Ok((seq![v] + rest, e)),
                    Err(e) => Err(e),
                },
                Err(e) => Err(e),
            }
        }
    }
}

pub proof fn lemma_row_from_bounds(s: Seq<char>, i: int)
    ensures
        row_from(s, i) matches Ok((vs, e)) ==> i < e <= s.len(),
    decreases s.len() - i,
{
    if i < 0 || i > s.len() {
    } else {
        let j = skip_ws_spec(s, i);
        lemma_skip_ws_bounds(s, i, 0);
        lemma_value_at_bounds(s, j);
        if j >= s.len() {
        } else if s[j] == ')' {
        } else if s[j] == ',' {
            lemma_row_from_bounds(s, j + 1);
        } else {
            match value_at(s, j) {
                Ok((v, k)) => {
                    lemma_row_from_bounds(s, k);
                },
                Err(e) => {},
            }
        }
    }
}

/// Prepends values to a parsed row.
pub open spec fn prepend_row(
    vs: Seq<SqlValueModel>,
    r: Result<(Seq<SqlValueModel>, int), SqlError>,
) -> Result<(Seq<SqlValueModel>, int), SqlError> {
    match r {
        Ok((rest, e)) => Ok((vs + rest, e)),
        Err(e) => Err(e),
    }
}

/// Parses the values of one tuple whose `(` was already consumed.
fn parse_row(s: &Vec<char>, i: usize) -> (r: Result<(Vec<SqlValue>, usize), SqlError>)
    requires
        i <= s.len(),
    ensures
        match row_from(s@, i as int) {
            Ok((vs, e)) => r matches Ok((row, n)) && values_model(row@) == vs && n == e,
            Err(e) => r == Err::<(Vec<SqlValue>, usize), SqlError>(e),
        },
{
    let mut row: Vec<SqlValue> = Vec::new();
    let mut k = i;
    assert(values_model(row@) =~= Seq::<SqlValueModel>::empty());
    assert(prepend_row(Seq::empty(), row_from(s@, i as int)) =~= row_from(s@, i as int)) by {
        match row_from(s@, i as int) {
            Ok((rest, e)) => {
                assert(Seq::<SqlValueModel>::empty() + rest =~= rest);
            },
            Err(e) => {},
        }
    }
    loop
        invariant
            k <= s.len(),
            row_from(s@, i as int) == prepend_row(values_model(row@), row_from(s@, k as int)),
        decreases s.len() - k,
    {
        let j = skip_ws(s, k);
        if j >= s.len() {
            return Err(SqlError::UnclosedTuple);
        }
        if s[j] == ')' {
            assert(values_model(row@) + Seq::<SqlValueModel>::empty() =~= values_model(row@));
            return Ok((row, j + 1));
        }
        if s[j] == ',' {
            k = j + 1;
            continue;
        }
        match parse_value_chars(s, j) {
            Ok((v, next)) => {
                let ghost before = values_model(row@);
                proof {
                    lemma_row_from_bounds(s@, next as int);
                }
                row.push(v);
                assert(values_model(row@) =~= before.push(v@));
                assert(prepend_row(before, row_from(s@, k as int)) == prepend_row(
                    values_model(row@),
                    row_from(s@, next as int),
                )) by {
                    match row_from(s@, next as int) {
                        Ok((rest, e)) => {
                            assert(before + (seq![v@] + rest) =~= values_model(row@) + rest);
                        },
                        Err(e) => {},
                    }
                }
                k = next;
            },
            Err(e) => {
                return Err(e);
            },
        }
    }
}

/// The tuples of a VALUES clause starting at `i`, up to `;` or the end of the text.
pub open spec fn tuples_from(s: Seq<char>, i: int) -> Result<Seq<Seq<SqlValueModel>>, SqlError>
    decreases s.len() - i,
{
    if i < 0 || i >= s.len() {
        Ok(Seq::empty())
    } else {
        let j = skip_ws_spec(s, i);
        proof {
            lemma_skip_ws_bounds(s, i, 0);
            lemma_row_from_bounds(s, j + 1);
        }
        if j >= s.len() || s[j] == ';' {
            Ok(Seq::empty())
        } else if s[j] != '(' {
            tuples_from(s, j + 1)
        } else {
            match row_from(s, j + 1) {
                Ok((row, k)) => match tuples_from(s, k) {
                    Ok(rest) => Ok(seq![row] + rest),
                    Err(e) => Err(e),
                },
                Err(e) => Err(e),
            }
        }
    }
}

pub open spec fn prepend_tuples(
    rows: Seq<Seq<SqlValueModel>>,
    r: Result<Seq<Seq<SqlValueModel>>, SqlError>,
) -> Result<Seq<Seq<SqlValueModel>>, SqlError> {
    match r {
        Ok(rest) => Ok(rows + rest),
        Err(e) => Err(e),
    }
}

/// Parses the tuples after `values` (up to `;`), skipping comments between them.
fn parse_value_tuples(s: &Vec<char>) -> (r: Result<Vec<Vec<SqlValue>>, SqlError>)
    ensures
        match tuples_from(s@, 0) {
            Ok(rows) => r matches Ok(v) && rows_model(v@) == rows,
            Err(e) => r == Err::<Vec<Vec<SqlValue>>, SqlError>(e),
        },
{
    let mut tuples: Vec<Vec<SqlValue>> = Vec::new();
    let mut i: usize = 0;
    assert(rows_model(tuples@) =~= Seq::<Seq<SqlValueModel>>::empty());
    assert(prepend_tuples(Seq::empty(), tuples_from(s@, 0)) =~= tuples_from(s@, 0)) by {
        match tuples_from(s@, 0) {
            Ok(rest) => {
                assert(Seq::<Seq<SqlValueModel>>::empty() + rest =~= rest);
            },
            Err(e) => {},
        }
    }
    while i < s.len()
        invariant
            i <= s.len(),
            tuples_from(s@, 0) == prepend_tuples(rows_model(tuples@), tuples_from(s@, i as int)),
        decreases s.len() - i,
    {
        let j = skip_ws(s, i);
        if j >= s.len() || s[j] == ';' {
            assert(rows_model(tuples@) + Seq::<Seq<SqlValueModel>>::empty() =~= rows_model(
                tuples@,
            ));
            return Ok(tuples);
        }
        if s[j] != '(' {
            i = j + 1;
            continue;
        }
        proof {
            lemma_row_from_bounds(s@, j + 1);
        }
        match parse_row(s, j + 1) {
            Ok((row, k)) => {
                let ghost before = rows_model(tuples@);
                tuples.push(row);
                assert(rows_model(tuples@) =~= before.push(values_model(row@)));
                assert(prepend_tuples(before, tuples_from(s@, i as int)) == prepend_tuples(
                    rows_model(tuples@),
                    tuples_from(s@, k as int),
                )) by {
                    match tuples_from(s@, k as int) {
                        Ok(rest) => {
                            assert(before + (seq![values_model(row@)] + rest) =~= rows_model(
                                tuples@,
                            ) + rest);
                        },
                        Err(e) => {},
                    }
                }
                i = k;
            },
            Err(e) => {
                return Err(e);
            },
        }
    }
    assert(rows_model(tuples@) + Seq::<Seq<SqlValueModel>>::empty() =~= rows_model(tuples@));
    Ok(tuples)
}

// ---------------------------------------------------------------------------
// Column list
// ---------------------------------------------------------------------------

/// The column names of a `config_info` INSERT and where its tuples start (just after `values`).
pub open spec fn column_list(stmt: Seq<char>) -> Result<(Seq<Seq<char>>, int), SqlError> {
    match find(lower(stmt), "config_info"@) {
        None => Err(SqlError::NoConfigInfo),
        Some(t) => {
            let name_end = t + 11;
            match find_from(stmt, seq!['('], name_end) {
                None => Err(SqlError::NoColumnList),
                Some(p) => match close_paren(stmt, p + 1, 1, false) {
                    None => Err(SqlError::UnclosedColumns),
                    Some(c) => match find_from(lower(stmt), "values"@, c + 1) {
                        None => Err(SqlError::NoValues),
                        Some(v) => Ok(
                            (column_names(split_char(stmt.subrange(p + 1, c), ',')), v + 6),
                        ),
                    },
                },
            }
        },
    }
}

fn parse_column_list(stmt: &Vec<char>) -> (r: Result<(Vec<Vec<char>>, usize), SqlError>)
    ensures
        match column_list(stmt@) {
            Ok((cols, vs)) => r matches Ok((c, v)) && vviews(c@) == cols && v == vs && v
                <= stmt.len(),
            Err(e) => r == Err::<(Vec<Vec<char>>, usize), SqlError>(e),
        },
{
    let low = lower_chars(stmt);
    let name = chars_of("config_info");
    proof {
        reveal_strlit("config_info");
        reveal_strlit("values");
        lemma_find_from(low@, name@, 0);
    }
    let t = match find_from_exec(&low, &name, 0) {
        Some(t) => t,
        None => {
            return Err(SqlError::NoConfigInfo);
        },
    };
    assert(name@.len() == 11);
    assert(matches_at(low@, name@, t as int));
    assert(t + 11 <= low.len());
    let name_end = t + 11;
    proof {
        lemma_find_from(stmt@, seq!['('], name_end as int);
    }
    let p = match index_of_from(stmt, '(', name_end) {
        Some(p) => p,
        None => {
            return Err(SqlError::NoColumnList);
        },
    };
    proof {
        lemma_close_paren_bounds(stmt@, p + 1, 1, false);
    }
    let (raw, consumed) = match split_top_parens(stmt, p + 1) {
        Ok(x) => x,
        Err(e) => {
            return Err(e);
        },
    };
    let c = p + consumed;
    let cols = split_columns(&raw);
    let vals = chars_of("values");
    proof {
        lemma_find_from(low@, vals@, c + 1);
    }
    match find_from_exec(&low, &vals, c + 1) {
        Some(v) => Ok((cols, v + 6)),
        None => Err(SqlError::NoValues),
    }
}

/// Position of the first column named `name`.
pub open spec fn col_pos(cols: Seq<Seq<char>>, name: Seq<char>) -> Option<int>
    decreases cols.len(),
{
    if cols.len() == 0 {
        None
    } else if cols[0] == name {
        Some(0)
    } else {
        match col_pos(cols.drop_first(), name) {
            Some(k) => Some(k + 1),
            None => None,
        }
    }
}

fn col_index(cols: &Vec<Vec<char>>, name: &str) -> (r: Option<usize>)
    ensures
        r matches Some(k) ==> col_pos(vviews(cols@), name@) == Some(k as int),
        r is None ==> col_pos(vviews(cols@), name@) is None,
{
    let mut i: usize = 0;
    assert(vviews(cols@).skip(0) =~= vviews(cols@));
    while i < cols.len()
        invariant
            i <= cols.len(),
            col_pos(vviews(cols@), name@) == (match col_pos(vviews(cols@).skip(i as int), name@) {
                Some(k) => Some(k + i),
                None => None::<int>,
            }),
        decreases cols.len() - i,
    {
        assert(vviews(cols@).skip(i as int).drop_first() =~= vviews(cols@).skip(i + 1));
        if eq_str(&cols[i], name) {
            return Some(i);
        }
        i = i + 1;
    }
    None
}

/// The string value at `idx`, if that value is a string.
pub open spec fn str_value_at(vs: Seq<SqlValueModel>, idx: int) -> Option<Seq<char>> {
    if 0 <= idx < vs.len() {
        match vs[idx] {
            SqlValueModel::Str(s) => Some(s),
            _ => None,
        }
    } else {
        None
    }
}

fn string_at(values: &Vec<SqlValue>, idx: usize) -> (r: Option<Vec<char>>)
    ensures
        r matches Some(v) ==> str_value_at(values_model(values@), idx as int) == Some(v@),
        r is None ==> str_value_at(values_model(values@), idx as int) is None,
{
    if idx < values.len() {
        match &values[idx] {
            SqlValue::Str(s) => Some(copy_chars(s)),
            _ => None,
        }
    } else {
        None
    }
}

fn copy_chars(s: &Vec<char>) -> (r: Vec<char>)
    ensures
        r@ == s@,
{
    slice_chars(s, 0, s.len())
}

// ---------------------------------------------------------------------------
// Literals
// ---------------------------------------------------------------------------

/// `s.replace('\\', "\\\\").replace('\'', "\\'")`.
pub open spec fn escape_plain(s: Seq<char>) -> Seq<char> {
    replace_all(replace_all(s, seq!['\\'], seq!['\\', '\\']), seq!['\''], seq!['\\', '\''])
}

fn escape_sql_plain(s: &Vec<char>) -> (r: Vec<char>)
    ensures
        r@ == escape_plain(s@),
{
    let bs = chars_of("\\");
    let bs2 = chars_of("\\\\");
    let q = chars_of("'");
    let q2 = chars_of("\\'");
    proof {
        reveal_strlit("\\");
        reveal_strlit("\\\\");
        reveal_strlit("'");
        reveal_strlit("\\'");
    }
    assert(bs@ =~= seq!['\\']);
    assert(bs2@ =~= seq!['\\', '\\']);
    assert(q@ =~= seq!['\'']);
    assert(q2@ =~= seq!['\\', '\'']);
    let (a, _) = replace_count(s, &bs, &bs2);
    let (b, _) = replace_count(&a, &q, &q2);
    b
}

/// How a value is written back: `NULL`, the number as is, or a quoted, escaped string.
pub open spec fn literal_of(v: SqlValueModel) -> Seq<char> {
    match v {
        SqlValueModel::Null => "NULL"@,
        SqlValueModel::Number(n) => n,
        SqlValueModel::Str(s) => seq!['\''] + escape_plain(s) + seq!['\''],
    }
}

fn sql_value_literal(v: &SqlValue) -> (r: Vec<char>)
    ensures
        r@ == literal_of(v@),
{
    match v {
        SqlValue::Null => chars_of("NULL"),
        SqlValue::Number(n) => copy_chars(n),
        SqlValue::Str(s) => {
            let mut r: Vec<char> = Vec::new();
            r.push('\'');
            let e = escape_sql_plain(s);
            extend_chars(&mut r, &e);
            r.push('\'');
            assert(r@ =~= seq!['\''] + escape_plain(s@) + seq!['\'']);
            r
        },
    }
}

// ---------------------------------------------------------------------------
// Content escaping
// ---------------------------------------------------------------------------

/// Undoes the content escaping of the official scripts: `\n`, `\r`, `\t`, `\'`,
/// `\\=` (an `=` of `connectionProperties`), `\\` and `\x` for any other `x`.
pub open spec fn unescape(s: Seq<char>) -> Seq<char>
    decreases s.len(),
{
    if s.len() == 0 {
        Seq::empty()
    } else if s[0] == '\\' && s.len() > 1 {
        let c = s[1];
        if c == 'n' {
            seq!['\n'] + unescape(s.skip(2))
        } else if c == 'r' {
            seq!['\r'] + unescape(s.skip(2))
        } else if c == 't' {
            seq!['\t'] + unescape(s.skip(2))
        } else if c == '\'' {
            seq!['\''] + unescape(s.skip(2))
        } else if c == '\\' {
            if s.len() > 2 && s[2] == '=' {
                seq!['='] + unescape(s.skip(3))
            } else {
                seq!['\\'] + unescape(s.skip(2))
            }
        } else {
            seq![c] + unescape(s.skip(2))
        }
    } else {
        seq![s[0]] + unescape(s.drop_first())
    }
}

/// Undoes the escaping of a `content` value read from the script.
pub fn unescape_nacos_content(raw: &str) -> (r: String)
    ensures
        r@ == unescape(raw@),
{
    let chars = chars_of(raw);
    let out = unescape_chars(&chars);
    string_of(&out)
}

fn unescape_chars(chars: &Vec<char>) -> (out: Vec<char>)
    ensures
        out@ == unescape(chars@),
{
    let mut out: Vec<char> = Vec::new();
    let mut i: usize = 0;
    assert(chars@.skip(0) =~= chars@);
    while i < chars.len()
        invariant
            i <= chars.len(),
            out@ + unescape(chars@.skip(i as int)) == unescape(chars@),
        decreases chars.len() - i,
    {
        let ghost rest = chars@.skip(i as int);
        let ghost before = out@;
        if chars[i] == '\\' && i + 1 < chars.len() {
            let c = chars[i + 1];
            assert(rest.skip(2) =~= chars@.skip(i + 2));
            if c == 'n' {
                out.push('\n');
                i = i + 2;
            } else if c == 'r' {
                out.push('\r');
                i = i + 2;
            } else if c == 't' {
                out.push('\t');
                i = i + 2;
            } else if c == '\'' {
                out.push('\'');
                i = i + 2;
            } else if c == '\\' {
                if i + 2 < chars.len() && chars[i + 2] == '=' {
                    assert(rest.skip(3) =~= chars@.skip(i + 3));
                    out.push('=');
                    i = i + 3;
                } else {
                    out.push('\\');
                    i = i + 2;
                }
            } else {
                out.push(c);
                i = i + 2;
            }
        } else {
            assert(rest.drop_first() =~= chars@.skip(i + 1));
            out.push(chars[i]);
            i = i + 1;
        }
        assert(out@ + unescape(chars@.skip(i as int)) =~= before + unescape(rest));
    }
    assert(chars@.skip(i as int) =~= Seq::<char>::empty());
    assert(out@ + Seq::<char>::empty() =~= out@);
    out
}

/// Each `'` written as `\'`.
pub open spec fn esc_quotes(s: Seq<char>) -> Seq<char>
    decreases s.len(),
{
    if s.len() == 0 {
        Seq::empty()
    } else if s[0] == '\'' {
        seq!['\\', '\''] + esc_quotes(s.drop_first())
    } else {
        seq![s[0]] + esc_quotes(s.drop_first())
    }
}

/// Each `=` written as `\\=`.
pub open spec fn esc_eq(s: Seq<char>) -> Seq<char>
    decreases s.len(),
{
    if s.len() == 0 {
        Seq::empty()
    } else if s[0] == '=' {
        seq!['\\', '\\', '='] + esc_eq(s.drop_first())
    } else {
        seq![s[0]] + esc_eq(s.drop_first())
    }
}

/// A `connectionProperties:` line gets the `=`s of its value escaped; other lines are kept.
pub open spec fn escape_cp_line(line: Seq<char>) -> Seq<char> {
    if line_key(line) != "connectionProperties"@ {
        line
    } else {
        match index_of(line, ':') {
            Some(i) => if 0 <= i < line.len() {
                line.take(i) + seq![':'] + esc_eq(line.skip(i + 1))
            } else {
                line
            },
            None => line,
        }
    }
}

/// The official content escaping: per line, `connectionProperties` `=` → `\\=`,
/// `'` → `\'`, and each line break → `\n`.
pub open spec fn escape(s: Seq<char>) -> Seq<char>
    decreases s.len(),
{
    if s.len() == 0 {
        Seq::empty()
    } else {
        match index_of(s, '\n') {
            Some(i) => if 0 <= i < s.len() {
                esc_quotes(escape_cp_line(s.take(i))) + seq!['\\', 'n'] + escape(s.skip(i + 1))
            } else {
                esc_quotes(escape_cp_line(s))
            },
            None => esc_quotes(escape_cp_line(s)),
        }
    }
}

fn escape_connection_properties_eq(line: &Vec<char>) -> (r: Vec<char>)
    ensures
        r@ == escape_cp_line(line@),
{
    let key = line_key_exec(line);
    if !eq_str(&key, "connectionProperties") {
        return copy_chars(line);
    }
    proof {
        lemma_find_from(line@, seq![':'], 0);
    }
    match index_of_from(line, ':', 0) {
        Some(i) => {
            let mut r = slice_chars(line, 0, i);
            r.push(':');
            let ghost head = r@;
            let mut k = i + 1;
            assert(line@.skip(k as int) =~= line@.skip(i + 1));
            while k < line.len()
                invariant
                    i < k <= line.len(),
                    r@ + esc_eq(line@.skip(k as int)) == head + esc_eq(line@.skip(i + 1)),
                decreases line.len() - k,
            {
                let ghost before = r@;
                assert(line@.skip(k as int).drop_first() =~= line@.skip(k + 1));
                if line[k] == '=' {
                    r.push('\\');
                    r.push('\\');
                    r.push('=');
                } else {
                    r.push(line[k]);
                }
                assert(r@ + esc_eq(line@.skip(k + 1)) =~= before + esc_eq(line@.skip(k as int)));
                k = k + 1;
            }
            assert(line@.skip(k as int) =~= Seq::<char>::empty());
            assert(r@ =~= line@.take(i as int) + seq![':'] + esc_eq(line@.skip(i + 1)));
            r
        },
        None => copy_chars(line),
    }
}

fn esc_quotes_into(out: &mut Vec<char>, s: &Vec<char>)
    ensures
        final(out)@ == old(out)@ + esc_quotes(s@),
{
    let mut k: usize = 0;
    assert(s@.skip(0) =~= s@);
    while k < s.len()
        invariant
            k <= s.len(),
            out@ + esc_quotes(s@.skip(k as int)) == old(out)@ + esc_quotes(s@),
        decreases s.len() - k,
    {
        let ghost before = out@;
        assert(s@.skip(k as int).drop_first() =~= s@.skip(k + 1));
        if s[k] == '\'' {
            out.push('\\');
            out.push('\'');
        } else {
            out.push(s[k]);
        }
        assert(out@ + esc_quotes(s@.skip(k + 1)) =~= before + esc_quotes(s@.skip(k as int)));
        k = k + 1;
    }
    assert(s@.skip(k as int) =~= Seq::<char>::empty());
    assert(out@ + Seq::<char>::empty() =~= out@);
}

/// Escapes YAML text the way the official scripts store `content`.
pub fn escape_nacos_content(yaml: &str) -> (r: String)
    ensures
        r@ == escape(yaml@),
{
    let s = chars_of(yaml);
    let out = escape_chars(&s);
    string_of(&out)
}

fn escape_chars(s: &Vec<char>) -> (out: Vec<char>)
    ensures
        out@ == escape(s@),
{
    let mut out: Vec<char> = Vec::new();
    let mut i: usize = 0;
    assert(s@.skip(0) =~= s@);
    while i < s.len()
        invariant
            i <= s.len(),
            out@ + escape(s@.skip(i as int)) == escape(s@),
        decreases s.len() - i,
    {
        let ghost rest = s@.skip(i as int);
        let ghost before = out@;
        proof {
            lemma_find_from(s@, seq!['\n'], i as int);
            lemma_find_shift(s@, seq!['\n'], i as int);
        }
        match index_of_from(s, '\n', i) {
            Some(j) => {
                let body = slice_chars(s, i, j);
                assert(body@ =~= rest.take(j - i));
                let cp = escape_connection_properties_eq(&body);
                esc_quotes_into(&mut out, &cp);
                out.push('\\');
                out.push('n');
                assert(rest.skip(j - i + 1) =~= s@.skip(j + 1));
                assert(out@ + escape(s@.skip(j + 1)) =~= before + escape(rest));
                i = j + 1;
            },
            None => {
                let body = slice_chars(s, i, s.len());
                assert(body@ =~= rest);
                let cp = escape_connection_properties_eq(&body);
                esc_quotes_into(&mut out, &cp);
                assert(s@.skip(s.len() as int) =~= Seq::<char>::empty());
                assert(out@ + escape(s@.skip(s.len() as int)) =~= before + escape(rest));
                i = s.len();
            },
        }
    }
    assert(s@.skip(i as int) =~= Seq::<char>::empty());
    assert(out@ + Seq::<char>::empty() =~= out@);
    out
}

// ---------------------------------------------------------------------------
// Escaping round trip
// ---------------------------------------------------------------------------

/// No backslash occurs in `s`.
pub open spec fn no_backslash(s: Seq<char>) -> bool {
    forall|k: int| 0 <= k < s.len() ==> s[k] != '\\'
}

proof fn lemma_unescape_quotes(t: Seq<char>, x: Seq<char>)
    requires
        no_backslash(t),
    ensures
        unescape(esc_quotes(t) + x) == t + unescape(x),
    decreases t.len(),
{
    if t.len() == 0 {
        assert(esc_quotes(t) + x =~= x);
        assert(t + unescape(x) =~= unescape(x));
    } else {
        let tail = t.drop_first();
        lemma_unescape_quotes(tail, x);
        if t[0] == '\'' {
            let w = seq!['\\', '\''] + (esc_quotes(tail) + x);
            assert(esc_quotes(t) + x =~= w);
            assert(w.skip(2) =~= esc_quotes(tail) + x);
        } else {
            let w = seq![t[0]] + (esc_quotes(tail) + x);
            assert(esc_quotes(t) + x =~= w);
            assert(w.drop_first() =~= esc_quotes(tail) + x);
        }
        assert(t + unescape(x) =~= seq![t[0]] + (tail + unescape(x)));
    }
}

proof fn lemma_unescape_eq(t: Seq<char>, x: Seq<char>)
    requires
        no_backslash(t),
    ensures
        unescape(esc_quotes(esc_eq(t)) + x) == t + unescape(x),
    decreases t.len(),
{
    if t.len() == 0 {
        assert(esc_eq(t) =~= Seq::<char>::empty());
        assert(esc_quotes(esc_eq(t)) + x =~= x);
        assert(t + unescape(x) =~= unescape(x));
    } else {
        let tail = t.drop_first();
        lemma_unescape_eq(tail, x);
        let rest = esc_quotes(esc_eq(tail)) + x;
        if t[0] == '=' {
            let e = seq!['\\', '\\', '='];
            lemma_esc_quotes_append(e, esc_eq(tail));
            lemma_esc_quotes_id(e);
            let w = e + rest;
            assert(esc_quotes(esc_eq(t)) + x =~= w);
            assert(w.skip(3) =~= rest);
        } else if t[0] == '\'' {
            lemma_esc_quotes_append(seq!['\''], esc_eq(tail));
            let q = seq!['\''];
            assert(q.len() == 1 && q[0] == '\'');
            assert(q.drop_first() =~= Seq::<char>::empty());
            assert(esc_quotes(q.drop_first()) =~= Seq::<char>::empty());
            assert(esc_quotes(q) == seq!['\\', '\''] + esc_quotes(q.drop_first()));
            assert(esc_quotes(q) =~= seq!['\\', '\'']);
            let w = seq!['\\', '\''] + rest;
            assert(esc_quotes(esc_eq(t)) + x =~= w);
            assert(w.skip(2) =~= rest);
        } else {
            lemma_esc_quotes_append(seq![t[0]], esc_eq(tail));
            lemma_esc_quotes_id(seq![t[0]]);
            let w = seq![t[0]] + rest;
            assert(esc_quotes(esc_eq(t)) + x =~= w);
            assert(w.drop_first() =~= rest);
        }
        assert(t + unescape(x) =~= seq![t[0]] + (tail + unescape(x)));
    }
}

proof fn lemma_esc_quotes_id(s: Seq<char>)
    requires
        forall|k: int| 0 <= k < s.len() ==> s[k] != '\'',
    ensures
        esc_quotes(s) == s,
    decreases s.len(),
{
    if s.len() > 0 {
        lemma_esc_quotes_id(s.drop_first());
        assert(esc_quotes(s) =~= s);
    }
}

proof fn lemma_esc_quotes_append(a: Seq<char>, b: Seq<char>)
    ensures
        esc_quotes(a + b) == esc_quotes(a) + esc_quotes(b),
    decreases a.len(),
{
    if a.len() == 0 {
        assert(a + b =~= b);
        assert(esc_quotes(a) + esc_quotes(b) =~= esc_quotes(b));
    } else {
        assert((a + b).drop_first() =~= a.drop_first() + b);
        lemma_esc_quotes_append(a.drop_first(), b);
        assert(esc_quotes(a + b) =~= esc_quotes(a) + esc_quotes(b));
    }
}

proof fn lemma_unescape_line(t: Seq<char>, x: Seq<char>)
    requires
        no_backslash(t),
    ensures
        unescape(esc_quotes(escape_cp_line(t)) + x) == t + unescape(x),
{
    if line_key(t) != "connectionProperties"@ {
        lemma_unescape_quotes(t, x);
    } else {
        match index_of(t, ':') {
            Some(i) => if 0 <= i < t.len() {
                let left = t.take(i);
                let right = t.skip(i + 1);
                lemma_esc_quotes_append(left + seq![':'], esc_eq(right));
                lemma_esc_quotes_append(left, seq![':']);
                lemma_esc_quotes_id(seq![':']);
                lemma_unescape_eq(right, x);
                let y = esc_quotes(esc_eq(right)) + x;
                lemma_unescape_quotes(left + seq![':'], y);
                assert(esc_quotes(escape_cp_line(t)) + x =~= esc_quotes(left + seq![':']) + y);
                assert(t =~= (left + seq![':']) + right) by {
                    lemma_find_from(t, seq![':'], 0);
                    lemma_single_match(t, ':', i);
                }
            } else {
                lemma_unescape_quotes(t, x);
            },
            None => {
                lemma_unescape_quotes(t, x);
            },
        }
    }
}

/// Escaping then unescaping gives back any text without backslashes.
pub proof fn lemma_escape_roundtrip(yaml: Seq<char>)
    requires
        no_backslash(yaml),
    ensures
        unescape(escape(yaml)) == yaml,
    decreases yaml.len(),
{
    if yaml.len() == 0 {
    } else {
        match index_of(yaml, '\n') {
            Some(i) => if 0 <= i < yaml.len() {
                let line = yaml.take(i);
                let rest = yaml.skip(i + 1);
                lemma_escape_roundtrip(rest);
                let nl = seq!['\\', 'n'] + escape(rest);
                assert(nl.skip(2) =~= escape(rest));
                lemma_unescape_line(line, nl);
                assert(escape(yaml) =~= esc_quotes(escape_cp_line(line)) + nl);
                lemma_find_from(yaml, seq!['\n'], 0);
                lemma_single_match(yaml, '\n', i);
                assert(yaml =~= line + (seq!['\n'] + rest));
            } else {
                lemma_unescape_line(yaml, Seq::empty());
                assert(escape(yaml) =~= esc_quotes(escape_cp_line(yaml)) + Seq::<char>::empty());
                assert(yaml + Seq::<char>::empty() =~= yaml);
            },
            None => {
                lemma_unescape_line(yaml, Seq::empty());
                assert(escape(yaml) =~= esc_quotes(escape_cp_line(yaml)) + Seq::<char>::empty());
                assert(yaml + Seq::<char>::empty() =~= yaml);
            },
        }
    }
}

// ---------------------------------------------------------------------------
// Service configurations
// ---------------------------------------------------------------------------

/// One Nacos service configuration (`content` already unescaped to YAML text).
#[derive(Debug, Clone)]
pub struct NacosServiceConfig {
    pub data_id: String,
    pub group_id: String,
    pub content: String,
    pub md5: String,
    /// The raw values of the tuple, in column order, written back as they were.
    values: Vec<SqlValue>,
    data_id_idx: usize,
    content_idx: usize,
    md5_idx: usize,
}

/// The mathematical content of a `NacosServiceConfig`.
pub struct ConfigModel {
    pub data_id: Seq<char>,
    pub group_id: Seq<char>,
    pub content: Seq<char>,
    pub md5: Seq<char>,
    pub values: Seq<SqlValueModel>,
    pub data_id_idx: int,
    pub content_idx: int,
    pub md5_idx: int,
}

impl View for NacosServiceConfig {
    type V = ConfigModel;

    closed spec fn view(&self) -> ConfigModel {
        ConfigModel {
            data_id: self.data_id@,
            group_id: self.group_id@,
            content: self.content@,
            md5: self.md5@,
            values: values_model(self.values@),
            data_id_idx: self.data_id_idx as int,
            content_idx: self.content_idx as int,
            md5_idx: self.md5_idx as int,
        }
    }
}

/// The model with a new content and digest, every other part kept.
pub open spec fn with_content(m: ConfigModel, content: Seq<char>, md5: Seq<char>) -> ConfigModel {
    ConfigModel {
        data_id: m.data_id,
        group_id: m.group_id,
        content,
        md5,
        values: m.values,
        data_id_idx: m.data_id_idx,
        content_idx: m.content_idx,
        md5_idx: m.md5_idx,
    }
}

impl NacosServiceConfig {
    /// The data id.
    pub fn data_id_text(&self) -> (r: &String)
        ensures
            r@ == self@.data_id,
    {
        &self.data_id
    }

    /// The configuration text.
    pub fn content_text(&self) -> (r: &String)
        ensures
            r@ == self@.content,
    {
        &self.content
    }

    /// Replaces the content and its digest.
    pub fn set_content(&mut self, content: String, md5: String)
        ensures
            final(self)@ == with_content(old(self)@, content@, md5@),
    {
        self.content = content;
        self.md5 = md5;
    }
}

pub open spec fn configs_model(v: Seq<NacosServiceConfig>) -> Seq<ConfigModel> {
    v.map_values(|c: NacosServiceConfig| c@)
}

/// The configuration described by one tuple.
pub open spec fn config_of(
    row: Seq<SqlValueModel>,
    di: int,
    ci: int,
    mi: int,
    gi: Option<int>,
) -> ConfigModel {
    let or_empty = |o: Option<Seq<char>>|
        match o {
            Some(v) => v,
            None => Seq::<char>::empty(),
        };
    ConfigModel {
        data_id: or_empty(str_value_at(row, di)),
        group_id: match gi {
            Some(g) => match str_value_at(row, g) {
                Some(v) => v,
                None => "DEFAULT_GROUP"@,
            },
            None => "DEFAULT_GROUP"@,
        },
        content: unescape(or_empty(str_value_at(row, ci))),
        md5: or_empty(str_value_at(row, mi)),
        values: row,
        data_id_idx: di,
        content_idx: ci,
        md5_idx: mi,
    }
}

/// The configurations of one `config_info` INSERT statement.
pub open spec fn insert_configs(stmt: Seq<char>) -> Result<Seq<ConfigModel>, SqlError> {
    match column_list(stmt) {
        Err(e) => Err(e),
        Ok((cols, vs)) => match col_pos(cols, "data_id"@) {
            None => Err(SqlError::MissingDataId),
            Some(di) => match col_pos(cols, "content"@) {
                None => Err(SqlError::MissingContent),
                Some(ci) => match col_pos(cols, "md5"@) {
                    None => Err(SqlError::MissingMd5),
                    Some(mi) => match tuples_from(stmt.skip(vs), 0) {
                        Err(e) => Err(e),
                        Ok(rows) => Ok(
                            rows.map_values(
                                |row: Seq<SqlValueModel>|
                                    config_of(row, di, ci, mi, col_pos(cols, "group_id"@)),
                            ),
                        ),
                    },
                },
            },
        },
    }
}

fn unwrap_or_empty(o: Option<Vec<char>>) -> (r: Vec<char>)
    ensures
        r@ == (match o {
            Some(v) => v@,
            None => Seq::<char>::empty(),
        }),
{
    match o {
        Some(v) => v,
        None => Vec::new(),
    }
}

fn parse_insert_statement(stmt: &Vec<char>) -> (r: Result<Vec<NacosServiceConfig>, SqlError>)
    ensures
        match insert_configs(stmt@) {
            Ok(cs) => r matches Ok(v) && configs_model(v@) == cs,
            Err(e) => r == Err::<Vec<NacosServiceConfig>, SqlError>(e),
        },
{
    let (cols, values_start) = match parse_column_list(stmt) {
        Ok(x) => x,
        Err(e) => {
            return Err(e);
        },
    };
    let data_id_idx = match col_index(&cols, "data_id") {
        Some(k) => k,
        None => {
            return Err(SqlError::MissingDataId);
        },
    };
    let content_idx = match col_index(&cols, "content") {
        Some(k) => k,
        None => {
            return Err(SqlError::MissingContent);
        },
    };
    let md5_idx = match col_index(&cols, "md5") {
        Some(k) => k,
        None => {
            return Err(SqlError::MissingMd5);
        },
    };
    let group_idx = col_index(&cols, "group_id");
    let ghost gi = col_pos(vviews(cols@), "group_id"@);
    assert(gi == (match group_idx {
        Some(g) => Some(g as int),
        None => None::<int>,
    }));
    let tail = slice_chars(stmt, values_start, stmt.len());
    assert(tail@ =~= stmt@.skip(values_start as int));
    let tuples = match parse_value_tuples(&tail) {
        Ok(t) => t,
        Err(e) => {
            return Err(e);
        },
    };
    let ghost rows = rows_model(tuples@);
    let mut out: Vec<NacosServiceConfig> = Vec::new();
    let mut i: usize = 0;
    while i < tuples.len()
        invariant
            i <= tuples.len(),
            rows == rows_model(tuples@),
            gi == (match group_idx {
                Some(g) => Some(g as int),
                None => None::<int>,
            }),
            configs_model(out@) == rows.take(i as int).map_values(
                |row: Seq<SqlValueModel>|
                    config_of(
                        row,
                        data_id_idx as int,
                        content_idx as int,
                        md5_idx as int,
                        gi,
                    ),
            ),
        decreases tuples.len() - i,
    {
        let values = clone_values(&tuples[i]);
        let data_id = string_of(&unwrap_or_empty(string_at(&values, data_id_idx)));
        let raw_content = unwrap_or_empty(string_at(&values, content_idx));
        let content = string_of(&unescape_chars(&raw_content));
        let md5 = string_of(&unwrap_or_empty(string_at(&values, md5_idx)));
        let group_id = match group_idx {
            Some(g) => match string_at(&values, g) {
                Some(v) => string_of(&v),
                None => String::from_str("DEFAULT_GROUP"),
            },
            None => String::from_str("DEFAULT_GROUP"),
        };
        let cfg = NacosServiceConfig {
            data_id,
            group_id,
            content,
            md5,
            values,
            data_id_idx,
            content_idx,
            md5_idx,
        };
        let ghost before = configs_model(out@);
        out.push(cfg);
        assert(configs_model(out@) =~= before.push(cfg@));
        assert(rows.take(i + 1) =~= rows.take(i as int).push(rows[i as int]));
        assert(configs_model(out@) =~= rows.take(i + 1).map_values(
            |row: Seq<SqlValueModel>|
                config_of(row, data_id_idx as int, content_idx as int, md5_idx as int, gi),
        ));
        i = i + 1;
    }
    assert(rows.take(tuples.len() as int) =~= rows);
    Ok(out)
}

fn clone_value(v: &SqlValue) -> (r: SqlValue)
    ensures
        r@ == v@,
{
    match v {
        SqlValue::Null => SqlValue::Null,
        SqlValue::Number(n) => SqlValue::Number(copy_chars(n)),
        SqlValue::Str(s) => SqlValue::Str(copy_chars(s)),
    }
}

fn clone_values(v: &Vec<SqlValue>) -> (r: Vec<SqlValue>)
    ensures
        values_model(r@) == values_model(v@),
{
    let mut r: Vec<SqlValue> = Vec::new();
    let mut i: usize = 0;
    while i < v.len()
        invariant
            i <= v.len(),
            values_model(r@) == values_model(v@).take(i as int),
        decreases v.len() - i,
    {
        let x = clone_value(&v[i]);
        let ghost before = r@;
        r.push(x);
        assert(r@ =~= before.push(x));
        assert(values_model(r@) =~= values_model(before).push(x@));
        assert(values_model(v@).take(i + 1) =~= values_model(v@).take(i as int).push(v@[i as int]@));
        assert(values_model(r@) =~= values_model(v@).take(i + 1));
        i = i + 1;
    }
    assert(values_model(v@).take(v.len() as int) =~= values_model(v@));
    r
}

/// The configurations of every `config_info` INSERT at or after `from`, in order.
pub open spec fn configs_from(sql: Seq<char>, from: int) -> Result<Seq<ConfigModel>, SqlError>
    decreases sql.len() - from,
{
    if from < 0 || from > sql.len() {
        Ok(Seq::empty())
    } else {
        match insert_span(sql, "config_info"@, from) {
            None => Ok(Seq::empty()),
            Some((a, b)) => {
                proof {
                    lemma_insert_span_bounds(sql, "config_info"@, from);
                }
                match insert_configs(sql.subrange(a, b)) {
                    Err(e) => Err(e),
                    Ok(cs) => match configs_from(sql, b) {
                        Ok(rest) => Ok(cs + rest),
                        Err(e) => Err(e),
                    },
                }
            },
        }
    }
}

pub proof fn lemma_insert_span_bounds(sql: Seq<char>, table: Seq<char>, from: int)
    requires
        0 <= from,
    ensures
        insert_span(sql, table, from) matches Some((a, b)) ==> from <= a < b <= sql.len(),
{
    lemma_find_from(lower(sql), insert_needle(table), from);
    match find_from(lower(sql), insert_needle(table), from) {
        Some(start) => {
            lemma_stmt_end_bounds(sql, start, false);
        },
        None => {},
    }
}

/// The text of an error.
pub open spec fn error_text(e: SqlError) -> Seq<char> {
    match e {
        SqlError::UnclosedTuple => "values 元组未闭合"@,
        SqlError::ExpectedValue => "期望 SQL 值"@,
        SqlError::NonAsciiValue => "非法 SQL 值：非字符串值必须以 ASCII 开头"@,
        SqlError::ExpectedNumber => "期望 SQL 数字值"@,
        SqlError::ExpectedQuote => "期望字符串以 ' 开头"@,
        SqlError::UnclosedString => "SQL 字符串未闭合"@,
        SqlError::NoConfigInfo => "INSERT 未含 config_info"@,
        SqlError::NoColumnList => "config_info 后缺少列清单"@,
        SqlError::UnclosedColumns => "列清单括号未闭合"@,
        SqlError::NoValues => "INSERT 缺少 values"@,
        SqlError::MissingDataId => "config_info 缺少 data_id 列"@,
        SqlError::MissingContent => "config_info 缺少 content 列"@,
        SqlError::MissingMd5 => "config_info 缺少 md5 列"@,
        SqlError::NoInsert => "写回失败：未找到 insert into config_info 语句"@,
    }
}

impl SqlError {
    /// The message shown for this error.
    pub fn message(&self) -> (r: String)
        ensures
            r@ == error_text(*self),
    {
        match self {
            SqlError::UnclosedTuple => String::from_str("values 元组未闭合"),
            SqlError::ExpectedValue => String::from_str("期望 SQL 值"),
            SqlError::NonAsciiValue => String::from_str("非法 SQL 值：非字符串值必须以 ASCII 开头"),
            SqlError::ExpectedNumber => String::from_str("期望 SQL 数字值"),
            SqlError::ExpectedQuote => String::from_str("期望字符串以 ' 开头"),
            SqlError::UnclosedString => String::from_str("SQL 字符串未闭合"),
            SqlError::NoConfigInfo => String::from_str("INSERT 未含 config_info"),
            SqlError::NoColumnList => String::from_str("config_info 后缺少列清单"),
            SqlError::UnclosedColumns => String::from_str("列清单括号未闭合"),
            SqlError::NoValues => String::from_str("INSERT 缺少 values"),
            SqlError::MissingDataId => String::from_str("config_info 缺少 data_id 列"),
            SqlError::MissingContent => String::from_str("config_info 缺少 content 列"),
            SqlError::MissingMd5 => String::from_str("config_info 缺少 md5 列"),
            SqlError::NoInsert => String::from_str("写回失败：未找到 insert into config_info 语句"),
        }
    }
}

fn parse_config_sql_chars(sql: &Vec<char>) -> (r: Result<Vec<NacosServiceConfig>, SqlError>)
    ensures
        match configs_from(sql@, 0) {
            Ok(cs) => r matches Ok(v) && configs_model(v@) == cs,
            Err(e) => r == Err::<Vec<NacosServiceConfig>, SqlError>(e),
        },
{
    let mut out: Vec<NacosServiceConfig> = Vec::new();
    let mut search: usize = 0;
    assert(configs_model(out@) =~= Seq::<ConfigModel>::empty());
    assert(configs_from(sql@, 0) == prepend_configs(Seq::empty(), configs_from(sql@, 0))) by {
        match configs_from(sql@, 0) {
            Ok(rest) => {
                assert(Seq::<ConfigModel>::empty() + rest =~= rest);
            },
            Err(e) => {},
        }
    }
    loop
        invariant
            search <= sql.len(),
            configs_from(sql@, 0) == prepend_configs(
                configs_model(out@),
                configs_from(sql@, search as int),
            ),
        decreases sql.len() - search,
    {
        proof {
            lemma_insert_span_bounds(sql@, "config_info"@, search as int);
        }
        match find_insert_span(sql, "config_info", search) {
            Some((a, b)) => {
                let stmt = slice_chars(sql, a, b);
                match parse_insert_statement(&stmt) {
                    Ok(mut cs) => {
                        let ghost before = configs_model(out@);
                        let ghost added = configs_model(cs@);
                        out.append(&mut cs);
                        assert(configs_model(out@) =~= before + added);
                        assert(prepend_configs(before, configs_from(sql@, search as int))
                            == prepend_configs(configs_model(out@), configs_from(sql@, b as int)))
                            by {
                            match configs_from(sql@, b as int) {
                                Ok(rest) => {
                                    assert(before + (added + rest) =~= configs_model(out@) + rest);
                                },
                                Err(e) => {},
                            }
                        }
                        search = b;
                    },
                    Err(e) => {
                        return Err(e);
                    },
                }
            },
            None => {
                assert(configs_model(out@) + Seq::<ConfigModel>::empty() =~= configs_model(out@));
                return Ok(out);
            },
        }
    }
}

pub open spec fn prepend_configs(
    cs: Seq<ConfigModel>,
    r: Result<Seq<ConfigModel>, SqlError>,
) -> Result<Seq<ConfigModel>, SqlError> {
    match r {
        Ok(rest) => Ok(cs + rest),
        Err(e) => Err(e),
    }
}

/// Parses every `config_info` INSERT of a configuration script (content unescaped).
pub fn parse_config_sql_text(sql: &str) -> (r: Result<Vec<NacosServiceConfig>, String>)
    ensures
        match configs_from(sql@, 0) {
            Ok(cs) => r matches Ok(v) && configs_model(v@) == cs,
            Err(e) => r matches Err(m) && m@ == error_text(e),
        },
{
    let chars = chars_of(sql);
    match parse_config_sql_chars(&chars) {
        Ok(v) => Ok(v),
        Err(e) => Err(e.message()),
    }
}

/// Parses the `config_info` INSERTs of a `ry_config*.sql` script's text.
pub fn parse_config_sql(sql: &str) -> (r: Result<Vec<NacosServiceConfig>, String>)
    ensures
        match configs_from(sql@, 0) {
            Ok(cs) => r matches Ok(v) && configs_model(v@) == cs,
            Err(e) => r matches Err(m) && m@ == error_text(e),
        },
{
    parse_config_sql_text(sql)
}

// ---------------------------------------------------------------------------
// Writing back
// ---------------------------------------------------------------------------

/// Parts joined by `sep`.
pub open spec fn join(parts: Seq<Seq<char>>, sep: Seq<char>) -> Seq<char>
    decreases parts.len(),
{
    if parts.len() == 0 {
        Seq::empty()
    } else if parts.len() == 1 {
        parts[0]
    } else {
        join(parts.drop_last(), sep) + sep + parts.last()
    }
}

/// How the value in column `j` of a configuration is written.
pub open spec fn value_text(c: ConfigModel, j: int) -> Seq<char> {
    if j == c.content_idx {
        seq!['\''] + escape(c.content) + seq!['\'']
    } else if j == c.md5_idx {
        seq!['\''] + escape_plain(c.md5) + seq!['\'']
    } else if j == c.data_id_idx {
        seq!['\''] + escape_plain(c.data_id) + seq!['\'']
    } else {
        literal_of(c.values[j])
    }
}

/// One configuration as a VALUES tuple.
pub open spec fn tuple_text(c: ConfigModel) -> Seq<char> {
    seq!['('] + join(Seq::new(c.values.len(), |j: int| value_text(c, j)), ","@) + seq![')']
}

/// A single INSERT holding every configuration, with the original statement's columns.
pub open spec fn rebuilt_insert(stmt: Seq<char>, cs: Seq<ConfigModel>) -> Result<Seq<char>, SqlError> {
    match column_list(stmt) {
        Err(e) => Err(e),
        Ok((cols, _)) => Ok(
            "insert into config_info("@ + join(cols, ", "@) + ") values "@ + join(
                cs.map_values(|c: ConfigModel| tuple_text(c)),
                ","@,
            ) + ";"@,
        ),
    }
}

proof fn lemma_join_push(parts: Seq<Seq<char>>, p: Seq<char>, sep: Seq<char>)
    ensures
        join(parts.push(p), sep) == if parts.len() == 0 {
            p
        } else {
            join(parts, sep) + sep + p
        },
{
    assert(parts.push(p).drop_last() =~= parts);
}

/// Appends `parts` joined by `sep`.
pub(crate) fn push_joined(out: &mut Vec<char>, parts: &Vec<Vec<char>>, sep: &str)
    ensures
        final(out)@ == old(out)@ + join(vviews(parts@), sep@),
{
    let ghost start = out@;
    let mut i: usize = 0;
    while i < parts.len()
        invariant
            i <= parts.len(),
            out@ == start + join(vviews(parts@).take(i as int), sep@),
        decreases parts.len() - i,
    {
        let ghost before = out@;
        proof {
            lemma_join_push(vviews(parts@).take(i as int), parts@[i as int]@, sep@);
            assert(vviews(parts@).take(i + 1) =~= vviews(parts@).take(i as int).push(
                parts@[i as int]@,
            ));
        }
        if i > 0 {
            extend_str(out, sep);
        }
        extend_chars(out, &parts[i]);
        assert(out@ =~= start + join(vviews(parts@).take(i + 1), sep@));
        i = i + 1;
    }
    assert(vviews(parts@).take(parts.len() as int) =~= vviews(parts@));
}

fn value_text_exec(cfg: &NacosServiceConfig, j: usize) -> (r: Vec<char>)
    requires
        j < cfg@.values.len(),
    ensures
        r@ == value_text(cfg@, j as int),
{
    proof {
        reveal_strlit("'");
    }
    let mut r: Vec<char> = Vec::new();
    if j == cfg.content_idx {
        r.push('\'');
        let c = chars_of(cfg.content.as_str());
        extend_chars(&mut r, &escape_chars(&c));
        r.push('\'');
    } else if j == cfg.md5_idx {
        r.push('\'');
        let c = chars_of(cfg.md5.as_str());
        extend_chars(&mut r, &escape_sql_plain(&c));
        r.push('\'');
    } else if j == cfg.data_id_idx {
        r.push('\'');
        let c = chars_of(cfg.data_id.as_str());
        extend_chars(&mut r, &escape_sql_plain(&c));
        r.push('\'');
    } else {
        r = sql_value_literal(&cfg.values[j]);
    }
    r
}

fn tuple_text_exec(cfg: &NacosServiceConfig) -> (r: Vec<char>)
    ensures
        r@ == tuple_text(cfg@),
{
    let mut parts: Vec<Vec<char>> = Vec::new();
    let mut j: usize = 0;
    let ghost c = cfg@;
    while j < cfg.values.len()
        invariant
            c == cfg@,
            j <= cfg.values.len(),
            c.values.len() == cfg.values.len(),
            vviews(parts@) == Seq::new(j as nat, |k: int| value_text(c, k)),
        decreases cfg.values.len() - j,
    {
        let t = value_text_exec(cfg, j);
        let ghost pb = parts@;
        parts.push(t);
        assert(parts@ =~= pb.push(t));
        assert(vviews(parts@) =~= vviews(pb).push(t@));
        assert(vviews(parts@) =~= Seq::new((j + 1) as nat, |k: int| value_text(c, k)));
        j = j + 1;
    }
    let mut r: Vec<char> = Vec::new();
    r.push('(');
    push_joined(&mut r, &parts, ",");
    r.push(')');
    assert(r@ =~= tuple_text(c));
    r
}

fn rebuild_insert_statement(original_stmt: &Vec<char>, configs: &[NacosServiceConfig]) -> (r:
    Result<Vec<char>, SqlError>)
    ensures
        match rebuilt_insert(original_stmt@, configs_model(configs@)) {
            Ok(t) => r matches Ok(v) && v@ == t,
            Err(e) => r == Err::<Vec<char>, SqlError>(e),
        },
{
    let (cols, _) = match parse_column_list(original_stmt) {
        Ok(x) => x,
        Err(e) => {
            return Err(e);
        },
    };
    let mut out: Vec<char> = Vec::new();
    extend_str(&mut out, "insert into config_info(");
    push_joined(&mut out, &cols, ", ");
    extend_str(&mut out, ") values ");
    let mut tuples: Vec<Vec<char>> = Vec::new();
    let mut i: usize = 0;
    let ghost cs = configs_model(configs@);
    while i < configs.len()
        invariant
            i <= configs.len(),
            cs == configs_model(configs@),
            vviews(tuples@) == cs.take(i as int).map_values(|c: ConfigModel| tuple_text(c)),
        decreases configs.len() - i,
    {
        let t = tuple_text_exec(&configs[i]);
        let ghost pb = tuples@;
        tuples.push(t);
        assert(tuples@ =~= pb.push(t));
        assert(vviews(tuples@) =~= vviews(pb).push(t@));
        assert(cs.take(i + 1) =~= cs.take(i as int).push(cs[i as int]));
        assert(vviews(tuples@) =~= cs.take(i + 1).map_values(|c: ConfigModel| tuple_text(c)));
        i = i + 1;
    }
    assert(cs.take(configs.len() as int) =~= cs);
    push_joined(&mut out, &tuples, ",");
    extend_str(&mut out, ";");
    Ok(out)
}

/// The text with every `config_info` INSERT removed.
pub open spec fn inserts_removed(s: Seq<char>) -> Seq<char>
    decreases s.len(),
{
    match insert_span(s, "config_info"@, 0) {
        Some((a, b)) => if 0 <= a < b <= s.len() {
            s.take(a) + inserts_removed(s.skip(b))
        } else {
            s
        },
        None => s,
    }
}

/// The script with its first `config_info` INSERT replaced by one holding
/// `configs`, and every later `config_info` INSERT (already merged into it)
/// removed.
pub open spec fn written_back(sql: Seq<char>, cs: Seq<ConfigModel>) -> Result<Seq<char>, SqlError> {
    match insert_span(sql, "config_info"@, 0) {
        None => Err(SqlError::NoInsert),
        Some((a, b)) => match rebuilt_insert(sql.subrange(a, b), cs) {
            Err(e) => Err(e),
            Ok(rb) => Ok(sql.take(a) + rb + inserts_removed(sql.skip(b))),
        },
    }
}

fn remove_inserts(s: &Vec<char>) -> (r: Vec<char>)
    ensures
        r@ == inserts_removed(s@),
{
    let mut out: Vec<char> = Vec::new();
    let mut rest = s.clone();
    assert(rest@ == s@);
    loop
        invariant_except_break
            out@ + inserts_removed(rest@) == inserts_removed(s@),
        ensures
            out@ + rest@ == inserts_removed(s@),
        decreases rest.len(),
    {
        proof {
            lemma_insert_span_bounds(rest@, "config_info"@, 0);
        }
        match find_insert_span(&rest, "config_info", 0) {
            Some((a, b)) => {
                let head = slice_chars(&rest, 0, a);
                let tail = slice_chars(&rest, b, rest.len());
                assert(head@ =~= rest@.take(a as int));
                assert(tail@ =~= rest@.skip(b as int));
                extend_chars(&mut out, &head);
                assert(out@ + inserts_removed(tail@) =~= inserts_removed(s@));
                rest = tail;
            },
            None => {
                assert(inserts_removed(rest@) == rest@);
                break;
            },
        }
    }
    extend_chars(&mut out, &rest);
    out
}

fn write_back_chars(sql: &Vec<char>, configs: &[NacosServiceConfig]) -> (r: Result<
    Vec<char>,
    SqlError,
>)
    ensures
        match written_back(sql@, configs_model(configs@)) {
            Ok(t) => r matches Ok(v) && v@ == t,
            Err(e) => r == Err::<Vec<char>, SqlError>(e),
        },
{
    proof {
        lemma_insert_span_bounds(sql@, "config_info"@, 0);
    }
    match find_insert_span(sql, "config_info", 0) {
        None => Err(SqlError::NoInsert),
        Some((a, b)) => {
            let stmt = slice_chars(sql, a, b);
            let rebuilt = match rebuild_insert_statement(&stmt, configs) {
                Ok(x) => x,
                Err(e) => {
                    return Err(e);
                },
            };
            let tail = slice_chars(sql, b, sql.len());
            let removed = remove_inserts(&tail);
            let mut result = slice_chars(sql, 0, a);
            extend_chars(&mut result, &rebuilt);
            extend_chars(&mut result, &removed);
            assert(tail@ =~= sql@.skip(b as int));
            Ok(result)
        },
    }
}

/// Writes `configs` back into the script text: the first `insert into config_info`
/// holds them all and the later ones are removed; the rest of the script is kept.
pub fn write_back_text(sql: &str, configs: &[NacosServiceConfig]) -> (r: Result<String, String>)
    ensures
        match written_back(sql@, configs_model(configs@)) {
            Ok(t) => r matches Ok(v) && v@ == t,
            Err(e) => r matches Err(m) && m@ == error_text(e),
        },
{
    let chars = chars_of(sql);
    match write_back_chars(&chars, configs) {
        Ok(v) => Ok(string_of(&v)),
        Err(e) => Err(e.message()),
    }
}

/// Parses one SQL value of `s` at character index `*i` and advances `*i` past it;
/// on an error `*i` is left past the whitespace and comments before the value.
pub fn parse_sql_value(s: &str, i: &mut usize) -> (r: Result<SqlValue, String>)
    ensures
        match value_at(s@, *old(i) as int) {
            Ok((v, next)) => r matches Ok(x) && x@ == v && *final(i) as int == next,
            Err(e) => r matches Err(m) && m@ == error_text(e),
        },
        r is Err ==> *final(i) as int == skip_ws_spec(s@, *old(i) as int),
{
    let chars = chars_of(s);
    if *i > chars.len() {
        assert(skip_ws_spec(s@, *i as int) == *i as int);
        return Err(SqlError::ExpectedValue.message());
    }
    match parse_value_chars(&chars, *i) {
        Ok((v, next)) => {
            *i = next;
            Ok(v)
        },
        Err(e) => {
            *i = skip_ws(&chars, *i);
            Err(e.message())
        },
    }
}

impl NacosServiceConfig {
    /// The raw (still escaped) string value in column `idx`, if that value is a string.
    pub fn string_value_at(&self, idx: usize) -> (r: Option<String>)
        ensures
            match str_value_at(self@.values, idx as int) {
                Some(v) => r matches Some(x) && x@ == v,
                None => r is None,
            },
    {
        match string_at(&self.values, idx) {
            Some(v) => Some(string_of(&v)),
            None => None,
        }
    }
}

/// Keys of the removed modules: trimmed, lowercased, empty ones dropped.
pub open spec fn removal_keys(remove: Seq<Seq<char>>) -> Seq<Seq<char>>
    decreases remove.len(),
{
    if remove.len() == 0 {
        Seq::empty()
    } else {
        let p = removal_keys(remove.drop_last());
        let k = lower(trim(remove.last()));
        if k.len() == 0 {
            p
        } else {
            p.push(k)
        }
    }
}

/// Whether the configuration `data_id` belongs to a removed module.
pub open spec fn dropped_id(data_id: Seq<char>, keys: Seq<Seq<char>>) -> bool {
    exists|k: int| 0 <= k < keys.len() && crate::nacos_yaml::drops_for_key(data_id, #[trigger] keys[k])
}

/// The content after the gateway routes and Sentinel rules of removed modules go.
pub open spec fn trimmed_content(data_id: Seq<char>, content: Seq<char>, keys: Seq<Seq<char>>) -> Seq<char> {
    let a = if crate::nacos_yaml::matches_profile(data_id, "gateway"@) {
        crate::nacos_yaml::routes_removed(content, keys)
    } else {
        content
    };
    let is_sentinel = crate::text::starts_with(lower(data_id), "sentinel-"@) && crate::text::contains(
        lower(data_id),
        "gateway"@,
    );
    if is_sentinel {
        crate::nacos_yaml::sentinel_removed(a, keys)
    } else {
        a
    }
}

/// A kept configuration after trimming: a changed content gets a new digest.
pub open spec fn trimmed_config(c: ConfigModel, keys: Seq<Seq<char>>) -> ConfigModel {
    let t = trimmed_content(c.data_id, c.content, keys);
    if t == c.content {
        c
    } else {
        with_content(c, t, crate::ext_calls::md5_hex_of(t))
    }
}

/// The configurations after trimming: entries of removed modules dropped, the
/// others trimmed, order kept.
pub open spec fn trim_configs(cs: Seq<ConfigModel>, keys: Seq<Seq<char>>) -> Seq<ConfigModel>
    decreases cs.len(),
{
    if cs.len() == 0 {
        Seq::empty()
    } else {
        let p = trim_configs(cs.drop_last(), keys);
        if dropped_id(cs.last().data_id, keys) {
            p
        } else {
            p.push(trimmed_config(cs.last(), keys))
        }
    }
}

/// Removes the configurations of removed modules, trims the gateway routes and
/// Sentinel rules of the kept ones, and returns how many entries went.
/// Without any removal key nothing changes.
pub fn trim_removed_modules(configs: &mut Vec<NacosServiceConfig>, remove: &Vec<String>) -> (r: usize)
    ensures
        ({
            let keys = removal_keys(crate::nacos_yaml::strings_model(remove@));
            if keys.len() == 0 {
                final(configs)@ == old(configs)@ && r == 0
            } else {
                &&& configs_model(final(configs)@) == trim_configs(configs_model(old(configs)@), keys)
                &&& r == old(configs)@.len() - final(configs)@.len()
            }
        }),
{
    let ghost rm = crate::nacos_yaml::strings_model(remove@);
    let mut keys: Vec<String> = Vec::new();
    let mut i: usize = 0;
    while i < remove.len()
        invariant
            i <= remove.len(),
            rm == crate::nacos_yaml::strings_model(remove@),
            crate::nacos_yaml::strings_model(keys@) == removal_keys(rm.take(i as int)),
        decreases remove.len() - i,
    {
        assert(rm.take(i + 1).drop_last() =~= rm.take(i as int));
        assert(rm.take(i + 1).last() == remove@[i as int]@);
        let k = lower_chars(&trim_chars(&chars_of(remove[i].as_str())));
        if k.len() > 0 {
            let ghost before = crate::nacos_yaml::strings_model(keys@);
            keys.push(string_of(&k));
            assert(crate::nacos_yaml::strings_model(keys@) =~= before.push(k@));
        }
        i = i + 1;
    }
    assert(rm.take(i as int) =~= rm);
    if keys.len() == 0 {
        return 0;
    }
    let ghost km = crate::nacos_yaml::strings_model(keys@);
    let ghost start = configs_model(configs@);
    let total: usize = configs.len();
    let ghost n0 = configs@.len();
    let mut rest: Vec<NacosServiceConfig> = Vec::new();
    std::mem::swap(configs, &mut rest);
    assert(start.skip(0) =~= start);
    assert(start.take(0) =~= Seq::<ConfigModel>::empty());
    let mut dropped: usize = 0;
    let ghost mut done: int = 0;
    while rest.len() > 0
        invariant
            0 <= done <= n0,
            n0 == total,
            start.len() == n0,
            km == crate::nacos_yaml::strings_model(keys@),
            km.len() > 0,
            configs_model(rest@) == start.skip(done),
            configs_model(configs@) == trim_configs(start.take(done), km),
            dropped + configs@.len() == done,
        decreases rest.len(),
    {
        let ghost rest0 = rest@;
        assert(configs_model(rest0).len() == rest0.len());
        assert(done < n0);
        let c = rest.remove(0);
        assert(rest@ =~= rest0.subrange(1, rest0.len() as int));
        assert(configs_model(rest0)[0] == c@);
        assert(start.skip(done)[0] == c@);
        assert(configs_model(rest@) =~= configs_model(rest0).skip(1));
        assert(configs_model(rest0).skip(1) =~= start.skip(done + 1));
        assert(start.take(done + 1).drop_last() =~= start.take(done));
        assert(start.take(done + 1).last() == c@);
        let drop = crate::nacos_yaml::should_drop_data_id(c.data_id.as_str(), keys.as_slice());
        assert(drop == dropped_id(c@.data_id, km)) by {
            if drop {
                let k = choose|k: int| 0 <= k < keys@.len() && crate::nacos_yaml::drops_for_key(c.data_id@, #[trigger] keys@[k]@);
                assert(km[k] == keys@[k]@);
            }
            if dropped_id(c@.data_id, km) {
                let k = choose|k: int| 0 <= k < km.len() && crate::nacos_yaml::drops_for_key(c@.data_id, #[trigger] km[k]);
                assert(km[k] == keys@[k]@);
            }
        }
        if drop {
            dropped = dropped + 1;
        } else {
            let mut c = c;
            let gateway = crate::nacos_yaml::is_gateway_yml(c.data_id.as_str());
            let sentinel = crate::nacos_yaml::is_sentinel_gateway(c.data_id.as_str());
            let a = if gateway {
                crate::nacos_yaml::remove_gateway_routes(c.content.as_str(), keys.as_slice())
            } else {
                String::from_str(c.content.as_str())
            };
            let b = if sentinel {
                crate::nacos_yaml::remove_sentinel_resources(a.as_str(), keys.as_slice())
            } else {
                a
            };
            let changed = !chars_eq_str(&b, &c.content);
            if changed {
                let digest = crate::ext_calls::md5_hex(b.as_str());
                c.set_content(b, digest);
            }
            let ghost before = configs_model(configs@);
            let ghost c_old = start.take(done + 1).last();
            assert(c@ == trimmed_config(c_old, km));
            configs.push(c);
            assert(configs_model(configs@) =~= before.push(trimmed_config(c_old, km)));
        }
        proof {
            done = done + 1;
        }
    }
    assert(start.take(n0 as int) =~= start);
    dropped
}

fn chars_eq_str(a: &String, b: &String) -> (r: bool)
    ensures
        r == (a@ == b@),
{
    crate::text::chars_eq(&chars_of(a.as_str()), &chars_of(b.as_str()))
}


// ---------------------------------------------------------------------------
// Reading back a written content literal
// ---------------------------------------------------------------------------

/// The body of a string literal that the string reader crosses to its end:
/// every `\` escapes the next character and no quote stands alone.
pub open spec fn literal_safe(x: Seq<char>) -> bool
    decreases x.len(),
{
    if x.len() == 0 {
        true
    } else if x[0] == '\\' {
        x.len() >= 2 && literal_safe(x.skip(2))
    } else if x[0] == '\'' {
        false
    } else {
        literal_safe(x.drop_first())
    }
}

proof fn lemma_literal_safe_concat(a: Seq<char>, b: Seq<char>)
    requires
        literal_safe(a),
        literal_safe(b),
    ensures
        literal_safe(a + b),
    decreases a.len(),
{
    if a.len() > 0 {
        if a[0] == '\\' {
            lemma_literal_safe_concat(a.skip(2), b);
            assert((a + b).skip(2) =~= a.skip(2) + b);
        } else {
            lemma_literal_safe_concat(a.drop_first(), b);
            assert((a + b).drop_first() =~= a.drop_first() + b);
        }
    } else {
        assert(a + b =~= b);
    }
}

proof fn lemma_str_close_skips(s: Seq<char>, i: int, j: int)
    requires
        0 <= i <= j <= s.len(),
        literal_safe(s.subrange(i, j)),
    ensures
        str_close(s, i) == str_close(s, j),
    decreases j - i,
{
    if i < j {
        let x = s.subrange(i, j);
        assert(x[0] == s[i]);
        if s[i] == '\\' {
            assert(x.skip(2) =~= s.subrange(i + 2, j));
            lemma_str_close_skips(s, i + 2, j);
        } else {
            assert(x.drop_first() =~= s.subrange(i + 1, j));
            lemma_str_close_skips(s, i + 1, j);
        }
    }
}

proof fn lemma_esc_quotes_safe(t: Seq<char>)
    requires
        no_backslash(t),
    ensures
        literal_safe(esc_quotes(t)),
    decreases t.len(),
{
    if t.len() > 0 {
        let tail = t.drop_first();
        lemma_esc_quotes_safe(tail);
        if t[0] == '\'' {
            assert(esc_quotes(t).skip(2) =~= esc_quotes(tail));
        } else {
            assert(esc_quotes(t).drop_first() =~= esc_quotes(tail));
        }
    }
}

proof fn lemma_esc_quotes_eq_safe(t: Seq<char>)
    requires
        no_backslash(t),
    ensures
        literal_safe(esc_quotes(esc_eq(t))),
    decreases t.len(),
{
    if t.len() > 0 {
        let tail = t.drop_first();
        lemma_esc_quotes_eq_safe(tail);
        let r = esc_quotes(esc_eq(tail));
        if t[0] == '=' {
            assert(esc_eq(t) == seq!['\\', '\\', '='] + esc_eq(tail));
            lemma_esc_quotes_append(seq!['\\', '\\', '='], esc_eq(tail));
            assert(esc_quotes(seq!['\\', '\\', '=']) =~= seq!['\\', '\\', '=']) by {
                reveal_with_fuel(esc_quotes, 4);
                assert(seq!['\\', '\\', '='].drop_first() =~= seq!['\\', '=']);
                assert(seq!['\\', '='].drop_first() =~= seq!['=']);
                assert(seq!['='].drop_first() =~= Seq::<char>::empty());
            }
            let w = seq!['\\', '\\', '='] + r;
            assert(w.skip(2) =~= seq!['='] + r);
            assert((seq!['='] + r).drop_first() =~= r);
            assert(literal_safe(seq!['='] + r));
            assert(literal_safe(w));
            assert(esc_quotes(esc_eq(t)) == w);
        } else if t[0] == '\'' {
            assert(esc_eq(t) == seq!['\''] + esc_eq(tail));
            lemma_esc_quotes_append(seq!['\''], esc_eq(tail));
            assert(esc_quotes(seq!['\'']) =~= seq!['\\', '\'']) by {
                reveal_with_fuel(esc_quotes, 2);
                assert(seq!['\''].drop_first() =~= Seq::<char>::empty());
            }
            assert((seq!['\\', '\''] + r).skip(2) =~= r);
            assert(literal_safe(seq!['\\', '\''] + r));
        } else {
            assert(esc_eq(t) == seq![t[0]] + esc_eq(tail));
            lemma_esc_quotes_append(seq![t[0]], esc_eq(tail));
            assert(esc_quotes(seq![t[0]]) =~= seq![t[0]]) by {
                reveal_with_fuel(esc_quotes, 2);
                assert(seq![t[0]].drop_first() =~= Seq::<char>::empty());
            }
            assert((seq![t[0]] + r).drop_first() =~= r);
            assert(literal_safe(seq![t[0]] + r));
        }
    }
}

proof fn lemma_no_backslash_sub(s: Seq<char>, a: int, b: int)
    requires
        no_backslash(s),
        0 <= a <= b <= s.len(),
    ensures
        no_backslash(s.subrange(a, b)),
{
    assert forall|k: int| 0 <= k < s.subrange(a, b).len() implies s.subrange(a, b)[k] != '\\' by {
        assert(s.subrange(a, b)[k] == s[a + k]);
    }
}

proof fn lemma_escaped_line_safe(line: Seq<char>)
    requires
        no_backslash(line),
    ensures
        literal_safe(esc_quotes(escape_cp_line(line))),
{
    if line_key(line) != "connectionProperties"@ {
        lemma_esc_quotes_safe(line);
    } else {
        match index_of(line, ':') {
            Some(i) => if 0 <= i < line.len() {
                let head = line.take(i);
                let tail = line.skip(i + 1);
                lemma_no_backslash_sub(line, 0, i);
                lemma_no_backslash_sub(line, i + 1, line.len() as int);
                assert(line.subrange(0, i) =~= head);
                assert(line.subrange(i + 1, line.len() as int) =~= tail);
                lemma_esc_quotes_append(head, seq![':']);
                lemma_esc_quotes_append(head + seq![':'], esc_eq(tail));
                assert forall|k: int| 0 <= k < (head + seq![':']).len() implies (head + seq![':'])[k] != '\\' by {
                    if k < head.len() {
                        assert((head + seq![':'])[k] == head[k]);
                    }
                }
                lemma_esc_quotes_safe(head + seq![':']);
                lemma_esc_quotes_eq_safe(tail);
                lemma_literal_safe_concat(esc_quotes(head + seq![':']), esc_quotes(esc_eq(tail)));
            } else {
                lemma_esc_quotes_safe(line);
            },
            None => {
                lemma_esc_quotes_safe(line);
            },
        }
    }
}

/// The escaped content of a text without backslashes is a safe literal body.
pub proof fn lemma_escape_safe(s: Seq<char>)
    requires
        no_backslash(s),
    ensures
        literal_safe(escape(s)),
    decreases s.len(),
{
    if s.len() > 0 {
        match index_of(s, '\n') {
            Some(i) => if 0 <= i < s.len() {
                lemma_no_backslash_sub(s, 0, i);
                lemma_no_backslash_sub(s, i + 1, s.len() as int);
                assert(s.subrange(0, i) =~= s.take(i));
                assert(s.subrange(i + 1, s.len() as int) =~= s.skip(i + 1));
                lemma_escaped_line_safe(s.take(i));
                lemma_escape_safe(s.skip(i + 1));
                let nl = seq!['\\', 'n'];
                assert(literal_safe(nl)) by {
                    reveal_with_fuel(literal_safe, 2);
                    assert(nl.skip(2) =~= Seq::<char>::empty());
                }
                lemma_literal_safe_concat(nl, escape(s.skip(i + 1)));
                lemma_literal_safe_concat(esc_quotes(escape_cp_line(s.take(i))), nl + escape(s.skip(i + 1)));
                assert(esc_quotes(escape_cp_line(s.take(i))) + (nl + escape(s.skip(i + 1)))
                    =~= esc_quotes(escape_cp_line(s.take(i))) + nl + escape(s.skip(i + 1)));
            } else {
                lemma_escaped_line_safe(s);
            },
            None => {
                lemma_escaped_line_safe(s);
            },
        }
    }
}

/// A safe body in quotes, followed by anything, is read as a string ending at
/// its closing quote.
pub proof fn lemma_read_quoted(body: Seq<char>, tail: Seq<char>)
    requires
        literal_safe(body),
    ensures
        value_at(seq!['\''] + body + seq!['\''] + tail, 0)
            == Ok::<(SqlValueModel, int), SqlError>((SqlValueModel::Str(body), body.len() as int + 2)),
{
    let s = seq!['\''] + body + seq!['\''] + tail;
    let e: int = body.len() as int + 1;
    assert(s[0] == '\'');
    assert(s.subrange(1, e) =~= body);
    lemma_str_close_skips(s, 1, e);
    assert(s[e] == '\'');
    assert(str_close(s, e) == Some(e));
    assert(sql_string_at(s, 0) == Ok::<(Seq<char>, int), SqlError>((body, e + 1)));
    assert(skip_ws_spec(s, 0) == 0) by {
        assert(!crate::text::is_ascii_ws(s[0]));
    }
    assert(!null_at(s, 0)) by {
        reveal_strlit("null");
        if 4 <= s.len() {
            assert(lower(s.subrange(0, 4))[0] == '\'');
        }
    }
}


/// Neither a backslash nor a quote occurs in `s`.
pub open spec fn plain_text(s: Seq<char>) -> bool {
    forall|k: int| 0 <= k < s.len() ==> s[k] != '\\' && s[k] != '\''
}

proof fn lemma_replace_absent(s: Seq<char>, c: char, to: Seq<char>)
    requires
        forall|k: int| 0 <= k < s.len() ==> s[k] != c,
    ensures
        replace_all(s, seq![c], to) == s,
    decreases s.len(),
{
    if s.len() > 0 {
        assert(s.take(1)[0] == s[0]);
        assert(!crate::text::starts_with(s, seq![c]));
        assert forall|k: int| 0 <= k < s.drop_first().len() implies s.drop_first()[k] != c by {
            assert(s.drop_first()[k] == s[k + 1]);
        }
        lemma_replace_absent(s.drop_first(), c, to);
        assert(seq![s[0]] + s.drop_first() =~= s);
    }
}

proof fn lemma_plain_safe(s: Seq<char>)
    requires
        plain_text(s),
    ensures
        literal_safe(s),
    decreases s.len(),
{
    if s.len() > 0 {
        assert forall|k: int| 0 <= k < s.drop_first().len() implies s.drop_first()[k] != '\\' && s.drop_first()[k] != '\'' by {
            assert(s.drop_first()[k] == s[k + 1]);
        }
        lemma_plain_safe(s.drop_first());
    }
}

/// Plain text is written as is inside its quotes, and the body is safe.
pub proof fn lemma_escape_plain_id(s: Seq<char>)
    requires
        plain_text(s),
    ensures
        escape_plain(s) == s,
        literal_safe(s),
{
    lemma_replace_absent(s, '\\', seq!['\\', '\\']);
    lemma_replace_absent(s, '\'', seq!['\\', '\'']);
    lemma_plain_safe(s);
}

} // verus!
