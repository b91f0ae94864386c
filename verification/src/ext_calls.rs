//! Calls into outside crates, each behind a contract that Verus takes on trust.
use vstd::prelude::*;
use md5::Digest;

verus! {

/// What `regex::Regex::new(pattern)` followed by `is_match(text)` answers:
/// `None` when the pattern does not compile.
pub uninterp spec fn regex_match(pattern: Seq<char>, text: Seq<char>) -> Option<bool>;

/// Compiles `pattern` with `regex::Regex::new` and tests `text` with `Regex::is_match`.
/// The contract only names the answer: it depends on the pattern and the text alone.
#[verifier::external_body]
pub(crate) fn regex_is_match(pattern: &str, text: &str) -> (r: Option<bool>)
    ensures
        r == regex_match(pattern@, text@),
{
    match regex::Regex::new(pattern) {
        Ok(re) => Some(re.is_match(text)),
        Err(_) => None,
    }
}

/// The Unicode lowercase of a text, as `str::to_lowercase` gives it.
pub uninterp spec fn lowercase_of(text: Seq<char>) -> Seq<char>;

/// `str::to_lowercase`. Its documentation defines the result by the Unicode
/// `Lowercase` mapping of each character (with a context rule for final sigma);
/// the contract only names it: it depends on the text alone.
#[verifier::external_body]
pub(crate) fn to_lowercase(s: &str) -> (r: String)
    ensures
        r@ == lowercase_of(s@),
{
    s.to_lowercase()
}

/// Whether a YAML text parses (`None` when it does not) and has a value at
/// the key path `k1`, `k2` and, when given, `k3`.
pub uninterp spec fn yaml_key_path_of(text: Seq<char>, k1: Seq<char>, k2: Seq<char>, k3: Option<Seq<char>>) -> Option<bool>;

/// `serde_yaml::from_str::<serde_yaml::Value>` followed by `Value::get` along
/// the keys. The contract only names the answer: it depends on the text and
/// the keys alone.
#[verifier::external_body]
pub(crate) fn yaml_key_path(text: &str, k1: &str, k2: &str, k3: Option<&str>) -> (r: Option<bool>)
    ensures
        r == yaml_key_path_of(text@, k1@, k2@, match k3 {
            Some(k) => Some(k@),
            None => None,
        }),
{
    let v = match serde_yaml::from_str::<serde_yaml::Value>(text) {
        Ok(v) => v,
        Err(_) => return None,
    };
    let second = v.get(k1).and_then(|a| a.get(k2));
    match k3 {
        Some(k) => Some(second.and_then(|b| b.get(k)).is_some()),
        None => Some(second.is_some()),
    }
}

/// The lowercase hex MD5 digest of the UTF-8 bytes of a text.
pub uninterp spec fn md5_hex_of(text: Seq<char>) -> Seq<char>;

/// `md5::Md5::digest` of the text's UTF-8 bytes, formatted as lowercase hex.
/// The contract only names the result: it depends on the text alone.
#[verifier::external_body]
pub fn md5_hex(s: &str) -> (r: String)
    ensures
        r@ == md5_hex_of(s@),
{
    format!("{:x}", md5::Md5::digest(s.as_bytes()))
}

/// `chrono::Local::now().format("%Y")`: the current local year as text. Which
/// year depends on the clock and the time zone and is not stated; chrono
/// documents `%Y` as zero-padded to at least four digits (with a sign outside
/// 1 to 9999), so the text has at least four characters.
#[verifier::external_body]
pub(crate) fn current_year() -> (r: String)
    ensures
        r@.len() >= 4,
{
    chrono::Local::now().format("%Y").to_string()
}

/// `std::str::from_utf8`, copied into a `String`. The documentation says the call
/// fails exactly when the bytes are not valid UTF-8 (Unicode table 3-7), and the
/// text is then the characters the bytes encode, in order.
#[verifier::external_body]
pub(crate) fn utf8_text(bytes: &[u8]) -> (r: Option<String>)
    ensures
        r is Some <==> crate::encoding::valid_utf8(bytes@),
        r matches Some(s) ==> s@ == crate::encoding::utf8_chars(bytes@),
{
    match std::str::from_utf8(bytes) {
        Ok(s) => Some(s.to_string()),
        Err(_) => None,
    }
}

/// What `encoding_rs::GBK.decode(bytes)` gives: the decoded text and whether
/// malformed sequences were met.
pub uninterp spec fn gbk_decoded(bytes: Seq<u8>) -> (Seq<char>, bool);

/// `encoding_rs::GBK.decode`: the decoded text and its had-errors flag (the
/// detected encoding is dropped). The contract only names the result: it depends
/// on the bytes alone.
#[verifier::external_body]
pub(crate) fn gbk_decode(bytes: &[u8]) -> (r: (String, bool))
    ensures
        (r.0@, r.1) == gbk_decoded(bytes@),
{
    let (text, _, had_errors) = encoding_rs::GBK.decode(bytes);
    (text.into_owned(), had_errors)
}

/// The elements of a JSON array text: each element's `resource` string (when it
/// has one) and its compact JSON text; `None` when the text is not a JSON array.
pub uninterp spec fn json_array_items_of(text: Seq<char>) -> Option<Seq<(Option<Seq<char>>, Seq<char>)>>;

/// The views of the array elements returned by `json_array_items`.
pub open spec fn item_views(v: Seq<(Option<String>, String)>) -> Seq<(Option<Seq<char>>, Seq<char>)> {
    v.map_values(|p: (Option<String>, String)| (match p.0 {
        Some(s) => Some(s@),
        None => None,
    }, p.1@))
}

/// `serde_json::from_str::<serde_json::Value>`; for an array, each element's
/// `resource` string field (`Value::get` then `as_str`) and the element written
/// back with `Value::to_string`. The contract only names the result: it depends
/// on the text alone.
#[verifier::external_body]
pub(crate) fn json_array_items(text: &str) -> (r: Option<Vec<(Option<String>, String)>>)
    ensures
        r is None ==> json_array_items_of(text@) is None,
        r matches Some(v) ==> json_array_items_of(text@) == Some(item_views(v@)),
{
    match serde_json::from_str::<serde_json::Value>(text) {
        Ok(serde_json::Value::Array(arr)) => Some(
            arr.iter().map(|v| (v.get("resource").and_then(|x| x.as_str()).map(|s| s.to_string()), v.to_string())).collect(),
        ),
        _ => None,
    }
}

/// One match of a regex scan: the text before it (since the previous match),
/// the matched text and the texts of capture groups 1, 2, ... (`None` for a
/// group that did not take part).
pub type RegexPiece = (String, String, Vec<Option<String>>);

/// The view of one regex piece.
pub type PieceModel = (Seq<char>, Seq<char>, Seq<Option<Seq<char>>>);

/// The views of optional group texts.
pub open spec fn group_views(v: Seq<Option<String>>) -> Seq<Option<Seq<char>>> {
    v.map_values(|g: Option<String>| match g {
        Some(x) => Some(x@),
        None => None,
    })
}

/// The views of regex pieces.
pub open spec fn piece_views(v: Seq<RegexPiece>) -> Seq<PieceModel> {
    v.map_values(|p: RegexPiece| (p.0@, p.1@, group_views(p.2@)))
}

/// The text rebuilt from its regex pieces: each gap and match in turn, then the tail.
pub open spec fn pieces_text(ps: Seq<PieceModel>, tail: Seq<char>) -> Seq<char>
    decreases ps.len(),
{
    if ps.len() == 0 {
        tail
    } else {
        ps[0].0 + ps[0].1 + pieces_text(ps.drop_first(), tail)
    }
}

/// What scanning `text` with `regex::Regex::new(pattern)` gives: the successive
/// non-overlapping matches (as `captures_iter` and `replace_all` find them) and the
/// text after the last one; `None` when the pattern does not compile.
pub uninterp spec fn regex_pieces_of(pattern: Seq<char>, text: Seq<char>) -> Option<(Seq<PieceModel>, Seq<char>)>;

/// `regex::Regex::new(pattern)` then `captures_iter(text)`, cut into pieces: for
/// each match the text before it, the match and its groups, then the rest.
/// The matches are only named; the contract adds that the pieces put back
/// together give the text, as the matches are successive, non-overlapping
/// spans of it.
#[verifier::external_body]
pub(crate) fn regex_pieces(pattern: &str, text: &str) -> (r: Option<(Vec<RegexPiece>, String)>)
    ensures
        r is None <==> regex_pieces_of(pattern@, text@) is None,
        r matches Some(x) ==> regex_pieces_of(pattern@, text@) == Some((piece_views(x.0@), x.1@))
            && pieces_text(piece_views(x.0@), x.1@) == text@,
{
    let re = regex::Regex::new(pattern).ok()?;
    let mut pieces = Vec::new();
    let mut last: usize = 0;
    for caps in re.captures_iter(text) {
        let m = caps.get(0).unwrap();
        let groups = (1..caps.len()).map(|k| caps.get(k).map(|g| g.as_str().to_string())).collect();
        pieces.push((text[last..m.start()].to_string(), m.as_str().to_string(), groups));
        last = m.end();
    }
    Some((pieces, text[last..].to_string()))
}

/// What `bcrypt::verify(plain, hash)` answers: `Some(true)` when the hash is
/// one of the password, `Some(false)` when not, `None` when the hash is
/// malformed (it depends on the password and the hash alone).
pub uninterp spec fn bcrypt_verified_of(plain: Seq<char>, hash: Seq<char>) -> Option<bool>;

/// `bcrypt::verify(plain, hash)`: splits the hash into version, cost, salt and
/// digest, hashes the password again with that cost and salt, and compares.
/// The contract names the answer; an error (a malformed hash) is `None`.
#[verifier::external_body]
pub(crate) fn bcrypt_verify(plain: &str, hash: &str) -> (r: Option<bool>)
    ensures
        r == bcrypt_verified_of(plain@, hash@),
{
    bcrypt::verify(plain, hash).ok()
}

/// `bcrypt::hash_with_result(plain, 10)` formatted with `format_for_version(Version::TwoA)`;
/// an error is carried as its text. The salt is random, so only the shape is
/// stated: `$2a$10$` followed by the 53 characters of salt and hash (60 in all),
/// as the crate writes it, and that `bcrypt::verify` accepts the password
/// against it (verify re-hashes the password with the hash's own cost and salt).
#[verifier::external_body]
pub(crate) fn bcrypt_2a_cost10(plain: &str) -> (r: Result<String, String>)
    ensures
        r matches Ok(h) ==> h@.len() == 60 && h@.take(7) == "$2a$10$"@,
        r matches Ok(h) ==> bcrypt_verified_of(plain@, h@) == Some(true),
{
    match bcrypt::hash_with_result(plain, 10) {
        Ok(parts) => Ok(parts.format_for_version(bcrypt::Version::TwoA)),
        Err(e) => Err(e.to_string()),
    }
}

/// What `char::to_uppercase` yields for a character.
pub uninterp spec fn upper_of(c: char) -> Seq<char>;

/// `char::to_uppercase`, collected. The Unicode mapping is only named.
#[verifier::external_body]
pub(crate) fn char_to_uppercase(c: char) -> (r: String)
    ensures
        r@ == upper_of(c),
{
    c.to_uppercase().collect::<String>()
}

} // verus!
