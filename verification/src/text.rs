use vstd::prelude::*;

verus! {

/// The character of a decimal digit.
pub open spec fn digit_char(d: nat) -> char {
    (48 + d) as char
}

/// The decimal representation of a natural number, most significant digit first,
/// without leading zeros (zero itself is "0").
pub open spec fn decimal(n: nat) -> Seq<char>
    decreases n,
{
    if n < 10 {
        seq![digit_char(n)]
    } else {
        decimal(n / 10).push(digit_char(n % 10))
    }
}

/// The text of a boolean as Rust displays it.
pub open spec fn bool_text(b: bool) -> Seq<char> {
    if b {
        "true"@
    } else {
        "false"@
    }
}

/// Unicode lower-casing of a text, as `str::to_lowercase` computes it.
pub uninterp spec fn lowercase(s: Seq<char>) -> Seq<char>;

/// The decimal text of a `usize`, as `usize`'s `Display` writes it
/// (the std documentation: decimal digits, no sign, no padding).
#[verifier::external_body]
pub(crate) fn usize_to_string(n: usize) -> (s: String)
    ensures
        s@ == decimal(n as nat),
{
    n.to_string()
}

/// The decimal text of a `u64`, as `u64`'s `Display` writes it.
#[verifier::external_body]
pub(crate) fn u64_to_string(n: u64) -> (s: String)
    ensures
        s@ == decimal(n as nat),
{
    n.to_string()
}

/// `str::to_lowercase`: the text with every character lower-cased by Unicode's rules,
/// which take pages to state; the result is named `lowercase` of the input.
#[verifier::external_body]
pub(crate) fn to_lowercase(s: &str) -> (r: String)
    ensures
        r@ == lowercase(s@),
{
    s.to_lowercase()
}

/// The text of a boolean: "true" or "false".
pub fn bool_to_string(b: bool) -> (s: String)
    ensures
        s@ == bool_text(b),
{
    if b {
        String::from_str("true")
    } else {
        String::from_str("false")
    }
}

/// `a` followed by `b`, as a new string.
pub fn concat_text(a: &str, b: &str) -> (s: String)
    ensures
        s@ == a@ + b@,
{
    let mut s = String::from_str(a);
    s.append(b);
    s
}

/// Joining a path onto a directory, as `Path::join` does on Unix: an absolute
/// path replaces the directory; otherwise a separator is put between the two
/// unless the directory is empty or already ends in one.
pub open spec fn path_join(dir: Seq<char>, path: Seq<char>) -> Seq<char> {
    if path.len() > 0 && path[0] == '/' {
        path
    } else if dir.len() == 0 || dir[dir.len() - 1] == '/' {
        dir + path
    } else {
        dir + "/"@ + path
    }
}

/// A path's first character, if any.
fn first_char(s: &str) -> (c: Option<char>)
    ensures
        s@.len() == 0 ==> c is None,
        s@.len() > 0 ==> c == Some(s@[0]),
{
    if s.unicode_len() == 0 {
        None
    } else {
        Some(s.get_char(0))
    }
}

/// Joins `path` onto `dir` (see `path_join`).
pub fn join_path(dir: &str, path: &str) -> (r: String)
    ensures
        r@ == path_join(dir@, path@),
{
    proof {
        reveal_strlit("/");
    }
    let first = first_char(path);
    if first == Some('/') {
        return String::from_str(path);
    }
    let n = dir.unicode_len();
    if n == 0 || dir.get_char(n - 1) == '/' {
        concat_text(dir, path)
    } else {
        let with_sep = concat_text(dir, "/");
        let r = concat_text(with_sep.as_str(), path);
        r
    }
}

} // verus!

verus! {

/// Whether two texts are the same.
pub fn str_eq(a: &str, b: &str) -> (r: bool)
    ensures
        r == (a@ == b@),
{
    let x = String::from_str(a);
    let y = String::from_str(b);
    x == y
}

} // verus!
