use vstd::prelude::*;
use vstd::string::StringExecFns;

verus! {

/// `a == b` on string slices (`impl PartialEq for str`): true exactly when both hold the
/// same characters.
#[verifier::external_body]
pub(crate) fn str_eq(a: &str, b: &str) -> (r: bool)
    ensures
        r == (a@ == b@),
{
    a == b
}

/// The number that a decimal numeral stands for, where it fits 64 bits.
pub uninterp spec fn decimal_value(text: Seq<char>) -> Option<u64>;

/// `str::parse::<u64>`: the number that `text` stands for, if `text` is a decimal numeral
/// of a number that fits 64 bits.
#[verifier::external_body]
pub(crate) fn parse_u64(text: &str) -> (r: Option<u64>)
    ensures
        r == decimal_value(text@),
{
    text.parse::<u64>().ok()
}

/// A text without the white space at its two ends.
pub uninterp spec fn trimmed(text: Seq<char>) -> Seq<char>;

/// `str::trim`: `text` without leading and trailing white space.
#[verifier::external_body]
pub(crate) fn trim(text: &str) -> (r: String)
    ensures
        r@ == trimmed(text@),
{
    text.trim().to_owned()
}

/// The pieces of a text, put together again with `separator` between them.
pub open spec fn joined(pieces: Seq<Seq<char>>, separator: char) -> Seq<char>
    decreases pieces.len(),
{
    if pieces.len() == 0 {
        Seq::empty()
    } else if pieces.len() == 1 {
        pieces[0]
    } else {
        joined(pieces.drop_last(), separator) + seq![separator] + pieces.last()
    }
}

/// True if `pieces` are the parts of `text` between its occurrences of `separator`.
pub open spec fn splits(pieces: Seq<Seq<char>>, text: Seq<char>, separator: char) -> bool {
    &&& pieces.len() >= 1
    &&& joined(pieces, separator) == text
    &&& forall|i: int| 0 <= i < pieces.len() ==> !(#[trigger] pieces[i]).contains(separator)
}

/// The characters of each string of a list.
pub open spec fn texts(v: Seq<String>) -> Seq<Seq<char>> {
    Seq::new(v.len(), |i: int| v[i]@)
}

/// `str::split` with a character as the pattern: the parts of `text` between its
/// occurrences of `separator`, in their order. A text without the separator is its own
/// single part.
#[verifier::external_body]
pub(crate) fn split(text: &str, separator: char) -> (r: Vec<String>)
    ensures
        splits(texts(r@), text@, separator),
{
    text.split(separator).map(|piece| piece.to_owned()).collect()
}

/// `prefix` followed by `rest`.
pub fn join(prefix: &str, rest: &str) -> (r: String)
    ensures
        r@ == prefix@ + rest@,
{
    let mut out = String::from_str(prefix);
    out.append(rest);
    out
}

/// The characters of an optional string.
pub open spec fn opt_text(o: Option<String>) -> Option<Seq<char>> {
    match o {
        Some(s) => Some(s@),
        None => None,
    }
}

/// A copy of an optional string.
pub fn clone_opt_text(o: &Option<String>) -> (r: Option<String>)
    ensures
        opt_text(r) == opt_text(*o),
{
    match o {
        Some(s) => Some(s.clone()),
        None => None,
    }
}

} // verus!
