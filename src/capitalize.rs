use vstd::prelude::*;

verus! {

/// The characters that std's Unicode uppercase mapping gives for `c`.
pub uninterp spec fn upper_of(c: char) -> Seq<char>;

/// Relies on `char::to_uppercase`: the full Unicode uppercase mapping of one
/// character, which std documents as yielding one or more characters.
#[verifier::external_body]
fn uppercase_char(c: char) -> (r: String)
    ensures
        r@ == upper_of(c),
        r@.len() >= 1,
{
    c.to_uppercase().collect()
}

/// `s` with its first character replaced by that character's uppercase
/// mapping; every other character is kept as it is.
pub open spec fn capitalized(s: Seq<char>) -> Seq<char> {
    if s.len() == 0 {
        s
    } else {
        upper_of(s[0]) + s.subrange(1, s.len() as int)
    }
}

/// A character that uppercasing leaves as it is.
pub open spec fn upper_stable(c: char) -> bool {
    upper_of(c) == seq![c]
}

/// Uppercases the first character of `line` and leaves the rest untouched.
/// An empty line comes back empty.
pub fn capitalize(line: &str) -> (r: String)
    ensures
        r@ == capitalized(line@),
{
    let n = line.unicode_len();
    if n == 0 {
        return String::new();
    }
    let first = line.get_char(0);
    let mut out = uppercase_char(first);
    let rest = line.substring_char(1, n);
    out.append(rest);
    out
}

/// A line whose first character is its own uppercase form is left as it is.
pub proof fn lemma_capitalize_stable(s: Seq<char>)
    requires
        s.len() > 0,
        upper_stable(s[0]),
    ensures
        capitalized(s) == s,
{
    assert(capitalized(s) =~= s);
}

/// Capitalizing twice gives what capitalizing once gives, whenever the first
/// character produced by the first pass is its own uppercase form.
pub proof fn lemma_capitalize_idempotent(s: Seq<char>)
    requires
        capitalized(s).len() > 0 ==> upper_stable(capitalized(s)[0]),
    ensures
        capitalized(capitalized(s)) == capitalized(s),
{
    if capitalized(s).len() > 0 {
        lemma_capitalize_stable(capitalized(s));
    }
}

} // verus!
