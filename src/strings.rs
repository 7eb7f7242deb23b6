use vstd::prelude::*;
use vstd::utf8::{
    encode_utf8, encode_utf8_valid_utf8, is_char_boundary, length_of_first_scalar,
    pop_first_scalar, valid_utf8,
};

verus! {

/// In a valid UTF-8 encoding with character boundaries `i <= j`, the
/// offset `j - i` is a character boundary of the bytes from `i` on.
proof fn lemma_boundary_of_suffix(b: Seq<u8>, i: int, j: int)
    requires
        valid_utf8(b),
        is_char_boundary(b, i),
        is_char_boundary(b, j),
        i <= j,
    ensures
        is_char_boundary(b.subrange(i, b.len() as int), j - i),
    decreases i,
{
    if i == 0 {
        assert(b.subrange(0, b.len() as int) =~= b);
    } else {
        reveal_with_fuel(is_char_boundary, 2);
        let first = length_of_first_scalar(b);
        let rest = pop_first_scalar(b);
        lemma_boundary_of_suffix(rest, i - first, j - first);
        assert(rest.subrange(i - first, rest.len() as int) =~= b.subrange(i, b.len() as int));
    }
}

/// The part of `string` from byte `start` up to byte `end`. Both offsets
/// must fall on character boundaries, in order.
pub fn substring<'a>(string: &'a String, start: &usize, end: &usize) -> (r: &'a str)
    requires
        *start <= *end <= encode_utf8(string@).len(),
        is_char_boundary(encode_utf8(string@), *start as int),
        is_char_boundary(encode_utf8(string@), *end as int),
    ensures
        encode_utf8(r@) == encode_utf8(string@).subrange(*start as int, *end as int),
{
    let whole = string.as_str();
    let ghost bytes = encode_utf8(string@);
    proof {
        encode_utf8_valid_utf8(string@);
        lemma_boundary_of_suffix(bytes, *start as int, *end as int);
    }
    let (_, tail) = whole.split_at(*start);
    let (piece, _) = tail.split_at(*end - *start);
    assert(encode_utf8(piece@) =~= bytes.subrange(*start as int, *end as int));
    piece
}

/// A freshly allocated string holding "hello".
pub fn gives_ownership() -> (r: String)
    ensures
        r@ == "hello"@,
{
    String::from_str("hello")
}

/// Hands the string it was given back to the caller, unchanged.
pub fn takes_and_gives_back(a_string: String) -> (r: String)
    ensures
        r == a_string,
{
    a_string
}

/// The length of `s` in bytes of its UTF-8 encoding.
pub fn calculate_length(s: &String) -> (r: usize)
    ensures
        r == encode_utf8(s@).len(),
{
    s.as_str().as_bytes().len()
}

/// Appends "hehe, hacked" to the string behind `target`.
pub fn hack_a_string(target: &mut String)
    ensures
        final(target)@ == old(target)@ + "hehe, hacked"@,
{
    target.append("hehe, hacked");
}

} // verus!
