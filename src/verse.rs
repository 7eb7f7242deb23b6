use vstd::prelude::*;
use crate::capitalize::{capitalize, capitalized};

verus! {

/// Number of verses, and of entries in each of the two word tables.
pub const DAYS: usize = 12;

/// The ordinal word of day `i + 1`.
pub open spec fn ordinal(i: int) -> Seq<char> {
    if i == 0 {
        "first"@
    } else if i == 1 {
        "second"@
    } else if i == 2 {
        "third"@
    } else if i == 3 {
        "fourth"@
    } else if i == 4 {
        "fifth"@
    } else if i == 5 {
        "sixth"@
    } else if i == 6 {
        "seventh"@
    } else if i == 7 {
        "eighth"@
    } else if i == 8 {
        "ninth"@
    } else if i == 9 {
        "tenth"@
    } else if i == 10 {
        "eleventh"@
    } else {
        "twelfth"@
    }
}

/// The gift first given on day `i + 1`.
pub open spec fn gift(i: int) -> Seq<char> {
    if i == 0 {
        "a partridge in a pear tree"@
    } else if i == 1 {
        "two turtle doves"@
    } else if i == 2 {
        "three French hens"@
    } else if i == 3 {
        "four calling birds"@
    } else if i == 4 {
        "five gold rings"@
    } else if i == 5 {
        "six geese a laying"@
    } else if i == 6 {
        "seven swans a swimming"@
    } else if i == 7 {
        "eight maids a milking"@
    } else if i == 8 {
        "nine ladies dancing"@
    } else if i == 9 {
        "ten lords a leaping"@
    } else if i == 10 {
        "eleven pipers piping"@
    } else {
        "twelve drummers drumming"@
    }
}

pub open spec fn valid_day(day: int) -> bool {
    1 <= day <= DAYS
}

/// The opening line of a verse, before capitalization.
pub open spec fn opening(day: int) -> Seq<char> {
    "on the "@ + ordinal(day - 1) + " day of Christmas"@
}

/// The second line of a verse, before capitalization: the ninth day has a
/// refrain of its own.
pub open spec fn refrain(day: int) -> Seq<char> {
    if day == 9 {
        "me me me me me me"@
    } else {
        "my true love gave to me"@
    }
}

/// The gift line for gift `i` in the verse of `day`, before capitalization:
/// in a verse of more than one day the partridge comes last, after "And ".
pub open spec fn gift_line(day: int, i: int) -> Seq<char> {
    if day > 1 && i == 0 {
        "And "@ + gift(0)
    } else {
        gift(i)
    }
}

/// Every line of the verse of `day`: the opening, the refrain, the gifts
/// from the newest (day `day`) down to the partridge, each capitalized, and
/// one empty line that separates this verse from the next.
pub open spec fn verse_lines(day: int) -> Seq<Seq<char>> {
    seq![capitalized(opening(day)), capitalized(refrain(day))]
        + Seq::new(day as nat, |j: int| capitalized(gift_line(day, day - 1 - j)))
        + seq![Seq::<char>::empty()]
}

/// The text of each line of a rendered verse.
pub open spec fn texts(lines: Seq<String>) -> Seq<Seq<char>> {
    lines.map_values(|l: String| l@)
}

/// A day outside 1 to 12 has no verse.
#[derive(Debug, Clone, Copy, PartialEq, Eq, Structural)]
pub struct OutOfRangeError {
    pub day: i32,
}

/// What rendering the verse of `day` gives: the verse's lines for a valid
/// day, and an error that names the day for any other.
pub open spec fn renders(day: i32, r: Result<Vec<String>, OutOfRangeError>) -> bool {
    match r {
        Ok(lines) => valid_day(day as int) && texts(lines@) == verse_lines(day as int),
        Err(e) => !valid_day(day as int) && e.day == day,
    }
}

fn ordinal_word(i: usize) -> (r: &'static str)
    requires
        i < DAYS,
    ensures
        r@ == ordinal(i as int),
{
    match i {
        0 => "first",
        1 => "second",
        2 => "third",
        3 => "fourth",
        4 => "fifth",
        5 => "sixth",
        6 => "seventh",
        7 => "eighth",
        8 => "ninth",
        9 => "tenth",
        10 => "eleventh",
        _ => "twelfth",
    }
}

fn gift_word(i: usize) -> (r: &'static str)
    requires
        i < DAYS,
    ensures
        r@ == gift(i as int),
{
    match i {
        0 => "a partridge in a pear tree",
        1 => "two turtle doves",
        2 => "three French hens",
        3 => "four calling birds",
        4 => "five gold rings",
        5 => "six geese a laying",
        6 => "seven swans a swimming",
        7 => "eight maids a milking",
        8 => "nine ladies dancing",
        9 => "ten lords a leaping",
        10 => "eleven pipers piping",
        _ => "twelve drummers drumming",
    }
}

/// Renders the verse of `day` as its lines, in the order they are sung,
/// ending with an empty separator line. A day outside 1 to 12 is refused.
pub fn render_verse(day: i32) -> (r: Result<Vec<String>, OutOfRangeError>)
    ensures
        renders(day, r),
{
    if day < 1 || day > 12 {
        return Err(OutOfRangeError { day });
    }
    let n = day as usize;
    let ghost d = day as int;
    let mut lines: Vec<String> = Vec::new();

    let mut open_line = String::from_str("on the ");
    open_line.append(ordinal_word(n - 1));
    open_line.append(" day of Christmas");
    lines.push(capitalize(open_line.as_str()));

    if day == 9 {
        lines.push(capitalize("me me me me me me"));
    } else {
        lines.push(capitalize("my true love gave to me"));
    }

    let mut k: usize = 0;
    while k < n
        invariant
            n == d,
            valid_day(d),
            k <= n,
            lines@.len() == 2 + k,
            forall|j: int| 0 <= j < lines@.len() ==> lines@[j]@ == verse_lines(d)[j],
        decreases n - k,
    {
        let i = n - 1 - k;
        if n > 1 && i == 0 {
            let mut line = String::from_str("And ");
            line.append(gift_word(0));
            lines.push(capitalize(line.as_str()));
        } else {
            lines.push(capitalize(gift_word(i)));
        }
        k += 1;
    }
    lines.push(String::new());
    assert(texts(lines@) =~= verse_lines(d));
    Ok(lines)
}

/// Renders all twelve verses, day 1 first, each as `render_verse` gives it.
pub fn render_song() -> (r: Vec<Vec<String>>)
    ensures
        r@.len() == DAYS,
        forall|k: int| 0 <= k < DAYS ==> texts(#[trigger] r@[k]@) == verse_lines(k + 1),
{
    let mut song: Vec<Vec<String>> = Vec::new();
    let mut day: i32 = 1;
    while day <= 12
        invariant
            1 <= day <= 13,
            song@.len() == day - 1,
            forall|k: int| 0 <= k < song@.len() ==> texts(#[trigger] song@[k]@) == verse_lines(k + 1),
        decreases 13 - day,
    {
        match render_verse(day) {
            Ok(lines) => song.push(lines),
            Err(_) => {},
        }
        day += 1;
    }
    song
}

/// A verse has an opening line, a refrain, one line per day so far, and
/// the empty separator line.
pub proof fn lemma_verse_line_count(day: int)
    requires
        valid_day(day),
    ensures
        verse_lines(day).len() == day + 3,
{
}

/// Rendering is a function of the day alone: any two renderings of one day
/// agree, line for line, or fail alike.
pub proof fn lemma_render_deterministic(
    day: i32,
    first: Result<Vec<String>, OutOfRangeError>,
    second: Result<Vec<String>, OutOfRangeError>,
)
    requires
        renders(day, first),
        renders(day, second),
    ensures
        first is Ok <==> second is Ok,
        first is Ok ==> texts(first->Ok_0@) == texts(second->Ok_0@),
        first is Err ==> first->Err_0.day == second->Err_0.day,
{
}

} // verus!
