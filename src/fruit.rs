use vstd::prelude::*;

verus! {

/// The fruits of the guessing game, in the order they are listed.
pub open spec fn fruits() -> Seq<Seq<char>> {
    seq!["apple"@, "banana"@, "cherry"@, "pineapple"@, "watermelon"@]
}

/// Number of fruits the guessing game knows.
pub const FRUIT_COUNT: usize = 5;

fn fruit_name(i: usize) -> (r: &'static str)
    requires
        i < FRUIT_COUNT,
    ensures
        r@ == fruits()[i as int],
{
    match i {
        0 => "apple",
        1 => "banana",
        2 => "cherry",
        3 => "pineapple",
        _ => "watermelon",
    }
}

/// Whether `name` is exactly one of the known fruits.
pub fn is_a_fruit(name: &str) -> (r: bool)
    ensures
        r == fruits().contains(name@),
{
    let wanted = String::from_str(name);
    let mut i: usize = 0;
    while i < FRUIT_COUNT
        invariant
            i <= FRUIT_COUNT,
            wanted@ == name@,
            forall|j: int| 0 <= j < i ==> fruits()[j] != name@,
        decreases FRUIT_COUNT - i,
    {
        let fruit = String::from_str(fruit_name(i));
        if fruit == wanted {
            assert(fruits()[i as int] == name@);
            return true;
        }
        i += 1;
    }
    false
}

} // verus!
