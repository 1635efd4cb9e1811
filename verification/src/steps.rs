//! The pure parts of the scripted demonstration sequence: message selection,
//! counting-loop lines, the filter-map transformation, and optional handling.
//! Printing the results is left to the caller.

use vstd::prelude::*;
use vstd::string::StringExecFns;
use crate::numfmt::dec_digits;
use crate::numfmt::dec_int;
use crate::numfmt::u32_to_string;
use crate::numfmt::i32_to_string;

verus! {

/// The message of the three-way conditional, a pure function of its input:
/// one fixed line for each of greater than three, equal to three, below three.
pub fn classify(x: i32) -> (r: String)
    ensures
        x > 3 ==> r@ == "x is greater than 3"@,
        x == 3 ==> r@ == "x is 3"@,
        x < 3 ==> r@ == "x is less than 3"@,
{
    if x > 3 {
        String::from_str("x is greater than 3")
    } else if x == 3 {
        String::from_str("x is 3")
    } else {
        String::from_str("x is less than 3")
    }
}

/// The message of the multi-way match: "one" and "two" exactly for one and
/// two, and the fallback for every other value.
pub fn match_message(x: i32) -> (r: String)
    ensures
        x == 1 ==> r@ == "one"@,
        x == 2 ==> r@ == "two"@,
        x != 1 && x != 2 ==> r@ == "something else"@,
{
    match x {
        1 => String::from_str("one"),
        2 => String::from_str("two"),
        _ => String::from_str("something else"),
    }
}

/// The lines of the counting loop: one line `i is <i>` for each value from
/// zero up to, and excluding, `count`.
pub fn loop_lines(count: u32) -> (r: Vec<String>)
    ensures
        r@.len() == count as nat,
        forall|j: int| 0 <= j < count ==> r@[j]@ == "i is "@ + dec_digits(j as nat),
{
    let mut r: Vec<String> = Vec::new();
    let mut i: u32 = 0;
    while i < count
        invariant
            i <= count,
            r@.len() == i as nat,
            forall|j: int| 0 <= j < i ==> r@[j]@ == "i is "@ + dec_digits(j as nat),
        decreases count - i,
    {
        let line = String::from_str("i is ").concat(u32_to_string(i).as_str());
        r.push(line);
        i = i + 1;
    }
    r
}

/// The elements of the filter-map transformation: the even elements of the
/// input, in their original order, each squared (the squares truncated to
/// the machine integer, which under `even_squares`'s precondition changes
/// nothing).
pub open spec fn even_squares_spec(s: Seq<i32>) -> Seq<i32>
    decreases s.len(),
{
    if s.len() == 0 {
        Seq::empty()
    } else {
        let rest = even_squares_spec(s.drop_last());
        if s.last() % 2 == 0 {
            rest.push((s.last() * s.last()) as i32)
        } else {
            rest
        }
    }
}

/// Filters the even elements and squares each, keeping the original order.
pub fn even_squares(numbers: &Vec<i32>) -> (r: Vec<i32>)
    requires
        forall|j: int| 0 <= j < numbers@.len() ==> numbers@[j] * numbers@[j] <= i32::MAX,
    ensures
        r@ == even_squares_spec(numbers@),
{
    let mut r: Vec<i32> = Vec::new();
    let mut i: usize = 0;
    while i < numbers.len()
        invariant
            i <= numbers@.len(),
            forall|j: int| 0 <= j < numbers@.len() ==> numbers@[j] * numbers@[j] <= i32::MAX,
            r@ == even_squares_spec(numbers@.take(i as int)),
        decreases numbers@.len() - i,
    {
        let n = numbers[i];
        if n % 2 == 0 {
            proof {
                assert(numbers@[i as int] * numbers@[i as int] <= i32::MAX);
                assert(n as int * n as int >= 0) by (nonlinear_arith);
            }
            r.push(n * n);
        }
        proof {
            assert(numbers@.take(i as int + 1).drop_last() =~= numbers@.take(i as int));
            assert(r@ =~= even_squares_spec(numbers@.take(i as int + 1)));
        }
        i = i + 1;
    }
    proof {
        assert(numbers@.take(numbers@.len() as int) =~= numbers@);
    }
    r
}

/// The line of the optional-value step: for a present value, the fixed prefix
/// followed by the value's decimal text; for an absent value, no line.
pub fn option_line(maybe_value: Option<i32>) -> (r: Option<String>)
    ensures
        maybe_value matches Some(v) ==> (r matches Some(line) && line@ == "The value is "@
            + dec_int(v as int)),
        maybe_value is None ==> r is None,
{
    match maybe_value {
        Some(v) => Some(String::from_str("The value is ").concat(i32_to_string(v).as_str())),
        None => None,
    }
}

} // verus!
