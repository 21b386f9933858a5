//! Text helpers shared by the rest of the library.

use vstd::prelude::*;
use vstd::string::*;

verus! {

/// `String::push` appends the one character `ch` to `text` and leaves what was
/// there before untouched.
pub assume_specification[ String::push ](text: &mut String, ch: char)
    ensures
        final(text)@ == old(text)@.push(ch),
;

/// The characters of `text`, in order.
pub fn chars_of(text: &str) -> (chars: Vec<char>)
    ensures
        chars@ == text@,
{
    broadcast use vstd::string::group_string_axioms;

    let mut chars: Vec<char> = Vec::new();
    for c in it: text.chars()
        invariant
            it.seq() == text@,
            chars@ == text@.take(it.index() as int),
    {
        chars.push(c);
    }
    chars
}

/// Whether two pieces of text hold the same characters.
pub fn same_text(left: &str, right: &str) -> (same: bool)
    ensures
        same == (left@ == right@),
{
    let a = left.to_owned();
    let b = right.to_owned();
    a == b
}

/// The views of a list of strings.
pub open spec fn texts(items: Seq<String>) -> Seq<Seq<char>> {
    items.map_values(|item: String| item@)
}

/// The view of a string that may be absent.
pub open spec fn optional_text(text: Option<String>) -> Option<Seq<char>> {
    match text {
        Some(inner) => Some(inner@),
        None => None,
    }
}

/// Position of the first occurrence of `wanted` in `items`, or the length of
/// `items` when it does not occur.
pub open spec fn first_index<T>(items: Seq<T>, wanted: T) -> nat
    decreases items.len(),
{
    if items.len() == 0 {
        0
    } else if items[0] == wanted {
        0
    } else {
        1 + first_index(items.skip(1), wanted)
    }
}

/// `first_index` is a position in `items` or its length, nothing before it
/// equals `wanted`, and the item at it does.
pub proof fn lemma_first_index<T>(items: Seq<T>, wanted: T)
    ensures
        0 <= first_index(items, wanted) <= items.len(),
        first_index(items, wanted) < items.len() ==> items[first_index(items, wanted) as int]
            == wanted,
        forall|i: int| 0 <= i < first_index(items, wanted) ==> items[i] != wanted,
    decreases items.len(),
{
    if items.len() > 0 && items[0] != wanted {
        let rest = items.skip(1);
        lemma_first_index(rest, wanted);
        assert forall|i: int| 0 <= i < first_index(items, wanted) implies items[i] != wanted by {
            if i > 0 {
                assert(rest[i - 1] == items[i]);
            }
        }
    }
}

/// Whether `unwanted` occurs nowhere in `items`.
pub open spec fn lacks<T>(items: Seq<T>, unwanted: T) -> bool {
    forall|i: int| 0 <= i < items.len() ==> items[i] != unwanted
}

/// A concatenation lacks an item exactly when both parts lack it.
pub proof fn lemma_lacks_concat<T>(left: Seq<T>, right: Seq<T>, unwanted: T)
    ensures
        lacks(left + right, unwanted) <==> lacks(left, unwanted) && lacks(right, unwanted),
{
    let whole = left + right;
    if lacks(whole, unwanted) {
        assert forall|i: int| 0 <= i < left.len() implies left[i] != unwanted by {
            assert(whole[i] == left[i]);
        }
        assert forall|i: int| 0 <= i < right.len() implies right[i] != unwanted by {
            assert(whole[i + left.len()] == right[i]);
        }
    }
    if lacks(left, unwanted) && lacks(right, unwanted) {
        assert forall|i: int| 0 <= i < whole.len() implies whole[i] != unwanted by {
            if i < left.len() {
                assert(whole[i] == left[i]);
            } else {
                assert(whole[i] == right[i - left.len()]);
            }
        }
    }
}

/// A position that holds `wanted` and has no `wanted` before it is the first one.
pub proof fn lemma_first_index_is<T>(items: Seq<T>, wanted: T, at: int)
    requires
        0 <= at <= items.len(),
        at < items.len() ==> items[at] == wanted,
        forall|i: int| 0 <= i < at ==> items[i] != wanted,
    ensures
        first_index(items, wanted) == at,
{
    lemma_first_index(items, wanted);
    let found = first_index(items, wanted) as int;
    if found < at {
        assert(items[found] != wanted);
    } else if found > at {
        assert(items[at] != wanted);
    }
}

/// The character for the decimal digit `digit`, which is below ten.
pub open spec fn digit_char(digit: nat) -> char {
    ((48 + digit) as u8) as char
}

/// The decimal notation of `number`, without sign or leading zeros.
pub open spec fn decimal_text(number: nat) -> Seq<char>
    decreases number,
{
    if number < 10 {
        seq![digit_char(number)]
    } else {
        decimal_text(number / 10).push(digit_char(number % 10))
    }
}

/// Appends the decimal notation of `number` to `out`.
pub fn push_decimal(out: &mut String, number: u64)
    ensures
        final(out)@ == old(out)@ + decimal_text(number as nat),
    decreases number,
{
    if number >= 10 {
        push_decimal(out, number / 10);
    }
    let digit: u8 = (number % 10) as u8;
    out.push((48u8 + digit) as char);
    proof {
        let n = number as nat;
        if n < 10 {
            assert(old(out)@.push(digit_char(n)) =~= old(out)@ + decimal_text(n));
        } else {
            assert((old(out)@ + decimal_text(n / 10)).push(digit_char(n % 10)) =~= old(out)@
                + decimal_text(n));
        }
    }
}

/// The decimal notation of `number` as a string.
pub fn decimal_string(number: u64) -> (text: String)
    ensures
        text@ == decimal_text(number as nat),
{
    let mut text = String::new();
    push_decimal(&mut text, number);
    assert(Seq::<char>::empty() + decimal_text(number as nat) =~= decimal_text(number as nat));
    text
}

} // verus!
