//! Contracts for the standard-library calls that the library relies on and
//! that are taken on trust rather than proved.

use std::collections::VecDeque;
use vstd::prelude::*;

verus! {

/// `String::push` appends the given character to the end of the string and
/// leaves the characters before it as they were.
pub assume_specification[ String::push ](s: &mut String, ch: char)
    ensures
        final(s)@ == old(s)@.push(ch),
;

/// `VecDeque::get_mut` lends out the element at `index`, counted from the
/// front, and nothing where `index` is not below the length. Whatever the
/// borrower leaves in the element stands at `index` afterwards; no other
/// element changes.
#[verifier::external_body]
pub(crate) fn deque_get_mut<T>(v: &mut VecDeque<T>, index: usize) -> (element: Option<&mut T>)
    ensures
        index >= old(v)@.len() ==> element is None && final(v)@ == old(v)@,
        index < old(v)@.len() ==> element is Some && *element.unwrap() == old(v)@[index as int]
            && final(v)@ == old(v)@.update(index as int, *final(element.unwrap())),
{
    v.get_mut(index)
}

} // verus!
