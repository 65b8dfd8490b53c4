//! The addresses of owned data, which views hold in place of the data.

use vstd::prelude::*;

verus! {

/// `Vec::as_ptr`, taken as a number: the address of the vector's buffer.
/// Nothing is claimed of it: it is whatever the allocator gave.
#[verifier::external_body]
pub(crate) fn vec_addr<T>(v: &Vec<T>) -> (addr: usize) {
    v.as_ptr() as usize
}

/// `String::as_ptr`, taken as a number: the address of the string's bytes.
/// Nothing is claimed of it: it is whatever the allocator gave.
#[verifier::external_body]
pub(crate) fn string_addr(s: &String) -> (addr: usize) {
    s.as_ptr() as usize
}

} // verus!
