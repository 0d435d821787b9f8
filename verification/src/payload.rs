//! Payloads: the byte sequences the harness writes and reads back. A fresh
//! payload is drawn from the process-wide random source; a constant payload
//! serves deterministic checks; comparison is by value, byte for byte.

use vstd::prelude::*;

verus! {

/// Relies on `rand::random::<u8>`: one byte drawn from the thread-local
/// generator. Nothing can be promised of a random value.
#[verifier::external_body]
fn random_byte() -> u8 {
    rand::random::<u8>()
}

/// A fresh payload of `len` random bytes, one per write operation.
pub fn random_payload(len: usize) -> (p: Vec<u8>)
    ensures
        p@.len() == len,
{
    let mut p: Vec<u8> = Vec::new();
    let mut i: usize = 0;
    while i < len
        invariant
            i <= len,
            p@.len() == i,
        decreases len - i,
    {
        p.push(random_byte());
        i = i + 1;
    }
    p
}

/// A payload of `len` copies of one byte value.
pub fn constant_payload(value: u8, len: usize) -> (p: Vec<u8>)
    ensures
        p@.len() == len,
        forall|i: int| 0 <= i < len ==> p@[i] == value,
{
    let mut p: Vec<u8> = Vec::new();
    let mut i: usize = 0;
    while i < len
        invariant
            i <= len,
            p@.len() == i,
            forall|j: int| 0 <= j < i ==> p@[j] == value,
        decreases len - i,
    {
        p.push(value);
        i = i + 1;
    }
    p
}

/// Byte-for-byte equality of two payloads: the comparison at the heart of
/// every verification round.
pub fn payloads_equal(a: &Vec<u8>, b: &Vec<u8>) -> (r: bool)
    ensures
        r == (a@ == b@),
{
    if a.len() != b.len() {
        return false;
    }
    let mut i: usize = 0;
    while i < a.len()
        invariant
            i <= a@.len(),
            a@.len() == b@.len(),
            forall|j: int| 0 <= j < i ==> a@[j] == b@[j],
        decreases a@.len() - i,
    {
        if a[i] != b[i] {
            return false;
        }
        i = i + 1;
    }
    proof {
        assert(a@ =~= b@);
    }
    true
}

} // verus!
