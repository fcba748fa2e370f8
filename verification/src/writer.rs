//! Buffer writer: encodes a domain string into a host-owned fixed buffer,
//! truncating silently and always leaving a terminated C string behind, and
//! never touching a byte at or past the declared capacity.

use vstd::prelude::*;

use crate::domain::domain_bytes;

verus! {

/// How many data bytes a write copies: the whole text when it fits, else the
/// longest prefix that still leaves room for the terminator.
pub open spec fn copy_len(text: Seq<u8>, capacity: nat) -> nat
    recommends
        capacity >= 1,
{
    if text.len() <= capacity - 1 {
        text.len()
    } else {
        (capacity - 1) as nat
    }
}

/// Encodes `text` into the first `capacity` bytes of `buf` as a terminated C
/// string and returns the number of data bytes written, terminator excluded.
///
/// The write succeeds exactly when `text` is a domain string (ASCII, no
/// terminator byte) and the capacity leaves room for at least the terminator;
/// a zero capacity is guarded explicitly. Truncation is silent: a text longer
/// than `capacity - 1` loses its tail. On failure nothing is written, and on
/// success no byte past the terminator changes.
pub fn write(text: &Vec<u8>, buf: &mut Vec<u8>, capacity: usize) -> (r: Option<usize>)
    requires
        capacity <= old(buf).len(),
    ensures
        r is Some <==> domain_bytes(text@) && capacity >= 1,
        r is None ==> final(buf)@ == old(buf)@,
        r is Some ==> ({
            let n = copy_len(text@, capacity as nat) as int;
            &&& r == Some(n as usize)
            &&& final(buf)@.len() == old(buf)@.len()
            &&& forall|i: int| 0 <= i < n ==> final(buf)@[i] == text@[i]
            &&& final(buf)@[n] == 0
            &&& forall|i: int| n < i < old(buf)@.len() ==> final(buf)@[i] == old(buf)@[i]
        }),
{
    if capacity == 0 {
        return None;
    }
    if !crate::domain::is_domain(text) {
        return None;
    }
    let n: usize = if text.len() <= capacity - 1 {
        text.len()
    } else {
        capacity - 1
    };
    let mut i: usize = 0;
    while i < n
        invariant
            n == copy_len(text@, capacity as nat),
            n < capacity <= old(buf)@.len(),
            0 <= i <= n <= text@.len(),
            buf@.len() == old(buf)@.len(),
            forall|j: int| 0 <= j < i ==> buf@[j] == text@[j],
            forall|j: int| i <= j < old(buf)@.len() ==> buf@[j] == old(buf)@[j],
        decreases n - i,
    {
        let b = text[i];
        buf.set(i, b);
        i = i + 1;
    }
    buf.set(n, 0);
    Some(n)
}

} // verus!
