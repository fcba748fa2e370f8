//! Callback invoker, native half: validates the three strings bound for the
//! host callback and builds three independently owned, terminated buffers.
//! If any string fails validation, no payload is produced and the callback
//! must not be called, so the host never observes a partial invocation. Once
//! the payload is handed to the callback, ownership of all three buffers
//! passes to the host and native code must not free, read, or reuse them.

use vstd::prelude::*;

use crate::domain::copy_bytes;
use crate::domain::domain_bytes;
use crate::domain::is_domain;

verus! {

/// A byte sequence ready to cross the boundary as one C string: a domain
/// string followed by exactly one terminator byte.
pub open spec fn terminated(s: Seq<u8>) -> bool {
    &&& s.len() >= 1
    &&& s[s.len() - 1] == 0
    &&& domain_bytes(s.subrange(0, s.len() - 1))
}

/// The three buffers of one callback invocation, in argument order.
pub struct CallbackPayload {
    pub name: Vec<u8>,
    pub func: Vec<u8>,
    pub data: Vec<u8>,
}

impl CallbackPayload {
    /// Every buffer is a terminated domain string.
    pub open spec fn wf(&self) -> bool {
        &&& terminated(self.name@)
        &&& terminated(self.func@)
        &&& terminated(self.data@)
    }
}

/// Copies the bytes and appends the terminator.
fn terminate(s: &Vec<u8>) -> (r: Vec<u8>)
    ensures
        r@ == s@.push(0u8),
{
    let mut out = copy_bytes(s);
    out.push(0u8);
    out
}

/// Builds the payload of one callback invocation from the three strings, or
/// refuses it whole.
///
/// Succeeds exactly when all three strings are domain strings (ASCII, free of
/// terminator bytes); each buffer then holds its string followed by one
/// terminator. On failure no buffer is built, so a caller that invokes the
/// callback only with a payload in hand never makes a partial or malformed
/// invocation.
pub fn prepare(name: &Vec<u8>, func: &Vec<u8>, data: &Vec<u8>) -> (r: Option<CallbackPayload>)
    ensures
        r is Some <==> domain_bytes(name@) && domain_bytes(func@) && domain_bytes(data@),
        r matches Some(p) ==> {
            &&& p.name@ == name@.push(0u8)
            &&& p.func@ == func@.push(0u8)
            &&& p.data@ == data@.push(0u8)
            &&& p.wf()
        },
{
    if !is_domain(name) || !is_domain(func) || !is_domain(data) {
        return None;
    }
    let p = CallbackPayload { name: terminate(name), func: terminate(func), data: terminate(data) };
    proof {
        assert(p.name@.subrange(0, p.name@.len() - 1) =~= name@);
        assert(p.func@.subrange(0, p.func@.len() - 1) =~= func@);
        assert(p.data@.subrange(0, p.data@.len() - 1) =~= data@);
    }
    Some(p)
}

} // verus!
