//! Argument decoder: turns a host-owned array of byte strings into an owned
//! sequence of validated domain strings, all or nothing — one bad entry fails
//! the whole list and no partial result is produced.

use vstd::prelude::*;

use crate::domain::DomainString;
use crate::domain::copy_bytes;
use crate::domain::domain_bytes;

verus! {

/// Why an argument list failed to decode: the first entry that is not a
/// domain string, by position.
#[derive(Clone, Copy, Debug, PartialEq, Eq, Structural)]
pub struct DecodeError {
    pub index: usize,
}

/// Decodes every entry of a host-supplied argument list, in order.
///
/// Succeeds exactly when every entry is a domain string, and then returns one
/// owned domain string per entry, equal in content and order to the inputs.
/// If any entry fails, the whole list fails with the position of the first
/// bad entry and no partial sequence is produced.
pub fn decode(args: &Vec<Vec<u8>>) -> (r: Result<Vec<DomainString>, DecodeError>)
    ensures
        r is Ok <==> (forall|i: int| 0 <= i < args@.len() ==> domain_bytes(args@[i]@)),
        r matches Ok(out) ==> {
            &&& out@.len() == args@.len()
            &&& forall|i: int| 0 <= i < args@.len() ==> out@[i]@ == args@[i]@ && out@[i].wf()
        },
        r matches Err(e) ==> {
            &&& e.index < args@.len()
            &&& !domain_bytes(args@[e.index as int]@)
            &&& forall|i: int| 0 <= i < e.index ==> domain_bytes(args@[i]@)
        },
{
    let mut out: Vec<DomainString> = Vec::new();
    let mut i: usize = 0;
    while i < args.len()
        invariant
            0 <= i <= args@.len(),
            out@.len() == i,
            forall|j: int| 0 <= j < i ==> domain_bytes(args@[j]@),
            forall|j: int| 0 <= j < i ==> out@[j]@ == args@[j]@ && out@[j].wf(),
        decreases args@.len() - i,
    {
        let bytes = copy_bytes(&args[i]);
        match DomainString::new(bytes) {
            Some(d) => {
                out.push(d);
            },
            None => {
                return Err(DecodeError { index: i });
            },
        }
        i = i + 1;
    }
    Ok(out)
}

} // verus!
