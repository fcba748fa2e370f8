//! Domain strings: byte sequences restricted to the ASCII range and free of
//! interior terminator bytes, the only text values the boundary passes on.

use vstd::prelude::*;

verus! {

/// The byte lies in the ASCII range.
pub open spec fn ascii_byte(b: u8) -> bool {
    b < 128
}

/// Every byte of the sequence lies in the ASCII range.
pub open spec fn ascii_bytes(s: Seq<u8>) -> bool {
    forall|i: int| 0 <= i < s.len() ==> ascii_byte(s[i])
}

/// No byte of the sequence is the C-string terminator.
pub open spec fn terminator_free(s: Seq<u8>) -> bool {
    forall|i: int| 0 <= i < s.len() ==> s[i] != 0
}

/// The bytes of a domain string: ASCII and free of terminator bytes.
pub open spec fn domain_bytes(s: Seq<u8>) -> bool {
    ascii_bytes(s) && terminator_free(s)
}

/// Decides whether the bytes form a domain string.
pub fn is_domain(s: &Vec<u8>) -> (r: bool)
    ensures
        r == domain_bytes(s@),
{
    let mut i: usize = 0;
    while i < s.len()
        invariant
            0 <= i <= s@.len(),
            forall|j: int| 0 <= j < i ==> ascii_byte(s@[j]) && s@[j] != 0,
        decreases s@.len() - i,
    {
        let b = s[i];
        if b >= 128 || b == 0 {
            return false;
        }
        i = i + 1;
    }
    true
}

/// Copies the bytes into a fresh owned vector.
pub fn copy_bytes(src: &Vec<u8>) -> (r: Vec<u8>)
    ensures
        r@ == src@,
{
    let mut out: Vec<u8> = Vec::new();
    let mut i: usize = 0;
    while i < src.len()
        invariant
            0 <= i <= src@.len(),
            out@ == src@.subrange(0, i as int),
        decreases src@.len() - i,
    {
        out.push(src[i]);
        proof {
            assert(out@ =~= src@.subrange(0, i as int + 1));
        }
        i = i + 1;
    }
    proof {
        assert(out@ =~= src@);
    }
    out
}

/// An owned, validated domain string: the value the decoder produces and the
/// rest of the extension computes with.
#[derive(Debug)]
pub struct DomainString {
    bytes: Vec<u8>,
}

impl View for DomainString {
    type V = Seq<u8>;

    closed spec fn view(&self) -> Seq<u8> {
        self.bytes@
    }
}

impl DomainString {
    /// The view always satisfies the domain-string restriction: every
    /// constructor validates before it builds a value.
    pub open spec fn wf(&self) -> bool {
        domain_bytes(self@)
    }

    /// Validates the bytes and takes ownership of them; rejects any byte
    /// outside the ASCII range or equal to the terminator.
    pub fn new(bytes: Vec<u8>) -> (r: Option<DomainString>)
        ensures
            r is Some <==> domain_bytes(bytes@),
            r is Some ==> r.unwrap()@ == bytes@ && r.unwrap().wf(),
    {
        if is_domain(&bytes) {
            Some(DomainString { bytes })
        } else {
            None
        }
    }

    /// The validated bytes.
    pub fn as_bytes(&self) -> (r: &Vec<u8>)
        ensures
            r@ == self@,
    {
        &self.bytes
    }

    /// The number of bytes, terminator excluded (a domain string holds none).
    pub fn len(&self) -> (r: usize)
        ensures
            r == self@.len(),
    {
        self.bytes.len()
    }
}

} // verus!
