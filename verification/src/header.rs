//! HTTP headers as plain byte values, and legality of header names.

use vstd::prelude::*;

verus! {

/// One HTTP header: a name and a value, both held as raw bytes.
/// Duplicate names are meaningful, so headers travel as a `Vec<Header>`
/// rather than a map.
#[derive(Debug)]
pub struct Header {
    pub name: Vec<u8>,
    pub value: Vec<u8>,
}

/// The mathematical value of a header: both fields as byte sequences.
#[verifier::ext_equal]
pub ghost struct HeaderV {
    pub name: Seq<u8>,
    pub value: Seq<u8>,
}

impl View for Header {
    type V = HeaderV;

    open spec fn view(&self) -> HeaderV {
        HeaderV { name: self.name@, value: self.value@ }
    }
}

/// The views of a whole header list.
pub open spec fn views(hs: Seq<Header>) -> Seq<HeaderV> {
    hs.map_values(|h: Header| h@)
}

/// A byte allowed in an HTTP header name: the `tchar` set of RFC 7230
/// (letters, digits, and the fifteen listed punctuation marks).
pub open spec fn is_tchar(b: u8) -> bool {
    ||| (97 <= b && b <= 122)
    ||| (65 <= b && b <= 90)
    ||| (48 <= b && b <= 57)
    ||| b == 33 || b == 35 || b == 36 || b == 37 || b == 38
    ||| b == 39 || b == 42 || b == 43 || b == 45 || b == 46
    ||| b == 94 || b == 95 || b == 96 || b == 124 || b == 126
}

/// A legal header name: nonempty, and every byte a `tchar`.
pub open spec fn is_legal_name(n: Seq<u8>) -> bool {
    n.len() > 0 && all_tchars(n)
}

/// Every byte of `n` is a `tchar`.
pub open spec fn all_tchars(n: Seq<u8>) -> bool {
    forall|i: int| 0 <= i < n.len() ==> is_tchar(#[trigger] n[i])
}

/// Decides whether `b` may appear in a header name.
pub fn tchar(b: u8) -> (r: bool)
    ensures
        r == is_tchar(b),
{
    (97 <= b && b <= 122) || (65 <= b && b <= 90) || (48 <= b && b <= 57)
        || b == 33 || b == 35 || b == 36 || b == 37 || b == 38 || b == 39
        || b == 42 || b == 43 || b == 45 || b == 46 || b == 94 || b == 95
        || b == 96 || b == 124 || b == 126
}

/// Decides whether every byte of `n` may appear in a header name.
pub fn all_name_bytes_legal(n: &Vec<u8>) -> (r: bool)
    ensures
        r == all_tchars(n@),
{
    let mut i: usize = 0;
    while i < n.len()
        invariant
            0 <= i <= n@.len(),
            forall|j: int| 0 <= j < i ==> is_tchar(#[trigger] n@[j]),
        decreases n@.len() - i,
    {
        if !tchar(n[i]) {
            return false;
        }
        i = i + 1;
    }
    true
}

/// Decides whether `n` is a legal header name.
pub fn legal_name(n: &Vec<u8>) -> (r: bool)
    ensures
        r == is_legal_name(n@),
{
    n.len() > 0 && all_name_bytes_legal(n)
}

} // verus!
