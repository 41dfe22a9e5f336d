//! The header codec: the bidirectional renaming scheme that tunnels
//! arbitrary headers through a transport that only passes headers it
//! recognizes.
//!
//! Going outbound every header name gains a fixed prefix; coming inbound
//! the prefix is stripped, and any header without it is a transport
//! control header and is dropped rather than leaked to the local caller.

use vstd::prelude::*;
use crate::header::{Header, HeaderV, views, all_tchars, is_legal_name, all_name_bytes_legal,
    legal_name};
use vstd::slice::slice_to_vec;

verus! {

/// The fixed tunnel prefix, `cf-ew-raw-`, as bytes.
pub open spec fn tunnel_prefix() -> Seq<u8> {
    seq![99u8, 102u8, 45u8, 101u8, 119u8, 45u8, 114u8, 97u8, 119u8, 45u8]
}

/// The tunnel prefix as an owned byte vector.
pub fn tunnel_prefix_vec() -> (v: Vec<u8>)
    ensures
        v@ == tunnel_prefix(),
{
    let mut v: Vec<u8> = Vec::new();
    v.push(99);
    v.push(102);
    v.push(45);
    v.push(101);
    v.push(119);
    v.push(45);
    v.push(114);
    v.push(97);
    v.push(119);
    v.push(45);
    proof {
        assert(v@ =~= tunnel_prefix());
    }
    v
}

/// An outbound name: the tunnel prefix followed by the original name.
pub open spec fn encode_name(n: Seq<u8>) -> Seq<u8> {
    tunnel_prefix() + n
}

/// An outbound header: name prefixed, value untouched.
pub open spec fn encode_header(h: HeaderV) -> HeaderV {
    HeaderV { name: encode_name(h.name), value: h.value }
}

/// A header whose prefixed name is a legal header name. The prefix itself
/// is made of legal bytes, so only the original name's bytes can offend;
/// an empty original name still yields the (legal) bare prefix.
pub open spec fn encodable(h: HeaderV) -> bool {
    all_tchars(h.name)
}

/// Every header of the set can be encoded.
pub open spec fn all_encodable(hs: Seq<HeaderV>) -> bool {
    forall|i: int| 0 <= i < hs.len() ==> encodable(#[trigger] hs[i])
}

/// What encoding does to a whole header set, element by element.
pub open spec fn encode_headers(hs: Seq<HeaderV>) -> Seq<HeaderV> {
    hs.map_values(|h: HeaderV| encode_header(h))
}

/// The name carries the tunnel prefix.
pub open spec fn has_tunnel_prefix(n: Seq<u8>) -> bool {
    n.len() >= tunnel_prefix().len() && n.take(tunnel_prefix().len() as int) == tunnel_prefix()
}

/// The name with the tunnel prefix removed.
pub open spec fn strip_name(n: Seq<u8>) -> Seq<u8> {
    n.skip(tunnel_prefix().len() as int)
}

/// An inbound header: name stripped, value untouched.
pub open spec fn decode_header(h: HeaderV) -> HeaderV {
    HeaderV { name: strip_name(h.name), value: h.value }
}

/// An inbound header that survives decoding: it carries the prefix and the
/// stripped name is still a legal header name.
pub open spec fn keeps_header(h: HeaderV) -> bool {
    has_tunnel_prefix(h.name) && is_legal_name(strip_name(h.name))
}

/// An inbound header that carries the prefix but whose stripped name is
/// illegal: it is dropped, and its presence is reported to the caller.
pub open spec fn warns_header(h: HeaderV) -> bool {
    has_tunnel_prefix(h.name) && !is_legal_name(strip_name(h.name))
}

/// What decoding delivers for a whole header set: the surviving headers,
/// stripped, in their original relative order.
pub open spec fn decode_headers(hs: Seq<HeaderV>) -> Seq<HeaderV>
    decreases hs.len(),
{
    if hs.len() == 0 {
        Seq::<HeaderV>::empty()
    } else {
        let rest = decode_headers(hs.drop_last());
        if keeps_header(hs.last()) {
            rest.push(decode_header(hs.last()))
        } else {
            rest
        }
    }
}

/// The names that decoding drops with a warning: prefixed, but illegal
/// once stripped.
pub open spec fn decode_warnings(hs: Seq<HeaderV>) -> Seq<Seq<u8>>
    decreases hs.len(),
{
    if hs.len() == 0 {
        Seq::<Seq<u8>>::empty()
    } else {
        let rest = decode_warnings(hs.drop_last());
        if warns_header(hs.last()) {
            rest.push(hs.last().name)
        } else {
            rest
        }
    }
}

/// The views of a list of dropped names.
pub open spec fn name_views(ns: Seq<Vec<u8>>) -> Seq<Seq<u8>> {
    ns.map_values(|n: Vec<u8>| n@)
}

proof fn lemma_views_push(s: Seq<Header>, h: Header)
    ensures
        views(s.push(h)) == views(s).push(h@),
{
    assert(views(s.push(h)) =~= views(s).push(h@));
}

proof fn lemma_encode_push(s: Seq<HeaderV>, x: HeaderV)
    ensures
        encode_headers(s.push(x)) == encode_headers(s).push(encode_header(x)),
{
    assert(encode_headers(s.push(x)) =~= encode_headers(s).push(encode_header(x)));
}

proof fn lemma_decode_push(s: Seq<HeaderV>, x: HeaderV)
    ensures
        keeps_header(x) ==> decode_headers(s.push(x)) == decode_headers(s).push(decode_header(x)),
        !keeps_header(x) ==> decode_headers(s.push(x)) == decode_headers(s),
        warns_header(x) ==> decode_warnings(s.push(x)) == decode_warnings(s).push(x.name),
        !warns_header(x) ==> decode_warnings(s.push(x)) == decode_warnings(s),
{
    assert(s.push(x).drop_last() =~= s);
    assert(s.push(x).last() == x);
}

proof fn lemma_name_views_push(s: Seq<Vec<u8>>, n: Vec<u8>)
    ensures
        name_views(s.push(n)) == name_views(s).push(n@),
{
    assert(name_views(s.push(n)) =~= name_views(s).push(n@));
}

/// An encoded header always survives decoding, because the prefix it just
/// gained is stripped again and the remaining name is the original one.
proof fn lemma_encoded_keeps(h: HeaderV)
    requires
        is_legal_name(h.name),
    ensures
        keeps_header(encode_header(h)),
        decode_header(encode_header(h)) == h,
{
    assert((tunnel_prefix() + h.name).take(tunnel_prefix().len() as int) =~= tunnel_prefix());
    assert(strip_name(encode_name(h.name)) =~= h.name);
    assert(decode_header(encode_header(h)) =~~= h);
}

/// Law: the codec round-trips. For any header set whose names are legal
/// header names (so they remain legal once prefixed), decoding the encoded
/// set yields the original set, order, duplicates and values included.
pub proof fn lemma_round_trip(hs: Seq<HeaderV>)
    requires
        forall|i: int| 0 <= i < hs.len() ==> is_legal_name(#[trigger] hs[i].name),
    ensures
        decode_headers(encode_headers(hs)) == hs,
    decreases hs.len(),
{
    if hs.len() == 0 {
        assert(encode_headers(hs) =~= Seq::<HeaderV>::empty());
        assert(decode_headers(encode_headers(hs)) =~= hs);
    } else {
        let pre = hs.drop_last();
        assert(forall|i: int| 0 <= i < pre.len() ==> is_legal_name(#[trigger] pre[i].name));
        lemma_round_trip(pre);
        assert(pre.push(hs.last()) =~= hs);
        lemma_encode_push(pre, hs.last());
        lemma_encoded_keeps(hs.last());
        lemma_decode_push(encode_headers(pre), encode_header(hs.last()));
        assert(decode_headers(encode_headers(hs)) =~= hs);
    }
}

/// The header `d` is the decoded form of some header of `hs` that
/// carries the tunnel prefix.
pub open spec fn from_kept(hs: Seq<HeaderV>, d: HeaderV) -> bool {
    exists|i: int| 0 <= i < hs.len() && keeps_header(#[trigger] hs[i]) && d == decode_header(hs[i])
}

/// Law: nothing without the tunnel prefix leaks through decoding. Every
/// header that decoding delivers is the stripped form of some inbound
/// header that carried the prefix; an inbound header without it can
/// contribute nothing to the result.
pub proof fn lemma_decode_only_prefixed(hs: Seq<HeaderV>)
    ensures
        forall|j: int|
            0 <= j < decode_headers(hs).len() ==> from_kept(hs, #[trigger] decode_headers(hs)[j]),
    decreases hs.len(),
{
    if hs.len() == 0 {
    } else {
        let pre = hs.drop_last();
        lemma_decode_only_prefixed(pre);
        assert forall|j: int|
            0 <= j < decode_headers(hs).len() implies from_kept(
            hs,
            #[trigger] decode_headers(hs)[j],
        ) by {
            if j < decode_headers(pre).len() {
                assert(decode_headers(hs)[j] == decode_headers(pre)[j]);
                assert(from_kept(pre, decode_headers(pre)[j]));
                let i = choose|i: int|
                    0 <= i < pre.len() && keeps_header(#[trigger] pre[i]) && decode_headers(pre)[j]
                        == decode_header(pre[i]);
                assert(hs[i] == pre[i]);
                assert(keeps_header(hs[i]) && decode_headers(hs)[j] == decode_header(hs[i]));
            } else {
                let i = hs.len() - 1;
                assert(keeps_header(hs[i]));
                assert(decode_headers(hs)[j] == decode_header(hs[i]));
            }
        }
    }
}

/// A malformed header name that could not be encoded; carries the
/// offending original name.
#[derive(Debug)]
pub struct HeaderEncodingError {
    pub name: Vec<u8>,
}

/// What decoding delivered: the surviving decoded headers and the names
/// that carried the prefix but were illegal once stripped.  Headers
/// without the prefix are transport control headers and vanish silently.
#[derive(Debug)]
pub struct DecodeOutcome {
    pub headers: Vec<Header>,
    pub dropped: Vec<Vec<u8>>,
}

/// Renames every header for the outbound direction by prepending the
/// tunnel prefix; values are untouched. Fails, naming the offending
/// header, as soon as one name would not be a legal header name after
/// prefixing; no header is ever silently dropped.
pub fn encode_outbound(hs: &Vec<Header>) -> (r: Result<Vec<Header>, HeaderEncodingError>)
    ensures
        r is Ok <==> all_encodable(views(hs@)),
        r matches Ok(out) ==> views(out@) == encode_headers(views(hs@)),
        r matches Err(e) ==> exists|i: int|
            0 <= i < hs@.len() && !encodable(#[trigger] views(hs@)[i]) && e.name@ == views(
                hs@,
            )[i].name,
{
    let mut out: Vec<Header> = Vec::new();
    let mut i: usize = 0;
    while i < hs.len()
        invariant
            0 <= i <= hs@.len(),
            forall|j: int| 0 <= j < i ==> encodable(#[trigger] views(hs@)[j]),
            views(out@) == encode_headers(views(hs@).take(i as int)),
        decreases hs@.len() - i,
    {
        let h = &hs[i];
        if !all_name_bytes_legal(&h.name) {
            proof {
                assert(!encodable(views(hs@)[i as int]));
            }
            return Err(HeaderEncodingError { name: slice_to_vec(h.name.as_slice()) });
        }
        let mut name = tunnel_prefix_vec();
        let mut rest = slice_to_vec(h.name.as_slice());
        name.append(&mut rest);
        let value = slice_to_vec(h.value.as_slice());
        let ghost prev = out@;
        out.push(Header { name, value });
        proof {
            let ghost hv = views(hs@)[i as int];
            assert(out@ == prev.push(out@.last()));
            assert(out@.last()@ =~~= encode_header(hv));
            lemma_views_push(prev, out@.last());
            lemma_encode_push(views(hs@).take(i as int), hv);
            assert(views(hs@).take(i + 1) =~= views(hs@).take(i as int).push(hv));
        }
        i = i + 1;
    }
    proof {
        assert(views(hs@).take(hs@.len() as int) =~= views(hs@));
    }
    Ok(out)
}

/// Decides whether a name carries the tunnel prefix.
pub fn name_has_prefix(n: &Vec<u8>) -> (r: bool)
    ensures
        r == has_tunnel_prefix(n@),
{
    let p = tunnel_prefix_vec();
    if n.len() < p.len() {
        return false;
    }
    let mut i: usize = 0;
    while i < p.len()
        invariant
            p@ == tunnel_prefix(),
            n@.len() >= p@.len(),
            0 <= i <= p@.len(),
            forall|j: int| 0 <= j < i ==> n@[j] == #[trigger] p@[j],
        decreases p@.len() - i,
    {
        if n[i] != p[i] {
            proof {
                assert(n@.take(tunnel_prefix().len() as int)[i as int] != tunnel_prefix()[i as int]);
            }
            return false;
        }
        i = i + 1;
    }
    proof {
        assert(n@.take(tunnel_prefix().len() as int) =~= tunnel_prefix());
    }
    true
}

/// Restores the original header names of an upstream response: strips the
/// tunnel prefix where it is present, drops prefix-less (transport
/// control) headers silently, and drops prefixed-but-illegal names while
/// reporting them in the outcome, so a single bad header never aborts the
/// whole response.
pub fn decode_inbound(hs: &Vec<Header>) -> (r: DecodeOutcome)
    ensures
        views(r.headers@) == decode_headers(views(hs@)),
        name_views(r.dropped@) == decode_warnings(views(hs@)),
{
    let mut out: Vec<Header> = Vec::new();
    let mut dropped: Vec<Vec<u8>> = Vec::new();
    let mut i: usize = 0;
    while i < hs.len()
        invariant
            0 <= i <= hs@.len(),
            views(out@) == decode_headers(views(hs@).take(i as int)),
            name_views(dropped@) == decode_warnings(views(hs@).take(i as int)),
        decreases hs@.len() - i,
    {
        let h = &hs[i];
        let ghost hv = views(hs@)[i as int];
        if name_has_prefix(&h.name) {
            let sl = h.name.as_slice();
            let stripped = slice_to_vec(&sl[10..sl.len()]);
            proof {
                assert(stripped@ =~= strip_name(h.name@));
            }
            if legal_name(&stripped) {
                let value = slice_to_vec(h.value.as_slice());
                let ghost prev = out@;
                out.push(Header { name: stripped, value });
                proof {
                    assert(keeps_header(hv));
                    assert(out@ == prev.push(out@.last()));
                    assert(out@.last()@ =~~= decode_header(hv));
                    lemma_views_push(prev, out@.last());
                }
            } else {
                let ghost prevd = dropped@;
                dropped.push(slice_to_vec(h.name.as_slice()));
                proof {
                    assert(warns_header(hv));
                    assert(dropped@ == prevd.push(dropped@.last()));
                    lemma_name_views_push(prevd, dropped@.last());
                }
            }
        } else {
            proof {
                assert(!keeps_header(hv) && !warns_header(hv));
            }
        }
        proof {
            lemma_decode_push(views(hs@).take(i as int), hv);
            assert(views(hs@).take(i + 1) =~= views(hs@).take(i as int).push(hv));
        }
        i = i + 1;
    }
    proof {
        assert(views(hs@).take(hs@.len() as int) =~= views(hs@));
    }
    DecodeOutcome { headers: out, dropped }
}

} // verus!
