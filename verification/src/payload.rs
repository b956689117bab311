//! Optional payloads and the pair of flag and bytes that carries them.

use vstd::prelude::*;

verus! {

/// An optional payload as contracts see it.
pub open spec fn payload_view(payload: Option<Vec<u8>>) -> Option<Seq<u8>> {
    match payload {
        Some(bytes) => Some(bytes@),
        None => None,
    }
}

/// Whether a flag and bytes go together: absent payloads carry no bytes.
pub open spec fn presence_consistent(has_payload: bool, bytes: Seq<u8>) -> bool {
    has_payload || bytes.len() == 0
}

/// The payload that a flag and bytes carry.
pub open spec fn carried(has_payload: bool, bytes: Seq<u8>) -> Option<Seq<u8>> {
    if has_payload {
        Some(bytes)
    } else {
        None
    }
}

/// The flag that carries a payload.
pub open spec fn presence(payload: Option<Seq<u8>>) -> bool {
    payload is Some
}

/// The bytes that carry a payload.
pub open spec fn content(payload: Option<Seq<u8>>) -> Seq<u8> {
    match payload {
        Some(bytes) => bytes,
        None => Seq::empty(),
    }
}

/// Copies bytes.
pub fn copy_bytes(bytes: &[u8]) -> (copy: Vec<u8>)
    ensures
        copy@ == bytes@,
{
    let mut copy: Vec<u8> = Vec::new();
    let mut at: usize = 0;
    while at < bytes.len()
        invariant
            at <= bytes.len(),
            copy@ == bytes@.take(at as int),
        decreases bytes.len() - at,
    {
        copy.push(bytes[at]);
        assert(copy@ =~= bytes@.take(at + 1));
        at = at + 1;
    }
    assert(copy@ =~= bytes@);
    copy
}

/// Copies an optional payload.
pub fn copy_payload(payload: &Option<Vec<u8>>) -> (copy: Option<Vec<u8>>)
    ensures
        payload_view(copy) == payload_view(*payload),
{
    match payload {
        Some(bytes) => Some(copy_bytes(bytes.as_slice())),
        None => None,
    }
}

/// Splits a payload into the flag and the bytes that carry it.
pub fn split_payload(payload: &Option<Vec<u8>>) -> (parts: (bool, Vec<u8>))
    ensures
        parts.0 == presence(payload_view(*payload)),
        parts.1@ == content(payload_view(*payload)),
{
    match payload {
        Some(bytes) => (true, copy_bytes(bytes.as_slice())),
        None => (false, Vec::new()),
    }
}

/// Joins a flag and bytes into the payload that they carry.
pub fn join_payload(has_payload: bool, bytes: Vec<u8>) -> (payload: Option<Vec<u8>>)
    ensures
        payload_view(payload) == carried(has_payload, bytes@),
{
    if has_payload {
        Some(bytes)
    } else {
        None
    }
}

/// Absent, empty and nonempty payloads survive being carried, and what carries
/// them is consistent.
pub proof fn law_payload_presence_is_preserved(payload: Option<Seq<u8>>)
    ensures
        carried(presence(payload), content(payload)) == payload,
        presence_consistent(presence(payload), content(payload)),
{
}

/// A payload is carried by a raised flag and exactly its bytes, an absent one
/// by a lowered flag and none; a raised flag carries exactly the bytes beside
/// it, a lowered one nothing; and only a lowered flag beside bytes is
/// inconsistent.
pub proof fn law_flag_and_bytes_are_the_payload(bytes: Seq<u8>, has_payload: bool)
    ensures
        presence(Some(bytes)),
        content(Some(bytes)) == bytes,
        !presence(None),
        content(None).len() == 0,
        carried(true, bytes) == Some(bytes),
        carried(false, bytes) is None,
        presence_consistent(has_payload, bytes) <==> !(bytes.len() > 0 && !has_payload),
{
}

/// The view of an optional payload shows its bytes or that there is none.
pub proof fn law_payloads_are_seen_whole(bytes: Vec<u8>)
    ensures
        payload_view(Some(bytes)) == Some(bytes@),
        payload_view(None) is None,
{
}

} // verus!
