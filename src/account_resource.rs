//! Reading an account's resource out of its state blob.
use vstd::prelude::*;
use crate::bytes::{array_from_exact, bytes_equal};
use crate::data::{CDevAccountResource, CEventHandle, LibraStatus};
use crate::record::{AccountResourceRecord, EventHandleRecord};
use std::collections::BTreeMap;

verus! {

/// The entries, path and value, that the canonical decoder reads from an
/// account state blob, in ascending order of path.
pub uninterp spec fn blob_entries(blob: Seq<u8>) -> Option<Seq<(Seq<u8>, Seq<u8>)>>;

/// The entries of `v` as byte sequences.
pub open spec fn entries_view(v: Seq<(Vec<u8>, Vec<u8>)>) -> Seq<(Seq<u8>, Seq<u8>)> {
    v.map_values(|e: (Vec<u8>, Vec<u8>)| (e.0@, e.1@))
}

/// Relies on `libra_canonical_serialization::from_bytes` for a map from
/// byte strings to byte strings: it decodes the whole of `blob` or fails,
/// and depends on the bytes alone. The map's entries are handed out in the
/// map's order.
#[verifier::external_body]
fn decode_blob_entries(blob: &[u8]) -> (r: Option<Vec<(Vec<u8>, Vec<u8>)>>)
    ensures
        match r {
            Some(v) => blob_entries(blob@) == Some(entries_view(v@)),
            None => blob_entries(blob@) is None,
        },
{
    match libra_canonical_serialization::from_bytes::<BTreeMap<Vec<u8>, Vec<u8>>>(blob) {
        Ok(m) => Some(m.into_iter().collect()),
        Err(_) => None,
    }
}

/// The value of the first entry of `entries` at `path`.
pub open spec fn value_at(entries: Seq<(Seq<u8>, Seq<u8>)>, path: Seq<u8>) -> Option<Seq<u8>>
    decreases entries.len(),
{
    if entries.len() == 0 {
        None
    } else if entries[0].0 == path {
        Some(entries[0].1)
    } else {
        value_at(entries.drop_first(), path)
    }
}

/// The encoded resource that the account state blob `blob` holds at
/// `path`: `Ok(None)` where the blob has no entry there, `InvalidArgument`
/// where the blob does not decode.
pub fn account_resource_bytes(blob: &[u8], path: &[u8]) -> (r: Result<Option<Vec<u8>>, LibraStatus>)
    ensures
        r is Err <==> blob_entries(blob@) is None,
        r matches Err(e) ==> e == LibraStatus::InvalidArgument,
        r matches Ok(v) ==> blob_entries(blob@) matches Some(entries) && match v {
            Some(b) => value_at(entries, path@) == Some(b@),
            None => value_at(entries, path@) is None,
        },
{
    let entries = match decode_blob_entries(blob) {
        Some(e) => e,
        None => {
            return Err(LibraStatus::InvalidArgument);
        },
    };
    let ghost all = entries_view(entries@);
    assert(all.subrange(0, all.len() as int) =~= all);
    let mut i: usize = 0;
    while i < entries.len()
        invariant
            i <= entries@.len(),
            all == entries_view(entries@),
            blob_entries(blob@) == Some(all),
            value_at(all, path@) == value_at(all.subrange(i as int, all.len() as int), path@),
        decreases entries@.len() - i,
    {
        let ghost rest = all.subrange(i as int, all.len() as int);
        assert(rest.drop_first() =~= all.subrange(i + 1, all.len() as int));
        assert(all[i as int] == (entries@[i as int].0@, entries@[i as int].1@));
        if bytes_equal(&entries[i].0, path) {
            let v = entries[i].1.clone();
            assert(v@ == entries@[i as int].1@);
            return Ok(Some(v));
        }
        i += 1;
    }
    assert(all.subrange(i as int, all.len() as int).len() == 0);
    Ok(None)
}

/// Whether `c` is the fixed layout of the event handle `h`.
pub open spec fn is_event_handle_view(c: CEventHandle, h: EventHandleRecord) -> bool {
    c.count == h.count && c.key@ == h.key@
}

fn event_handle_from_record(h: &EventHandleRecord) -> (r: Option<CEventHandle>)
    ensures
        r is Some <==> h.key@.len() == 32,
        r matches Some(c) ==> is_event_handle_view(c, *h),
{
    match array_from_exact(&h.key) {
        Some(key) => Some(CEventHandle { count: h.count, key }),
        None => None,
    }
}

/// Whether an account resource fits the fixed layout: its authentication
/// key and the keys of both event handles hold exactly 32 bytes.
pub open spec fn fits_layout(a: AccountResourceRecord) -> bool {
    &&& a.authentication_key@.len() == 32
    &&& a.sent_events.key@.len() == 32
    &&& a.received_events.key@.len() == 32
}

/// Reads a decoded account resource into its fixed layout. A key that does
/// not hold exactly 32 bytes gives `InvalidArgument`; nothing is truncated
/// or padded.
pub fn account_resource_from_record(a: &AccountResourceRecord) -> (r: Result<
    CDevAccountResource,
    LibraStatus,
>)
    ensures
        r is Ok <==> fits_layout(*a),
        r matches Err(e) ==> e == LibraStatus::InvalidArgument,
        r matches Ok(c) ==> {
            &&& c.balance == a.balance
            &&& c.sequence == a.sequence_number
            &&& c.authentication_key@ == a.authentication_key@
            &&& c.delegated_key_rotation_capability == a.delegated_key_rotation_capability
            &&& c.delegated_withdrawal_capability == a.delegated_withdrawal_capability
            &&& is_event_handle_view(c.sent_events, a.sent_events)
            &&& is_event_handle_view(c.received_events, a.received_events)
        },
{
    let authentication_key: [u8; 32] = match array_from_exact(&a.authentication_key) {
        Some(k) => k,
        None => {
            return Err(LibraStatus::InvalidArgument);
        },
    };
    let sent_events = match event_handle_from_record(&a.sent_events) {
        Some(h) => h,
        None => {
            return Err(LibraStatus::InvalidArgument);
        },
    };
    let received_events = match event_handle_from_record(&a.received_events) {
        Some(h) => h,
        None => {
            return Err(LibraStatus::InvalidArgument);
        },
    };
    Ok(
        CDevAccountResource {
            balance: a.balance,
            sequence: a.sequence_number,
            authentication_key,
            delegated_key_rotation_capability: a.delegated_key_rotation_capability,
            delegated_withdrawal_capability: a.delegated_withdrawal_capability,
            sent_events,
            received_events,
        },
    )
}

} // verus!
