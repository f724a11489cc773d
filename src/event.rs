//! Resolving a ledger event into a payment event.
use vstd::prelude::*;
use crate::bytes::{all_zero, array_from_range, bytes_equal, is_all_zero};
use crate::data::{
    LibraEvent, LibraEventType, LibraPaymentEvent, LibraStatus, EVENT_KEY_LENGTH,
    EVENT_KEY_SALT_LENGTH, MODULE_CAPACITY,
};
use crate::record::{StructTagRecord, TypeTagRecord};

verus! {

/// The payment record that the canonical decoder reads from an event's data:
/// the amount, the other party's address and the metadata.
pub uninterp spec fn payment_record_of(data: Seq<u8>) -> Option<(u64, Seq<u8>, Seq<u8>)>;

/// Relies on `libra_canonical_serialization::from_bytes` for a payment
/// record (an amount, a 32-byte address and a byte string): it decodes the
/// whole of `data` or fails, and depends on the bytes alone.
#[verifier::external_body]
fn decode_payment_record(data: &[u8]) -> (r: Option<(u64, [u8; 32], Vec<u8>)>)
    ensures
        match r {
            Some(p) => payment_record_of(data@) == Some((p.0, p.1@, p.2@)),
            None => payment_record_of(data@) is None,
        },
{
    libra_canonical_serialization::from_bytes::<(u64, [u8; 32], Vec<u8>)>(data).ok()
}

/// The name of the module that emits payment events: `LibraAccount`.
pub open spec fn account_module_name() -> Seq<u8> {
    seq![76u8, 105u8, 98u8, 114u8, 97u8, 65u8, 99u8, 99u8, 111u8, 117u8, 110u8, 116u8]
}

/// The name of the sent-payment event type: `SentPaymentEvent`.
pub open spec fn sent_event_name() -> Seq<u8> {
    seq![
        83u8, 101u8, 110u8, 116u8, 80u8, 97u8, 121u8, 109u8, 101u8, 110u8, 116u8, 69u8,
        118u8, 101u8, 110u8, 116u8,
    ]
}

/// The name of the received-payment event type: `ReceivedPaymentEvent`.
pub open spec fn received_event_name() -> Seq<u8> {
    seq![
        82u8, 101u8, 99u8, 101u8, 105u8, 118u8, 101u8, 100u8, 80u8, 97u8, 121u8, 109u8,
        101u8, 110u8, 116u8, 69u8, 118u8, 101u8, 110u8, 116u8,
    ]
}

fn account_module_bytes() -> (r: Vec<u8>)
    ensures
        r@ == account_module_name(),
{
    let r: Vec<u8> = vec![76u8, 105u8, 98u8, 114u8, 97u8, 65u8, 99u8, 99u8, 111u8, 117u8, 110u8, 116u8];
    assert(r@ =~= account_module_name());
    r
}

fn sent_event_bytes() -> (r: Vec<u8>)
    ensures
        r@ == sent_event_name(),
{
    let r: Vec<u8> = vec![
        83u8, 101u8, 110u8, 116u8, 80u8, 97u8, 121u8, 109u8, 101u8, 110u8, 116u8, 69u8,
        118u8, 101u8, 110u8, 116u8,
    ];
    assert(r@ =~= sent_event_name());
    r
}

fn received_event_bytes() -> (r: Vec<u8>)
    ensures
        r@ == received_event_name(),
{
    let r: Vec<u8> = vec![
        82u8, 101u8, 99u8, 101u8, 105u8, 118u8, 101u8, 100u8, 80u8, 97u8, 121u8, 109u8,
        101u8, 110u8, 116u8, 69u8, 118u8, 101u8, 110u8, 116u8,
    ];
    assert(r@ =~= received_event_name());
    r
}

/// Whether `t` is the type of a payment event called `name`: declared by the
/// account module at the core address, without type parameters.
pub open spec fn is_payment_tag(t: StructTagRecord, name: Seq<u8>) -> bool {
    &&& all_zero(t.address@)
    &&& t.module@ == account_module_name()
    &&& t.name@ == name
    &&& t.type_params@.len() == 0
}

fn payment_tag_named(t: &StructTagRecord, name: &Vec<u8>) -> (r: bool)
    ensures
        r == is_payment_tag(*t, name@),
{
    let module = account_module_bytes();
    is_all_zero(&t.address) && bytes_equal(&t.module, &module) && bytes_equal(&t.name, name)
        && t.type_params.len() == 0
}

/// Whether a module name fits the null-terminated module field: it holds no
/// zero byte, and with its terminator it takes at most the field's capacity.
pub open spec fn module_fits(m: Seq<u8>) -> bool {
    &&& m.len() + 1 <= MODULE_CAPACITY
    &&& forall|i: int| 0 <= i < m.len() ==> m[i] != 0
}

/// The module field holding `m`: its bytes, then zeros up to the capacity.
pub open spec fn module_field(m: Seq<u8>) -> Seq<u8> {
    Seq::new(MODULE_CAPACITY as nat, |i: int| if i < m.len() { m[i] } else { 0u8 })
}

/// The null-terminated module field for the module name `m`, or `None` where
/// the name does not fit; a name is never truncated.
pub fn module_field_from(m: &[u8]) -> (r: Option<[u8; 255]>)
    ensures
        r is Some <==> module_fits(m@),
        r matches Some(a) ==> a@ == module_field(m@),
{
    if m.len() >= MODULE_CAPACITY {
        return None;
    }
    let mut a: [u8; 255] = [0u8; 255];
    let mut i: usize = 0;
    while i < m.len()
        invariant
            i <= m@.len(),
            m@.len() < MODULE_CAPACITY,
            a@.len() == MODULE_CAPACITY,
            forall|j: int| 0 <= j < i ==> a@[j] == m@[j] && m@[j] != 0,
            forall|j: int| i <= j < MODULE_CAPACITY ==> a@[j] == 0,
        decreases m@.len() - i,
    {
        if m[i] == 0 {
            return None;
        }
        a[i] = m[i];
        i += 1;
    }
    assert(a@ =~= module_field(m@));
    Some(a)
}

/// Whether an event with this key and type tag, whose data decoded to
/// `decoded`, resolves to a payment event.
pub open spec fn event_resolves(
    key: Seq<u8>,
    tag: TypeTagRecord,
    decoded: Option<(u64, Seq<u8>, Seq<u8>)>,
) -> bool {
    &&& key.len() == EVENT_KEY_LENGTH
    &&& tag matches TypeTagRecord::Struct(st)
    &&& module_fits(st.module@)
    &&& is_payment_tag(st, sent_event_name()) || is_payment_tag(st, received_event_name())
    &&& decoded is Some
}

/// The address that an event key holds after its salt.
pub open spec fn key_address(key: Seq<u8>) -> Seq<u8> {
    key.subrange(EVENT_KEY_SALT_LENGTH as int, EVENT_KEY_LENGTH as int)
}

/// Whether `ev` is the payment event for the key `key`, the structured tag
/// `st` and the decoded record `p`. A sent payment goes from the key's
/// account to the record's address; a received one the other way round.
pub open spec fn is_payment_event(
    ev: LibraEvent,
    key: Seq<u8>,
    st: StructTagRecord,
    p: (u64, Seq<u8>, Seq<u8>),
) -> bool {
    &&& ev.payment_event.amount == p.0
    &&& ev.payment_event.module@ == module_field(st.module@)
    &&& if is_payment_tag(st, sent_event_name()) {
        &&& ev.event_type == LibraEventType::SentPaymentEvent
        &&& ev.payment_event.sender_address@ == key_address(key)
        &&& ev.payment_event.receiver_address@ == p.1
    } else {
        &&& ev.event_type == LibraEventType::ReceivedPaymentEvent
        &&& ev.payment_event.sender_address@ == p.1
        &&& ev.payment_event.receiver_address@ == key_address(key)
    }
}

/// Whether `r` is the outcome of resolving an event with this key and type
/// tag whose data decoded to `decoded`.
pub open spec fn is_event_outcome(
    r: Result<LibraEvent, LibraStatus>,
    key: Seq<u8>,
    tag: TypeTagRecord,
    decoded: Option<(u64, Seq<u8>, Seq<u8>)>,
) -> bool {
    &&& r is Ok <==> event_resolves(key, tag, decoded)
    &&& r matches Err(e) ==> e == LibraStatus::InvalidArgument
    &&& r matches Ok(ev) ==> is_payment_event(ev, key, tag->Struct_0, decoded->Some_0)
}

/// Resolves an event, given its key, its type tag and what its data decoded
/// to as a payment record. The sent-payment reading is tried first, then the
/// received-payment one; each needs its own type tag.
pub fn resolve_payment_event(
    key: &[u8],
    tag: &TypeTagRecord,
    decoded: Option<(u64, [u8; 32], Vec<u8>)>,
) -> (r: Result<LibraEvent, LibraStatus>)
    ensures
        is_event_outcome(
            r,
            key@,
            *tag,
            match decoded {
                Some(p) => Some((p.0, p.1@, p.2@)),
                None => None,
            },
        ),
{
    if key.len() != EVENT_KEY_LENGTH {
        return Err(LibraStatus::InvalidArgument);
    }
    let key_address: [u8; 32] = array_from_range(key, EVENT_KEY_SALT_LENGTH);
    let st = match tag {
        TypeTagRecord::Struct(st) => st,
        _ => {
            return Err(LibraStatus::InvalidArgument);
        },
    };
    let module = match module_field_from(&st.module) {
        Some(m) => m,
        None => {
            return Err(LibraStatus::InvalidArgument);
        },
    };
    let (amount, other, _metadata) = match decoded {
        Some(p) => p,
        None => {
            return Err(LibraStatus::InvalidArgument);
        },
    };
    let sent_name = sent_event_bytes();
    let received_name = received_event_bytes();
    if payment_tag_named(st, &sent_name) {
        Ok(
            LibraEvent {
                event_type: LibraEventType::SentPaymentEvent,
                payment_event: LibraPaymentEvent {
                    sender_address: key_address,
                    receiver_address: other,
                    amount,
                    module,
                },
            },
        )
    } else if payment_tag_named(st, &received_name) {
        Ok(
            LibraEvent {
                event_type: LibraEventType::ReceivedPaymentEvent,
                payment_event: LibraPaymentEvent {
                    sender_address: other,
                    receiver_address: key_address,
                    amount,
                    module,
                },
            },
        )
    } else {
        Err(LibraStatus::InvalidArgument)
    }
}

/// Resolves the event with key `key`, data `data` and type tag `tag` into a
/// payment event. The key must hold exactly an 8-byte salt and an address,
/// the tag must be structured, its module name must fit the module field,
/// and the data must decode as the payment record of the tag's event type;
/// otherwise the result is `InvalidArgument`.
#[allow(non_snake_case)]
pub fn libra_LibraEvent_from(key: &[u8], data: &[u8], tag: &TypeTagRecord) -> (r: Result<
    LibraEvent,
    LibraStatus,
>)
    ensures
        is_event_outcome(r, key@, *tag, payment_record_of(data@)),
{
    let decoded = decode_payment_record(data);
    resolve_payment_event(key, tag, decoded)
}

} // verus!
