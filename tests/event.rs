use libra_canonical_serialization::to_bytes;
use libra_dev::data::{LibraEventType, LibraStatus};
use libra_dev::event::{libra_LibraEvent_from, module_field_from, resolve_payment_event};
use libra_dev::record::{StructTagRecord, TypeTagRecord};

fn payment_tag(module: &str, name: &str) -> TypeTagRecord {
    TypeTagRecord::Struct(StructTagRecord {
        address: [0u8; 32],
        module: module.as_bytes().to_vec(),
        name: name.as_bytes().to_vec(),
        type_params: vec![],
    })
}

fn event_key(salt: u8, address: [u8; 32]) -> Vec<u8> {
    let mut key = vec![salt; 8];
    key.extend_from_slice(&address);
    key
}

fn payment_data(amount: u64, other: [u8; 32]) -> Vec<u8> {
    to_bytes(&(amount, other, Vec::<u8>::new())).unwrap()
}

fn module_str(module: &[u8; 255]) -> &str {
    let end = module.iter().position(|b| *b == 0).unwrap();
    std::str::from_utf8(&module[..end]).unwrap()
}

#[test]
fn test_libra_LibraEvent_from() {
    let sender_address = [7u8; 32];
    let receiver_address = [9u8; 32];
    let module = "LibraAccount";
    let amount = 50000000;
    let key = event_key(0, sender_address);
    let type_tag = payment_tag(module, "SentPaymentEvent");
    let data = payment_data(amount, receiver_address);

    let result = libra_LibraEvent_from(&key, &data, &type_tag);
    assert!(result.is_ok());
    let libra_event = result.unwrap();
    assert_eq!(key.len(), 40);
    assert_eq!(sender_address, libra_event.payment_event.sender_address);
    assert_eq!(receiver_address, libra_event.payment_event.receiver_address);
    assert_eq!(amount, libra_event.payment_event.amount);
    assert_eq!(module_str(&libra_event.payment_event.module), module);
    assert_eq!(libra_event.event_type, LibraEventType::SentPaymentEvent);
}

#[test]
fn received_payment_inverts_roles() {
    let account = [3u8; 32];
    let payer = [4u8; 32];
    let key = event_key(1, account);
    let tag = payment_tag("LibraAccount", "ReceivedPaymentEvent");
    let data = payment_data(12345, payer);
    let ev = libra_LibraEvent_from(&key, &data, &tag).unwrap();
    assert_eq!(ev.event_type, LibraEventType::ReceivedPaymentEvent);
    assert_eq!(ev.payment_event.sender_address, payer);
    assert_eq!(ev.payment_event.receiver_address, account);
    assert_eq!(ev.payment_event.amount, 12345);
    assert_eq!(module_str(&ev.payment_event.module), "LibraAccount");
}

#[test]
fn event_key_of_wrong_length_is_invalid() {
    let tag = payment_tag("LibraAccount", "SentPaymentEvent");
    let data = payment_data(1, [2u8; 32]);
    let short = vec![0u8; 39];
    let long = vec![0u8; 41];
    assert_eq!(libra_LibraEvent_from(&short, &data, &tag).err(), Some(LibraStatus::InvalidArgument));
    assert_eq!(libra_LibraEvent_from(&long, &data, &tag).err(), Some(LibraStatus::InvalidArgument));
}

#[test]
fn unstructured_type_tag_is_invalid() {
    let key = event_key(0, [1u8; 32]);
    let data = payment_data(1, [2u8; 32]);
    assert_eq!(
        libra_LibraEvent_from(&key, &data, &TypeTagRecord::U64).err(),
        Some(LibraStatus::InvalidArgument)
    );
}

#[test]
fn undecodable_data_is_invalid() {
    let key = event_key(0, [1u8; 32]);
    let tag = payment_tag("LibraAccount", "SentPaymentEvent");
    let mut data = payment_data(1, [2u8; 32]);
    data.pop();
    assert_eq!(libra_LibraEvent_from(&key, &data, &tag).err(), Some(LibraStatus::InvalidArgument));
    data.push(0);
    data.push(0);
    assert_eq!(libra_LibraEvent_from(&key, &data, &tag).err(), Some(LibraStatus::InvalidArgument));
}

#[test]
fn other_event_type_is_invalid() {
    let key = event_key(0, [1u8; 32]);
    let data = payment_data(1, [2u8; 32]);
    let tag = payment_tag("LibraAccount", "MintEvent");
    assert_eq!(libra_LibraEvent_from(&key, &data, &tag).err(), Some(LibraStatus::InvalidArgument));
    let tag = payment_tag("OtherModule", "SentPaymentEvent");
    assert_eq!(libra_LibraEvent_from(&key, &data, &tag).err(), Some(LibraStatus::InvalidArgument));
}

#[test]
fn resolution_uses_the_decoded_record() {
    let key = event_key(5, [6u8; 32]);
    let tag = payment_tag("LibraAccount", "SentPaymentEvent");
    let ev = resolve_payment_event(&key, &tag, Some((77, [8u8; 32], vec![1, 2]))).unwrap();
    assert_eq!(ev.event_type, LibraEventType::SentPaymentEvent);
    assert_eq!(ev.payment_event.sender_address, [6u8; 32]);
    assert_eq!(ev.payment_event.receiver_address, [8u8; 32]);
    assert_eq!(ev.payment_event.amount, 77);
    assert_eq!(resolve_payment_event(&key, &tag, None).err(), Some(LibraStatus::InvalidArgument));
}

#[test]
fn module_name_that_overflows_is_invalid() {
    let fits = vec![b'a'; 254];
    let field = module_field_from(&fits).unwrap();
    assert_eq!(&field[..254], &fits[..]);
    assert_eq!(field[254], 0);
    let too_long = vec![b'a'; 255];
    assert!(module_field_from(&too_long).is_none());
    let with_nul = vec![b'a', 0, b'b'];
    assert!(module_field_from(&with_nul).is_none());

    let key = event_key(0, [1u8; 32]);
    let data = payment_data(1, [2u8; 32]);
    let long_module = "M".repeat(255);
    let tag = payment_tag(&long_module, "SentPaymentEvent");
    assert_eq!(libra_LibraEvent_from(&key, &data, &tag).err(), Some(LibraStatus::InvalidArgument));
}
