use libra_dev::data::{LibraStatus, TransactionType_PeerToPeer};
use libra_dev::record::{
    RawTransactionRecord, ScriptRecord, SignedTransactionRecord, TransactionArgument,
    TransactionPayloadRecord,
};
use libra_dev::transaction::{signed_transaction_from_record, transfer_transaction};

fn transfer_record(
    sender: [u8; 32],
    receiver: [u8; 32],
    sequence_number: u64,
    amount: u64,
    max_gas_amount: u64,
    gas_unit_price: u64,
    expiration_time_secs: u64,
) -> RawTransactionRecord {
    RawTransactionRecord {
        sender,
        sequence_number,
        payload: TransactionPayloadRecord::Script(ScriptRecord {
            code: vec![1, 2, 3],
            args: vec![TransactionArgument::Address(receiver), TransactionArgument::U64(amount)],
        }),
        max_gas_amount,
        gas_unit_price,
        expiration_time_secs,
    }
}

#[test]
fn test_libra_signed_transaction_deserialize() {
    let sender = [0x11u8; 32];
    let receiver = [0x22u8; 32];
    let sequence_number = 1;
    let amount = 10000000;
    let max_gas_amount = 10;
    let gas_unit_price = 1;
    let expiration_time_secs = 5;
    let public_key = [0x33u8; 32];
    let signature = [1u8; 64];
    let signed_txn = SignedTransactionRecord {
        raw_txn: transfer_record(
            sender,
            receiver,
            sequence_number,
            amount,
            max_gas_amount,
            gas_unit_price,
            expiration_time_secs,
        ),
        public_key,
        signature,
    };

    let libra_signed_txn = signed_transaction_from_record(&signed_txn).unwrap();
    assert_eq!(TransactionType_PeerToPeer, libra_signed_txn.raw_txn.payload.txn_type);
    assert_eq!(receiver, libra_signed_txn.raw_txn.payload.args.address);
    assert_eq!(amount, libra_signed_txn.raw_txn.payload.args.value);
    assert_eq!(sender, libra_signed_txn.raw_txn.sender);
    assert_eq!(sequence_number, libra_signed_txn.raw_txn.sequence_number);
    assert_eq!(max_gas_amount, libra_signed_txn.raw_txn.max_gas_amount);
    assert_eq!(gas_unit_price, libra_signed_txn.raw_txn.gas_unit_price);
    assert_eq!(public_key, libra_signed_txn.public_key);
    assert_eq!(signature.len(), 64);
    assert_eq!(signature, libra_signed_txn.signature);
    assert_eq!(expiration_time_secs, libra_signed_txn.raw_txn.expiration_time_secs);
}

#[test]
fn test_lcs_signed_transaction() {
    let sender = [0xAAu8; 32];
    let receiver = [0xBBu8; 32];
    let private_key = [0x5Au8; 32];
    let sequence = 0;
    let amount = 100000000;
    let gas_unit_price = 123;
    let max_gas_amount = 1000;
    let expiration_time_secs = 0;

    let (raw, key) = transfer_transaction(
        &sender,
        &receiver,
        sequence,
        amount,
        max_gas_amount,
        gas_unit_price,
        expiration_time_secs,
        &private_key,
        vec![9, 9],
    )
    .unwrap();
    assert_eq!(key, private_key);
    match &raw.payload {
        TransactionPayloadRecord::Script(program) => {
            assert!(matches!(program.args[1], TransactionArgument::U64(v) if v == amount));
            assert_eq!(program.code, vec![9, 9]);
        }
        TransactionPayloadRecord::Other => panic!("a transfer is a script"),
    }
    assert_eq!(raw.sequence_number, 0);
    assert_eq!(raw.gas_unit_price, gas_unit_price);

    let signed = SignedTransactionRecord { raw_txn: raw, public_key: [0x44u8; 32], signature: [0x55u8; 64] };
    let read = signed_transaction_from_record(&signed).unwrap();
    assert_eq!(read.raw_txn.payload.txn_type, TransactionType_PeerToPeer);
    assert_eq!(read.raw_txn.payload.args.value, 100000000);
    assert_eq!(read.raw_txn.payload.args.address, receiver);
    assert_eq!(read.raw_txn.sender, sender);
    assert_eq!(read.raw_txn.max_gas_amount, 1000);
    assert_eq!(read.raw_txn.gas_unit_price, 123);
    assert_eq!(read.raw_txn.expiration_time_secs, 0);
    assert_eq!(read.public_key, [0x44u8; 32]);
    assert_eq!(read.signature, [0x55u8; 64]);
}

#[test]
fn transfer_with_address_of_wrong_length_is_invalid() {
    let key = [1u8; 32];
    let good = [2u8; 32];
    let short = [3u8; 31];
    let long = [4u8; 33];
    let build = |s: &[u8], r: &[u8], k: &[u8]| transfer_transaction(s, r, 0, 1, 2, 3, 4, k, vec![]).err();
    assert_eq!(build(&short, &good, &key), Some(LibraStatus::InvalidArgument));
    assert_eq!(build(&good, &long, &key), Some(LibraStatus::InvalidArgument));
    assert_eq!(build(&good, &good, &short), Some(LibraStatus::InvalidArgument));
    assert!(transfer_transaction(&good, &good, 0, 1, 2, 3, 4, &key, vec![]).is_ok());
}

#[test]
fn transfer_keeps_expiration_in_seconds() {
    let (raw, _) =
        transfer_transaction(&[1u8; 32], &[2u8; 32], 7, 8, 9, 10, 1_600_000_000, &[3u8; 32], vec![])
            .unwrap();
    assert_eq!(raw.expiration_time_secs, 1_600_000_000);
    assert_eq!(raw.sequence_number, 7);
    assert_eq!(raw.max_gas_amount, 9);
    assert_eq!(raw.sender, [1u8; 32]);
}

#[test]
fn payload_without_transfer_arguments_is_invalid() {
    let mut raw = transfer_record([1u8; 32], [2u8; 32], 0, 5, 0, 0, 0);
    raw.payload = TransactionPayloadRecord::Script(ScriptRecord {
        code: vec![],
        args: vec![TransactionArgument::U64(5)],
    });
    let t = SignedTransactionRecord { raw_txn: raw, public_key: [0u8; 32], signature: [0u8; 64] };
    assert_eq!(signed_transaction_from_record(&t).err(), Some(LibraStatus::InvalidArgument));

    let mut raw = transfer_record([1u8; 32], [2u8; 32], 0, 5, 0, 0, 0);
    raw.payload = TransactionPayloadRecord::Other;
    let t = SignedTransactionRecord { raw_txn: raw, public_key: [0u8; 32], signature: [0u8; 64] };
    assert_eq!(signed_transaction_from_record(&t).err(), Some(LibraStatus::InvalidArgument));
}

#[test]
fn payload_with_two_amounts_is_invalid() {
    let mut raw = transfer_record([1u8; 32], [2u8; 32], 0, 5, 0, 0, 0);
    raw.payload = TransactionPayloadRecord::Script(ScriptRecord {
        code: vec![],
        args: vec![
            TransactionArgument::Address([2u8; 32]),
            TransactionArgument::U64(5),
            TransactionArgument::U64(6),
        ],
    });
    let t = SignedTransactionRecord { raw_txn: raw, public_key: [0u8; 32], signature: [0u8; 64] };
    assert_eq!(signed_transaction_from_record(&t).err(), Some(LibraStatus::InvalidArgument));
}

#[test]
fn arguments_of_other_kinds_are_ignored() {
    let mut raw = transfer_record([1u8; 32], [2u8; 32], 0, 5, 0, 0, 0);
    raw.payload = TransactionPayloadRecord::Script(ScriptRecord {
        code: vec![],
        args: vec![
            TransactionArgument::String(b"memo".to_vec()),
            TransactionArgument::U64(42),
            TransactionArgument::ByteArray(vec![1, 2]),
            TransactionArgument::Address([9u8; 32]),
        ],
    });
    let t = SignedTransactionRecord { raw_txn: raw, public_key: [0u8; 32], signature: [0u8; 64] };
    let c = signed_transaction_from_record(&t).unwrap();
    assert_eq!(c.raw_txn.payload.args.value, 42);
    assert_eq!(c.raw_txn.payload.args.address, [9u8; 32]);
}
