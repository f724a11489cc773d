//! Reading signed transactions into their fixed layout, and assembling the
//! raw transaction of a transfer.
use vstd::prelude::*;
use crate::bytes::array_from_exact;
use crate::data::{
    CDevP2PTransferTransactionArgument, CDevRawTransaction, CDevSignedTransaction,
    CDevTransactionPayload, LibraStatus, TransactionType_PeerToPeer, ADDRESS_LENGTH,
    ED25519_PRIVATE_KEY_LENGTH,
};
use crate::record::{
    RawTransactionRecord, ScriptRecord, SignedTransactionRecord, TransactionArgument,
    TransactionPayloadRecord,
};

verus! {

/// The values of the `u64` arguments among `args`, in order.
pub open spec fn u64_values(args: Seq<TransactionArgument>) -> Seq<u64>
    decreases args.len(),
{
    if args.len() == 0 {
        Seq::empty()
    } else {
        let rest = u64_values(args.drop_last());
        match args.last() {
            TransactionArgument::U64(v) => rest.push(v),
            _ => rest,
        }
    }
}

/// The address arguments among `args`, in order.
pub open spec fn address_values(args: Seq<TransactionArgument>) -> Seq<Seq<u8>>
    decreases args.len(),
{
    if args.len() == 0 {
        Seq::empty()
    } else {
        let rest = address_values(args.drop_last());
        match args.last() {
            TransactionArgument::Address(a) => rest.push(a@),
            _ => rest,
        }
    }
}

/// Whether a payload is a transfer: a script with exactly one `u64` argument
/// and exactly one address argument. Arguments of other kinds are ignored.
pub open spec fn is_transfer_payload(p: TransactionPayloadRecord) -> bool {
    &&& p matches TransactionPayloadRecord::Script(s)
    &&& u64_values(s.args@).len() == 1
    &&& address_values(s.args@).len() == 1
}

/// Whether `c` is the fixed layout of the signed transaction `t`, whose
/// payload is a transfer.
pub open spec fn is_signed_transaction_view(c: CDevSignedTransaction, t: SignedTransactionRecord) -> bool {
    let args = t.raw_txn.payload->Script_0.args@;
    &&& c.raw_txn.sender == t.raw_txn.sender
    &&& c.raw_txn.sequence_number == t.raw_txn.sequence_number
    &&& c.raw_txn.max_gas_amount == t.raw_txn.max_gas_amount
    &&& c.raw_txn.gas_unit_price == t.raw_txn.gas_unit_price
    &&& c.raw_txn.expiration_time_secs == t.raw_txn.expiration_time_secs
    &&& c.raw_txn.payload.txn_type == TransactionType_PeerToPeer
    &&& c.raw_txn.payload.args.value == u64_values(args)[0]
    &&& c.raw_txn.payload.args.address@ == address_values(args)[0]
    &&& c.public_key == t.public_key
    &&& c.signature == t.signature
}

/// Whether `r` is the outcome of reading the signed transaction `t`.
pub open spec fn is_signed_transaction_outcome(
    r: Result<CDevSignedTransaction, LibraStatus>,
    t: SignedTransactionRecord,
) -> bool {
    &&& r is Ok <==> is_transfer_payload(t.raw_txn.payload)
    &&& r matches Err(e) ==> e == LibraStatus::InvalidArgument
    &&& r matches Ok(c) ==> is_signed_transaction_view(c, t)
}

/// Scans the arguments of a script for its one `u64` and its one address.
fn transfer_arguments(args: &Vec<TransactionArgument>) -> (r: Option<
    CDevP2PTransferTransactionArgument,
>)
    ensures
        r is Some <==> (u64_values(args@).len() == 1 && address_values(args@).len() == 1),
        r matches Some(a) ==> a.value == u64_values(args@)[0] && a.address@ == address_values(
            args@,
        )[0],
{
    let mut n_values: usize = 0;
    let mut n_addresses: usize = 0;
    let mut value: u64 = 0;
    let mut address: [u8; 32] = [0u8; 32];
    let mut i: usize = 0;
    while i < args.len()
        invariant
            i <= args@.len(),
            n_values == u64_values(args@.subrange(0, i as int)).len(),
            n_addresses == address_values(args@.subrange(0, i as int)).len(),
            n_values <= i,
            n_addresses <= i,
            n_values > 0 ==> value == u64_values(args@.subrange(0, i as int))[0],
            n_addresses > 0 ==> address@ == address_values(args@.subrange(0, i as int))[0],
        decreases args@.len() - i,
    {
        let ghost before = args@.subrange(0, i as int);
        assert(args@.subrange(0, i + 1).drop_last() =~= before);
        match &args[i] {
            TransactionArgument::U64(v) => {
                if n_values == 0 {
                    value = *v;
                }
                n_values += 1;
            },
            TransactionArgument::Address(a) => {
                if n_addresses == 0 {
                    address = *a;
                }
                n_addresses += 1;
            },
            _ => {},
        }
        i += 1;
    }
    assert(args@.subrange(0, args@.len() as int) =~= args@);
    if n_values == 1 && n_addresses == 1 {
        Some(CDevP2PTransferTransactionArgument { value, address })
    } else {
        None
    }
}

/// Reads a decoded signed transaction into its fixed layout. Only a transfer
/// payload is read: a script with exactly one `u64` argument, the amount,
/// and exactly one address argument, the receiver; arguments of other kinds
/// are ignored. Any other payload gives `InvalidArgument`.
pub fn signed_transaction_from_record(t: &SignedTransactionRecord) -> (r: Result<
    CDevSignedTransaction,
    LibraStatus,
>)
    ensures
        is_signed_transaction_outcome(r, *t),
{
    let script = match &t.raw_txn.payload {
        TransactionPayloadRecord::Script(s) => s,
        TransactionPayloadRecord::Other => {
            return Err(LibraStatus::InvalidArgument);
        },
    };
    let args = match transfer_arguments(&script.args) {
        Some(a) => a,
        None => {
            return Err(LibraStatus::InvalidArgument);
        },
    };
    let raw_txn = CDevRawTransaction {
        sender: t.raw_txn.sender,
        sequence_number: t.raw_txn.sequence_number,
        payload: CDevTransactionPayload { txn_type: TransactionType_PeerToPeer, args },
        max_gas_amount: t.raw_txn.max_gas_amount,
        gas_unit_price: t.raw_txn.gas_unit_price,
        expiration_time_secs: t.raw_txn.expiration_time_secs,
    };
    Ok(CDevSignedTransaction { raw_txn, public_key: t.public_key, signature: t.signature })
}

/// Whether `raw` is the transfer of `amount` coins from `sender` to
/// `receiver` that `code` carries out, with these sequence number, gas
/// bounds and expiration (in seconds since the epoch).
pub open spec fn is_transfer_raw_transaction(
    raw: RawTransactionRecord,
    sender: Seq<u8>,
    receiver: Seq<u8>,
    sequence: u64,
    amount: u64,
    max_gas_amount: u64,
    gas_unit_price: u64,
    expiration_time_secs: u64,
    code: Seq<u8>,
) -> bool {
    &&& raw.sender@ == sender
    &&& raw.sequence_number == sequence
    &&& raw.max_gas_amount == max_gas_amount
    &&& raw.gas_unit_price == gas_unit_price
    &&& raw.expiration_time_secs == expiration_time_secs
    &&& raw.payload matches TransactionPayloadRecord::Script(s)
    &&& s.code@ == code
    &&& s.args@.len() == 2
    &&& s.args@[0] matches TransactionArgument::Address(a)
    &&& a@ == receiver
    &&& s.args@[1] == TransactionArgument::U64(amount)
}

/// Assembles the raw transaction that transfers `amount` coins from
/// `sender` to `receiver` by running the transfer program `code` with the
/// receiver and the amount as its arguments, and hands back the private key
/// to sign it with. The expiration is absolute, in seconds since the epoch.
/// Each address must hold exactly 32 bytes and the private key exactly 32
/// bytes; otherwise the result is `InvalidArgument`.
pub fn transfer_transaction(
    sender: &[u8],
    receiver: &[u8],
    sequence: u64,
    amount: u64,
    max_gas_amount: u64,
    gas_unit_price: u64,
    expiration_time_secs: u64,
    private_key: &[u8],
    code: Vec<u8>,
) -> (r: Result<(RawTransactionRecord, [u8; 32]), LibraStatus>)
    ensures
        r is Ok <==> (sender@.len() == ADDRESS_LENGTH && receiver@.len() == ADDRESS_LENGTH
            && private_key@.len() == ED25519_PRIVATE_KEY_LENGTH),
        r matches Err(e) ==> e == LibraStatus::InvalidArgument,
        r matches Ok((raw, key)) ==> key@ == private_key@ && is_transfer_raw_transaction(
            raw,
            sender@,
            receiver@,
            sequence,
            amount,
            max_gas_amount,
            gas_unit_price,
            expiration_time_secs,
            code@,
        ),
{
    let sender_address: [u8; 32] = match array_from_exact(sender) {
        Some(a) => a,
        None => {
            return Err(LibraStatus::InvalidArgument);
        },
    };
    let receiver_address: [u8; 32] = match array_from_exact(receiver) {
        Some(a) => a,
        None => {
            return Err(LibraStatus::InvalidArgument);
        },
    };
    let key: [u8; 32] = match array_from_exact(private_key) {
        Some(k) => k,
        None => {
            return Err(LibraStatus::InvalidArgument);
        },
    };
    let args: Vec<TransactionArgument> = vec![
        TransactionArgument::Address(receiver_address),
        TransactionArgument::U64(amount),
    ];
    let raw = RawTransactionRecord {
        sender: sender_address,
        sequence_number: sequence,
        payload: TransactionPayloadRecord::Script(ScriptRecord { code, args }),
        max_gas_amount,
        gas_unit_price,
        expiration_time_secs,
    };
    Ok((raw, key))
}

/// A transfer assembled from valid inputs, once signed with any public key
/// and signature, reads back as a peer-to-peer transfer whose sender,
/// sequence number, gas bounds, expiration, amount and receiver are the
/// inputs, and whose key and signature are the ones it was signed with.
pub proof fn lemma_transfer_round_trip(
    raw: RawTransactionRecord,
    sender: Seq<u8>,
    receiver: Seq<u8>,
    sequence: u64,
    amount: u64,
    max_gas_amount: u64,
    gas_unit_price: u64,
    expiration_time_secs: u64,
    code: Seq<u8>,
    public_key: [u8; 32],
    signature: [u8; 64],
)
    requires
        is_transfer_raw_transaction(
            raw,
            sender,
            receiver,
            sequence,
            amount,
            max_gas_amount,
            gas_unit_price,
            expiration_time_secs,
            code,
        ),
    ensures
        forall|r: Result<CDevSignedTransaction, LibraStatus>|
            #[trigger] is_signed_transaction_outcome(
                r,
                SignedTransactionRecord { raw_txn: raw, public_key, signature },
            ) ==> {
                &&& r matches Ok(c)
                &&& c.raw_txn.sender@ == sender
                &&& c.raw_txn.sequence_number == sequence
                &&& c.raw_txn.max_gas_amount == max_gas_amount
                &&& c.raw_txn.gas_unit_price == gas_unit_price
                &&& c.raw_txn.expiration_time_secs == expiration_time_secs
                &&& c.raw_txn.payload.txn_type == TransactionType_PeerToPeer
                &&& c.raw_txn.payload.args.value == amount
                &&& c.raw_txn.payload.args.address@ == receiver
                &&& c.public_key == public_key
                &&& c.signature == signature
            },
{
    let args = raw.payload->Script_0.args@;
    let first = args.drop_last();
    let none = first.drop_last();
    assert(none.len() == 0);
    assert(first.last() == args[0]);
    assert(args.last() == args[1]);
    assert(u64_values(first) == u64_values(none));
    assert(u64_values(args) == u64_values(first).push(amount));
    assert(address_values(first) == address_values(none).push(args[0]->Address_0@));
    assert(address_values(args) == address_values(first));
}

} // verus!
