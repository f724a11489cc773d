//! The fixed-layout values handed across the boundary, and the status that
//! every operation ends in.
use vstd::prelude::*;

verus! {

/// Length of an account address in bytes.
pub const ADDRESS_LENGTH: usize = 32;

/// Length of an event key: an 8-byte salt followed by an address.
pub const EVENT_KEY_LENGTH: usize = 40;

/// Length of the salt that starts an event key.
pub const EVENT_KEY_SALT_LENGTH: usize = 8;

/// Capacity of the null-terminated module name of a payment event.
pub const MODULE_CAPACITY: usize = 255;

/// Length of an Ed25519 private key in bytes.
pub const ED25519_PRIVATE_KEY_LENGTH: usize = 32;

/// How an operation ended. There is no partial success.
#[allow(non_camel_case_types)]
#[derive(Debug, Copy, Clone, PartialEq, Eq, Structural)]
pub enum LibraStatus {
    OK,
    InvalidArgument,
    InternalError,
}

/// A stream of events of one account: how many there were, and its key.
///
/// The key is the last field and its type a parameter that may be unsized,
/// so the compiler keeps it last: the count sits at offset 0 and the key at
/// offset 8, as in the C layout.
#[derive(Debug, Copy, Clone)]
pub struct CEventHandle<K: ?Sized = [u8; 32]> {
    pub count: u64,
    pub key: K,
}

/// The part of an account's on-chain resource that callers read.
#[derive(Debug, Copy, Clone)]
pub struct CDevAccountResource {
    pub balance: u64,
    pub sequence: u64,
    pub authentication_key: [u8; 32],
    pub delegated_key_rotation_capability: bool,
    pub delegated_withdrawal_capability: bool,
    pub sent_events: CEventHandle,
    pub received_events: CEventHandle,
}

/// Tag of a transaction payload. The tag takes a full word, as it does with
/// its padding in the C layout, so that the arguments start at offset 8.
pub type TransactionType = u64;

/// The one payload tag defined: a peer-to-peer transfer.
#[allow(non_upper_case_globals)]
pub const TransactionType_PeerToPeer: TransactionType = 0;

/// Arguments of a peer-to-peer transfer: the amount and the receiver.
///
/// The address is the last field and its type a parameter that may be
/// unsized, so the compiler keeps it last: the amount sits at offset 0 and
/// the address at offset 8, as in the C layout.
#[derive(Debug, Copy, Clone)]
pub struct CDevP2PTransferTransactionArgument<A: ?Sized = [u8; 32]> {
    pub value: u64,
    pub address: A,
}

/// A transaction payload: a tag and the arguments that go with it.
#[derive(Debug, Copy, Clone)]
pub struct CDevTransactionPayload {
    pub txn_type: TransactionType,
    pub args: CDevP2PTransferTransactionArgument,
}

/// An unsigned transaction; the expiration is in seconds since the epoch.
#[derive(Debug, Copy, Clone)]
pub struct CDevRawTransaction {
    pub sender: [u8; 32],
    pub sequence_number: u64,
    pub payload: CDevTransactionPayload,
    pub max_gas_amount: u64,
    pub gas_unit_price: u64,
    pub expiration_time_secs: u64,
}

/// A raw transaction with the signer's public key and signature.
#[derive(Debug, Copy, Clone)]
pub struct CDevSignedTransaction {
    pub raw_txn: CDevRawTransaction,
    pub public_key: [u8; 32],
    pub signature: [u8; 64],
}

/// Which payment event an event was resolved to.
#[derive(Debug, Copy, Clone, PartialEq, Eq, Structural)]
pub enum LibraEventType {
    SentPaymentEvent,
    ReceivedPaymentEvent,
    UndefinedEvent,
}

/// A payment between two accounts, with the null-terminated name of the
/// module that emitted it.
#[derive(Debug, Copy, Clone)]
pub struct LibraPaymentEvent {
    pub sender_address: [u8; 32],
    pub receiver_address: [u8; 32],
    pub amount: u64,
    pub module: [u8; 255],
}

/// A resolved event: its kind and its payment.
#[derive(Debug, Copy, Clone)]
pub struct LibraEvent {
    pub event_type: LibraEventType,
    pub payment_event: LibraPaymentEvent,
}

} // verus!
