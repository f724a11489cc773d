//! Ledger values as the canonical decoder yields them, held as plain values.
use vstd::prelude::*;

verus! {

/// The on-chain descriptor of a value's type.
pub enum TypeTagRecord {
    Bool,
    U64,
    ByteArray,
    Address,
    Struct(StructTagRecord),
}

/// A structured type: the module and name that declare it, at an address,
/// with its type parameters.
pub struct StructTagRecord {
    pub address: [u8; 32],
    pub module: Vec<u8>,
    pub name: Vec<u8>,
    pub type_params: Vec<TypeTagRecord>,
}

/// A stream of events of an account, as stored on chain.
pub struct EventHandleRecord {
    pub count: u64,
    pub key: Vec<u8>,
}

/// An account's resource, as stored on chain.
pub struct AccountResourceRecord {
    pub balance: u64,
    pub sequence_number: u64,
    pub authentication_key: Vec<u8>,
    pub delegated_key_rotation_capability: bool,
    pub delegated_withdrawal_capability: bool,
    pub sent_events: EventHandleRecord,
    pub received_events: EventHandleRecord,
}

/// An argument handed to a transaction script.
pub enum TransactionArgument {
    U64(u64),
    Address([u8; 32]),
    ByteArray(Vec<u8>),
    String(Vec<u8>),
}

/// A program and the arguments it runs with.
pub struct ScriptRecord {
    pub code: Vec<u8>,
    pub args: Vec<TransactionArgument>,
}

/// What a transaction does. Only a script is read by this library; the other
/// kinds are carried as they are.
pub enum TransactionPayloadRecord {
    Script(ScriptRecord),
    Other,
}

/// An unsigned transaction; the expiration is in seconds since the epoch.
pub struct RawTransactionRecord {
    pub sender: [u8; 32],
    pub sequence_number: u64,
    pub payload: TransactionPayloadRecord,
    pub max_gas_amount: u64,
    pub gas_unit_price: u64,
    pub expiration_time_secs: u64,
}

/// A raw transaction with the public key and signature of its sender.
pub struct SignedTransactionRecord {
    pub raw_txn: RawTransactionRecord,
    pub public_key: [u8; 32],
    pub signature: [u8; 64],
}

} // verus!
