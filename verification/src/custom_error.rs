//! Protocol-level error codes and payloads: the fixed negative server-error
//! codes this service answers with, and the conversion from domain failures
//! to protocol errors.

use vstd::prelude::*;

use crate::text::{dec_of, u64_to_dec_string};

verus! {

pub const JSON_RPC_SERVER_ERROR_LONG_TERM_STORAGE_SLOT_SKIPPED: i64 = -32009;

pub const JSON_RPC_SERVER_ERROR_MIN_CONTEXT_SLOT_NOT_REACHED: i64 = -32016;

pub const JSON_RPC_MYSQL_ERROR: i64 = -32017;

/// The standard code for malformed or out-of-range request parameters.
pub const JSON_RPC_INVALID_PARAMS: i64 = -32602;

/// A domain failure that maps to one of this service's custom error codes.
#[derive(Clone, Debug, PartialEq, Eq)]
pub enum RpcCustomError {
    /// The slot was skipped, or is missing in long-term storage.
    LongTermStorageSlotSkipped { slot: u64 },
    /// The node has not reached the caller's minimum context slot.
    MinContextSlotNotReached { context_slot: u64 },
    /// The storage backend failed; carries its description.
    MySQLError { message: String },
}

/// The structured payload of a minimum-context-slot failure.
#[derive(Clone, Copy, Debug, PartialEq, Eq, Structural)]
pub struct MinContextSlotNotReachedErrorData {
    pub context_slot: u64,
}

/// A protocol-level error: a numeric code, a message, and an optional
/// structured payload.
#[derive(Clone, Debug, PartialEq, Eq)]
pub struct RpcError {
    pub code: i64,
    pub message: String,
    pub data: Option<MinContextSlotNotReachedErrorData>,
}

/// The message reporting a slot missing from long-term storage.
pub open spec fn slot_skipped_text(slot: u64) -> Seq<char> {
    "Slot "@ + dec_of(slot as nat) + " was skipped, or missing in long-term storage"@
}

/// The message reporting an unreached minimum context slot.
pub open spec fn min_context_slot_text() -> Seq<char> {
    "Minimum context slot has not been reached"@
}

impl RpcError {
    /// An invalid-params error carrying the given message.
    pub fn invalid_params(message: String) -> (r: Self)
        ensures
            r.code == JSON_RPC_INVALID_PARAMS,
            r.message@ == message@,
            r.data is None,
    {
        RpcError { code: JSON_RPC_INVALID_PARAMS, message, data: None }
    }

    /// The protocol error a domain failure maps to: each variant has a fixed
    /// code and message shape, and only the minimum-context-slot failure
    /// carries a payload.
    pub fn from_custom(e: RpcCustomError) -> (r: Self)
        ensures
            e matches RpcCustomError::LongTermStorageSlotSkipped { slot } ==> {
                &&& r.code == JSON_RPC_SERVER_ERROR_LONG_TERM_STORAGE_SLOT_SKIPPED
                &&& r.message@ == slot_skipped_text(slot)
                &&& r.data is None
            },
            e matches RpcCustomError::MinContextSlotNotReached { context_slot } ==> {
                &&& r.code == JSON_RPC_SERVER_ERROR_MIN_CONTEXT_SLOT_NOT_REACHED
                &&& r.message@ == min_context_slot_text()
                &&& r.data == Some(MinContextSlotNotReachedErrorData { context_slot })
            },
            e matches RpcCustomError::MySQLError { message } ==> {
                &&& r.code == JSON_RPC_MYSQL_ERROR
                &&& r.message@ == message@
                &&& r.data is None
            },
    {
        match e {
            RpcCustomError::LongTermStorageSlotSkipped { slot } => {
                let mut message = String::from_str("Slot ");
                message.append(u64_to_dec_string(slot).as_str());
                message.append(" was skipped, or missing in long-term storage");
                RpcError {
                    code: JSON_RPC_SERVER_ERROR_LONG_TERM_STORAGE_SLOT_SKIPPED,
                    message,
                    data: None,
                }
            },
            RpcCustomError::MinContextSlotNotReached { context_slot } => RpcError {
                code: JSON_RPC_SERVER_ERROR_MIN_CONTEXT_SLOT_NOT_REACHED,
                message: String::from_str("Minimum context slot has not been reached"),
                data: Some(MinContextSlotNotReachedErrorData { context_slot }),
            },
            RpcCustomError::MySQLError { message } => RpcError {
                code: JSON_RPC_MYSQL_ERROR,
                message,
                data: None,
            },
        }
    }
}

} // verus!
