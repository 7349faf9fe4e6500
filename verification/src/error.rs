//! The fixed error taxonomy of the request surface, with its stable codes.

use vstd::prelude::*;

verus! {

pub const HEADER_NOT_FOUND_ERR_CODE: i64 = -32000;

pub const INVALID_NONCE_ERR_CODE: i64 = -32001;

pub const INTERNAL_ERROR_ERR_CODE: i64 = -32099;

pub const METHOD_NOT_AVAILABLE_ERR_CODE: i64 = -32601;

pub const INVALID_PARAM_ERR_CODE: i64 = -32602;

/// Errors surfaced to a request. The numeric codes are part of the client
/// protocol and never change.
#[derive(Clone, Copy, Debug, PartialEq, Eq, Structural)]
pub enum RpcError {
    /// The requested block number exceeds the finalized tip.
    HeaderNotFound,
    /// A submitted transaction broke the sender's nonce sequence.
    InvalidNonce { account_id: u32, expected: u32, actual: u32 },
    /// The node runs without a mempool; pending-state features are off.
    MemPoolDisabled,
    /// The debug challenge-dump context is not configured on this node.
    DebugNotEnabled,
    /// A request parameter did not resolve (for instance an unknown block).
    InvalidParam,
    /// A store or execution failure.
    InternalError,
}

impl RpcError {
    pub open spec fn code_spec(self) -> i64 {
        match self {
            RpcError::HeaderNotFound => HEADER_NOT_FOUND_ERR_CODE,
            RpcError::InvalidNonce { .. } => INVALID_NONCE_ERR_CODE,
            RpcError::MemPoolDisabled => METHOD_NOT_AVAILABLE_ERR_CODE,
            RpcError::DebugNotEnabled => METHOD_NOT_AVAILABLE_ERR_CODE,
            RpcError::InvalidParam => INVALID_PARAM_ERR_CODE,
            RpcError::InternalError => INTERNAL_ERROR_ERR_CODE,
        }
    }

    /// The stable numeric code sent to clients.
    pub fn code(&self) -> (c: i64)
        ensures
            c == self.code_spec(),
    {
        match self {
            RpcError::HeaderNotFound => HEADER_NOT_FOUND_ERR_CODE,
            RpcError::InvalidNonce { .. } => INVALID_NONCE_ERR_CODE,
            RpcError::MemPoolDisabled => METHOD_NOT_AVAILABLE_ERR_CODE,
            RpcError::DebugNotEnabled => METHOD_NOT_AVAILABLE_ERR_CODE,
            RpcError::InvalidParam => INVALID_PARAM_ERR_CODE,
            RpcError::InternalError => INTERNAL_ERROR_ERR_CODE,
        }
    }

    /// A short description of the error class.
    pub fn message(&self) -> (m: &'static str) {
        match self {
            RpcError::HeaderNotFound => "header not found",
            RpcError::InvalidNonce { .. } => "invalid nonce",
            RpcError::MemPoolDisabled => "mem-pool is disabled",
            RpcError::DebugNotEnabled => "offchain validator is not enable, unable to dump cancel challenge tx",
            RpcError::InvalidParam => "invalid parameter",
            RpcError::InternalError => "internal error",
        }
    }
}

pub fn header_not_found_err() -> (r: RpcError)
    ensures
        r == RpcError::HeaderNotFound,
{
    RpcError::HeaderNotFound
}

pub fn mem_pool_is_disabled_err() -> (r: RpcError)
    ensures
        r == RpcError::MemPoolDisabled,
{
    RpcError::MemPoolDisabled
}

} // verus!
