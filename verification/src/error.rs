//! Failures of an operation build.

use crate::address::Address;
use crate::method::Method;
use jsonrpc_core_client::RpcError;
use vstd::prelude::*;

verus! {

/// `jsonrpc_core_client::RpcError`, the error that a call over the transport
/// ends in. It is carried through as it is; nothing inside it is read.
#[verifier::external_type_specification]
#[verifier::external_body]
pub struct ExRpcError(jsonrpc_core_client::RpcError);

/// Why an operation was not sent.
#[derive(Clone, Debug, PartialEq, Eq)]
pub enum SendError {
    /// A call of `method` failed: the node is unreachable, or it answered
    /// with an error or with something that does not parse. `detail` is the
    /// transport's own description.
    NodeUnreachable { method: Method, detail: String },
    /// The current slot could not be derived from the node's time
    /// configuration.
    SlotComputation { detail: String },
    /// The expire period does not fit in 64 bits.
    ExpirePeriodOverflow,
    /// The wallet holds no key for the sender's address.
    MissingPublicKey { address: Address },
    /// The wallet could not sign the operation.
    Signing { address: Address, detail: String },
    /// An outcome arrived that the pipeline was not waiting for.
    UnexpectedEvent,
}

/// Whether `detail` is the transport's own description of `error`: the text
/// that the error displays as.
pub open spec fn describes(error: &RpcError, detail: String) -> bool {
    vstd::string::to_string_from_display_ensures::<RpcError>(error, detail)
}

/// What precedes the transport's description in the message of a failed
/// call.
pub open spec fn unreachable_prefix() -> Seq<char> {
    "check if your node is running: "@
}

impl SendError {
    /// The human-readable diagnostic of the failure.
    pub open spec fn spec_message(self) -> Seq<char> {
        match self {
            SendError::NodeUnreachable { detail, .. } => unreachable_prefix() + detail@,
            SendError::SlotComputation { detail } => detail@,
            SendError::ExpirePeriodOverflow => "Expire period overflow"@,
            SendError::MissingPublicKey { .. } => "Missing public key"@,
            SendError::Signing { detail, .. } => detail@,
            SendError::UnexpectedEvent => "Unexpected event"@,
        }
    }

    /// The human-readable diagnostic of the failure.
    pub fn message(&self) -> (text: String)
        ensures
            text@ == self.spec_message(),
    {
        match self {
            SendError::NodeUnreachable { detail, .. } => String::from_str(
                "check if your node is running: ",
            ).concat(detail.as_str()),
            SendError::SlotComputation { detail } => detail.clone(),
            SendError::ExpirePeriodOverflow => String::from_str("Expire period overflow"),
            SendError::MissingPublicKey { .. } => String::from_str("Missing public key"),
            SendError::Signing { detail, .. } => detail.clone(),
            SendError::UnexpectedEvent => String::from_str("Unexpected event"),
        }
    }

    /// The failure of a call of `method` that ended in the transport error
    /// `error`. Its detail is the text that `error` displays as; what that
    /// text holds is the transport's business.
    pub fn from_rpc(method: Method, error: &RpcError) -> (failure: SendError)
        ensures
            failure is NodeUnreachable,
            failure->NodeUnreachable_method == method,
            describes(error, failure->NodeUnreachable_detail),
    {
        SendError::NodeUnreachable { method, detail: error.to_string() }
    }
}

} // verus!
