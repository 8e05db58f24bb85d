//! The typed surface of the node's JSON-RPC interface.
//!
//! Each method of [`RpcClient`] describes one call: the method to invoke and
//! its parameter list. A transport sends the description over a connection
//! to the client's endpoint and decodes the answer; nothing here performs
//! I/O.

use crate::address::Address;
use crate::keys::{BlockId, EndorsementId, OperationId, PrivateKey};
use crate::method::Method;
use crate::operation::SignedOperation;
use vstd::prelude::*;

verus! {

/// An IP address of a peer.
#[derive(Clone, Copy, Debug, PartialEq, Eq, Hash)]
pub enum IpAddress {
    V4 { octets: [u8; 4] },
    V6 { segments: [u16; 8] },
}

/// A span of time in milliseconds since the Unix epoch, from `start`
/// (included) to `end` (excluded); a missing bound leaves that side open.
#[derive(Clone, Copy, Debug, PartialEq, Eq)]
pub struct TimeInterval {
    pub start: Option<u64>,
    pub end: Option<u64>,
}

/// One call of a node method: the method and the list of its parameters,
/// which goes on the wire as a single JSON array.
#[derive(Clone, Debug, PartialEq, Eq)]
pub struct Request<P> {
    pub method: Method,
    pub params: Vec<P>,
}

impl<P> Request<P> {
    /// Whether the request invokes `method` with exactly the parameter list
    /// `params`.
    pub open spec fn carries(self, method: Method, params: Seq<P>) -> bool {
        &&& self.method == method
        &&& self.params@ =~= params
    }

    /// Whether the parameter list has the length the method declares.
    pub open spec fn well_formed(self) -> bool {
        self.params@.len() == self.method.spec_arity()
    }
}

/// The scheme that every endpoint is reached by.
pub open spec fn url_scheme() -> Seq<char> {
    "http://"@
}

/// The typed interface to one node, identified by the URL of its endpoint.
#[derive(Clone, Debug, PartialEq, Eq)]
pub struct RpcClient {
    url: String,
}

/// A client of the node at a socket address.
#[derive(Clone, Debug, PartialEq, Eq)]
pub struct Client(pub RpcClient);

impl Client {
    /// The client of the node that listens on `socket_addr`, an IP address
    /// and a port in their usual notation.
    pub fn new(socket_addr: &str) -> (client: Client)
        ensures
            client.0.endpoint() == url_scheme() + socket_addr@,
    {
        let public_url = String::from_str("http://").concat(socket_addr);
        Client(RpcClient::from_url(public_url.as_str()))
    }
}

impl RpcClient {
    /// The URL of the node's endpoint.
    pub closed spec fn endpoint(&self) -> Seq<char> {
        self.url@
    }

    /// The interface to the node at `url`.
    pub fn from_url(url: &str) -> (client: RpcClient)
        ensures
            client.endpoint() == url@,
    {
        RpcClient { url: String::from_str(url) }
    }

    /// The URL of the node's endpoint.
    pub fn url(&self) -> (url: &str)
        ensures
            url@ == self.endpoint(),
    {
        self.url.as_str()
    }

    /// Gracefully stop the node.
    pub fn stop_node(&self) -> (request: Request<()>)
        ensures
            request.carries(Method::StopNode, Seq::empty()),
            request.well_formed(),
    {
        Request { method: Method::StopNode, params: Vec::new() }
    }

    /// Sign a message with the node's key. The node answers with the public
    /// key that signed and the signature.
    pub fn node_sign_message(&self, message: Vec<u8>) -> (request: Request<Vec<u8>>)
        ensures
            request.carries(Method::NodeSignMessage, seq![message]),
            request.well_formed(),
    {
        Request { method: Method::NodeSignMessage, params: vec![message] }
    }

    /// Add private keys for the node to stake with.
    pub fn add_staking_private_keys(&self, private_keys: Vec<PrivateKey>) -> (request: Request<
        Vec<PrivateKey>,
    >)
        ensures
            request.carries(Method::AddStakingPrivateKeys, seq![private_keys]),
            request.well_formed(),
    {
        Request { method: Method::AddStakingPrivateKeys, params: vec![private_keys] }
    }

    /// Remove addresses from those the node stakes with.
    pub fn remove_staking_addresses(&self, addresses: Vec<Address>) -> (request: Request<
        Vec<Address>,
    >)
        ensures
            request.carries(Method::RemoveStakingAddresses, seq![addresses]),
            request.well_formed(),
    {
        Request { method: Method::RemoveStakingAddresses, params: vec![addresses] }
    }

    /// Ask for the set of addresses the node stakes with.
    pub fn get_staking_addresses(&self) -> (request: Request<()>)
        ensures
            request.carries(Method::GetStakingAddresses, Seq::empty()),
            request.well_formed(),
    {
        Request { method: Method::GetStakingAddresses, params: Vec::new() }
    }

    /// Ban the given peers.
    pub fn ban(&self, ips: Vec<IpAddress>) -> (request: Request<Vec<IpAddress>>)
        ensures
            request.carries(Method::Ban, seq![ips]),
            request.well_formed(),
    {
        Request { method: Method::Ban, params: vec![ips] }
    }

    /// Lift the ban on the given peers.
    pub fn unban(&self, ips: Vec<IpAddress>) -> (request: Request<Vec<IpAddress>>)
        ensures
            request.carries(Method::Unban, seq![ips]),
            request.well_formed(),
    {
        Request { method: Method::Unban, params: vec![ips] }
    }

    /// Ask for a summary of the node's state, its configuration included.
    pub fn get_status(&self) -> (request: Request<()>)
        ensures
            request.carries(Method::GetStatus, Seq::empty()),
            request.well_formed(),
    {
        Request { method: Method::GetStatus, params: Vec::new() }
    }

    /// Ask for the cliques of the block graph.
    pub fn get_cliques(&self) -> (request: Request<()>)
        ensures
            request.carries(Method::GetCliques, Seq::empty()),
            request.well_formed(),
    {
        Request { method: Method::GetCliques, params: Vec::new() }
    }

    /// Ask for the active stakers and their roll counts in the current cycle.
    pub fn get_stakers(&self) -> (request: Request<()>)
        ensures
            request.carries(Method::GetStakers, Seq::empty()),
            request.well_formed(),
    {
        Request { method: Method::GetStakers, params: Vec::new() }
    }

    /// Ask for what the node knows of the operations with the given
    /// identifiers.
    pub fn get_operations(&self, operation_ids: Vec<OperationId>) -> (request: Request<
        Vec<OperationId>,
    >)
        ensures
            request.carries(Method::GetOperations, seq![operation_ids]),
            request.well_formed(),
    {
        Request { method: Method::GetOperations, params: vec![operation_ids] }
    }

    /// Ask for what the node knows of the endorsements with the given
    /// identifiers.
    pub fn get_endorsements(&self, endorsement_ids: Vec<EndorsementId>) -> (request: Request<
        Vec<EndorsementId>,
    >)
        ensures
            request.carries(Method::GetEndorsements, seq![endorsement_ids]),
            request.well_formed(),
    {
        Request { method: Method::GetEndorsements, params: vec![endorsement_ids] }
    }

    /// Ask for the block with the given identifier.
    pub fn get_block(&self, block_id: BlockId) -> (request: Request<BlockId>)
        ensures
            request.carries(Method::GetBlock, seq![block_id]),
            request.well_formed(),
    {
        Request { method: Method::GetBlock, params: vec![block_id] }
    }

    /// Ask for the part of the block graph within a time interval.
    pub fn get_graph_interval(&self, time_interval: TimeInterval) -> (request: Request<
        TimeInterval,
    >)
        ensures
            request.carries(Method::GetGraphInterval, seq![time_interval]),
            request.well_formed(),
    {
        Request { method: Method::GetGraphInterval, params: vec![time_interval] }
    }

    /// Ask for what the node knows of the given addresses.
    pub fn get_addresses(&self, addresses: Vec<Address>) -> (request: Request<Vec<Address>>)
        ensures
            request.carries(Method::GetAddresses, seq![addresses]),
            request.well_formed(),
    {
        Request { method: Method::GetAddresses, params: vec![addresses] }
    }

    /// Submit operations to the node's pool. The node answers with the
    /// identifiers of those it accepted.
    pub fn send_operations(&self, operations: Vec<SignedOperation>) -> (request: Request<
        Vec<SignedOperation>,
    >)
        ensures
            request.carries(Method::SendOperations, seq![operations]),
            request.well_formed(),
    {
        Request { method: Method::SendOperations, params: vec![operations] }
    }
}

} // verus!
