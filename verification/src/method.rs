//! The catalogue of node methods.

use vstd::prelude::*;

verus! {

/// A method of the node's JSON-RPC interface.
#[derive(Clone, Copy, Debug, PartialEq, Eq, Hash)]
pub enum Method {
    StopNode,
    NodeSignMessage,
    AddStakingPrivateKeys,
    RemoveStakingAddresses,
    GetStakingAddresses,
    Ban,
    Unban,
    GetStatus,
    GetCliques,
    GetStakers,
    GetOperations,
    GetEndorsements,
    GetBlock,
    GetGraphInterval,
    GetAddresses,
    SendOperations,
}

/// The capability a method belongs to. The node guards the groups; the
/// client exposes them alike.
#[derive(Clone, Copy, Debug, PartialEq, Eq, Hash)]
pub enum Group {
    /// Privileged control of the node itself.
    NodeControl,
    /// Public, read-only queries.
    Explorer,
    /// Actions on behalf of a user.
    UserAction,
}

impl Method {
    /// The name of the method on the wire.
    pub open spec fn spec_name(self) -> Seq<char> {
        match self {
            Method::StopNode => "stop_node"@,
            Method::NodeSignMessage => "node_sign_message"@,
            Method::AddStakingPrivateKeys => "add_staking_private_keys"@,
            Method::RemoveStakingAddresses => "remove_staking_addresses"@,
            Method::GetStakingAddresses => "get_staking_addresses"@,
            Method::Ban => "ban"@,
            Method::Unban => "unban"@,
            Method::GetStatus => "get_status"@,
            Method::GetCliques => "get_cliques"@,
            Method::GetStakers => "get_stakers"@,
            Method::GetOperations => "get_operations"@,
            Method::GetEndorsements => "get_endorsements"@,
            Method::GetBlock => "get_block"@,
            Method::GetGraphInterval => "get_graph_interval"@,
            Method::GetAddresses => "get_addresses"@,
            Method::SendOperations => "send_operations"@,
        }
    }

    /// The label of the result's type, as it appears in the error raised
    /// when a response does not parse.
    pub open spec fn spec_result_label(self) -> Seq<char> {
        match self {
            Method::StopNode => "()"@,
            Method::NodeSignMessage => "PubkeySig"@,
            Method::AddStakingPrivateKeys => "()"@,
            Method::RemoveStakingAddresses => "()"@,
            Method::GetStakingAddresses => "Set<Address>"@,
            Method::Ban => "()"@,
            Method::Unban => "()"@,
            Method::GetStatus => "NodeStatus"@,
            Method::GetCliques => "Vec<Clique>"@,
            Method::GetStakers => "Map<Address, u64>"@,
            Method::GetOperations => "Vec<OperationInfo>"@,
            Method::GetEndorsements => "Vec<EndorsementInfo>"@,
            Method::GetBlock => "BlockInfo"@,
            Method::GetGraphInterval => "Vec<BlockSummary>"@,
            Method::GetAddresses => "Vec<AddressInfo>"@,
            Method::SendOperations => "Vec<OperationId>"@,
        }
    }

    /// The capability group of the method.
    pub open spec fn spec_group(self) -> Group {
        match self {
            Method::StopNode
            | Method::NodeSignMessage
            | Method::AddStakingPrivateKeys
            | Method::RemoveStakingAddresses
            | Method::GetStakingAddresses
            | Method::Ban
            | Method::Unban => Group::NodeControl,
            Method::GetStatus
            | Method::GetCliques
            | Method::GetStakers
            | Method::GetOperations
            | Method::GetEndorsements
            | Method::GetBlock
            | Method::GetGraphInterval
            | Method::GetAddresses => Group::Explorer,
            Method::SendOperations => Group::UserAction,
        }
    }

    /// The number of entries in the method's parameter list.
    pub open spec fn spec_arity(self) -> nat {
        match self {
            Method::StopNode
            | Method::GetStakingAddresses
            | Method::GetStatus
            | Method::GetCliques
            | Method::GetStakers => 0,
            _ => 1,
        }
    }

    /// The name of the method on the wire.
    pub fn name(&self) -> (name: &'static str)
        ensures
            name@ == self.spec_name(),
    {
        match self {
            Method::StopNode => "stop_node",
            Method::NodeSignMessage => "node_sign_message",
            Method::AddStakingPrivateKeys => "add_staking_private_keys",
            Method::RemoveStakingAddresses => "remove_staking_addresses",
            Method::GetStakingAddresses => "get_staking_addresses",
            Method::Ban => "ban",
            Method::Unban => "unban",
            Method::GetStatus => "get_status",
            Method::GetCliques => "get_cliques",
            Method::GetStakers => "get_stakers",
            Method::GetOperations => "get_operations",
            Method::GetEndorsements => "get_endorsements",
            Method::GetBlock => "get_block",
            Method::GetGraphInterval => "get_graph_interval",
            Method::GetAddresses => "get_addresses",
            Method::SendOperations => "send_operations",
        }
    }

    /// The label of the result's type.
    pub fn result_label(&self) -> (label: &'static str)
        ensures
            label@ == self.spec_result_label(),
    {
        match self {
            Method::StopNode => "()",
            Method::NodeSignMessage => "PubkeySig",
            Method::AddStakingPrivateKeys => "()",
            Method::RemoveStakingAddresses => "()",
            Method::GetStakingAddresses => "Set<Address>",
            Method::Ban => "()",
            Method::Unban => "()",
            Method::GetStatus => "NodeStatus",
            Method::GetCliques => "Vec<Clique>",
            Method::GetStakers => "Map<Address, u64>",
            Method::GetOperations => "Vec<OperationInfo>",
            Method::GetEndorsements => "Vec<EndorsementInfo>",
            Method::GetBlock => "BlockInfo",
            Method::GetGraphInterval => "Vec<BlockSummary>",
            Method::GetAddresses => "Vec<AddressInfo>",
            Method::SendOperations => "Vec<OperationId>",
        }
    }

    /// The capability group of the method.
    pub fn group(&self) -> (group: Group)
        ensures
            group == self.spec_group(),
    {
        match self {
            Method::StopNode
            | Method::NodeSignMessage
            | Method::AddStakingPrivateKeys
            | Method::RemoveStakingAddresses
            | Method::GetStakingAddresses
            | Method::Ban
            | Method::Unban => Group::NodeControl,
            Method::GetStatus
            | Method::GetCliques
            | Method::GetStakers
            | Method::GetOperations
            | Method::GetEndorsements
            | Method::GetBlock
            | Method::GetGraphInterval
            | Method::GetAddresses => Group::Explorer,
            Method::SendOperations => Group::UserAction,
        }
    }
}

/// No two methods share a wire name.
pub proof fn lemma_names_distinct(a: Method, b: Method)
    requires
        a.spec_name() == b.spec_name(),
    ensures
        a == b,
{
    reveal_strlit("stop_node");
    reveal_strlit("node_sign_message");
    reveal_strlit("add_staking_private_keys");
    reveal_strlit("remove_staking_addresses");
    reveal_strlit("get_staking_addresses");
    reveal_strlit("ban");
    reveal_strlit("unban");
    reveal_strlit("get_status");
    reveal_strlit("get_cliques");
    reveal_strlit("get_stakers");
    reveal_strlit("get_operations");
    reveal_strlit("get_endorsements");
    reveal_strlit("get_block");
    reveal_strlit("get_graph_interval");
    reveal_strlit("get_addresses");
    reveal_strlit("send_operations");
    let (name_a, name_b) = (a.spec_name(), b.spec_name());
    assert(name_a.len() == name_b.len());
    assert(name_a[0] == name_b[0]);
    assert(name_a[4] == name_b[4]);
}

} // verus!
