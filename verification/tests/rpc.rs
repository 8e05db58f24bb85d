use node_client::address::Address;
use node_client::amount::Amount;
use node_client::keys::{
    BlockId, EndorsementId, OperationId, PrivateKey, PublicKey, Signature,
};
use node_client::method::{Group, Method};
use node_client::operation::{OperationContent, OperationType, SignedOperation};
use node_client::rpc::{Client, IpAddress, Request, RpcClient, TimeInterval};

const ALL_METHODS: [Method; 16] = [
    Method::StopNode,
    Method::NodeSignMessage,
    Method::AddStakingPrivateKeys,
    Method::RemoveStakingAddresses,
    Method::GetStakingAddresses,
    Method::Ban,
    Method::Unban,
    Method::GetStatus,
    Method::GetCliques,
    Method::GetStakers,
    Method::GetOperations,
    Method::GetEndorsements,
    Method::GetBlock,
    Method::GetGraphInterval,
    Method::GetAddresses,
    Method::SendOperations,
];

fn rpc() -> RpcClient {
    RpcClient::from_url("http://127.0.0.1:33035")
}

fn address(first: u8) -> Address {
    let mut bytes = [0u8; 32];
    bytes[0] = first;
    Address::from_bytes(bytes)
}

fn signed(expire_period: u64) -> SignedOperation {
    SignedOperation {
        content: OperationContent {
            sender_public_key: PublicKey { bytes: vec![2, 3, 4] },
            fee: Amount::from_raw(1),
            expire_period,
            op: OperationType::RollSell { roll_count: 2 },
        },
        signature: Signature { bytes: vec![9; 64] },
        id: OperationId { hash: [8; 32] },
    }
}

#[test]
fn method_names_on_the_wire() {
    assert_eq!(Method::StopNode.name(), "stop_node");
    assert_eq!(Method::NodeSignMessage.name(), "node_sign_message");
    assert_eq!(Method::AddStakingPrivateKeys.name(), "add_staking_private_keys");
    assert_eq!(Method::RemoveStakingAddresses.name(), "remove_staking_addresses");
    assert_eq!(Method::GetStakingAddresses.name(), "get_staking_addresses");
    assert_eq!(Method::Ban.name(), "ban");
    assert_eq!(Method::Unban.name(), "unban");
    assert_eq!(Method::GetStatus.name(), "get_status");
    assert_eq!(Method::GetCliques.name(), "get_cliques");
    assert_eq!(Method::GetStakers.name(), "get_stakers");
    assert_eq!(Method::GetOperations.name(), "get_operations");
    assert_eq!(Method::GetEndorsements.name(), "get_endorsements");
    assert_eq!(Method::GetBlock.name(), "get_block");
    assert_eq!(Method::GetGraphInterval.name(), "get_graph_interval");
    assert_eq!(Method::GetAddresses.name(), "get_addresses");
    assert_eq!(Method::SendOperations.name(), "send_operations");
}

#[test]
fn method_names_are_distinct() {
    for (i, a) in ALL_METHODS.iter().enumerate() {
        for (j, b) in ALL_METHODS.iter().enumerate() {
            assert_eq!(a.name() == b.name(), i == j);
        }
    }
}

#[test]
fn method_result_labels() {
    assert_eq!(Method::StopNode.result_label(), "()");
    assert_eq!(Method::NodeSignMessage.result_label(), "PubkeySig");
    assert_eq!(Method::AddStakingPrivateKeys.result_label(), "()");
    assert_eq!(Method::RemoveStakingAddresses.result_label(), "()");
    assert_eq!(Method::GetStakingAddresses.result_label(), "Set<Address>");
    assert_eq!(Method::Ban.result_label(), "()");
    assert_eq!(Method::Unban.result_label(), "()");
    assert_eq!(Method::GetStatus.result_label(), "NodeStatus");
    assert_eq!(Method::GetCliques.result_label(), "Vec<Clique>");
    assert_eq!(Method::GetStakers.result_label(), "Map<Address, u64>");
    assert_eq!(Method::GetOperations.result_label(), "Vec<OperationInfo>");
    assert_eq!(Method::GetEndorsements.result_label(), "Vec<EndorsementInfo>");
    assert_eq!(Method::GetBlock.result_label(), "BlockInfo");
    assert_eq!(Method::GetGraphInterval.result_label(), "Vec<BlockSummary>");
    assert_eq!(Method::GetAddresses.result_label(), "Vec<AddressInfo>");
    assert_eq!(Method::SendOperations.result_label(), "Vec<OperationId>");
}

#[test]
fn method_groups() {
    let control = [
        Method::StopNode,
        Method::NodeSignMessage,
        Method::AddStakingPrivateKeys,
        Method::RemoveStakingAddresses,
        Method::GetStakingAddresses,
        Method::Ban,
        Method::Unban,
    ];
    let explorer = [
        Method::GetStatus,
        Method::GetCliques,
        Method::GetStakers,
        Method::GetOperations,
        Method::GetEndorsements,
        Method::GetBlock,
        Method::GetGraphInterval,
        Method::GetAddresses,
    ];
    for method in control {
        assert_eq!(method.group(), Group::NodeControl);
    }
    for method in explorer {
        assert_eq!(method.group(), Group::Explorer);
    }
    assert_eq!(Method::SendOperations.group(), Group::UserAction);
}

#[test]
fn client_url_is_http_and_the_socket_address() {
    let client = Client::new("127.0.0.1:33035");
    assert_eq!(client.0.url(), "http://127.0.0.1:33035");
    let client = Client::new("[::1]:8080");
    assert_eq!(client.0.url(), "http://[::1]:8080");
    let client = Client::new("");
    assert_eq!(client.0.url(), "http://");
}

#[test]
fn rpc_client_keeps_its_url() {
    assert_eq!(RpcClient::from_url("http://node:1").url(), "http://node:1");
    assert_eq!(RpcClient::from_url("").url(), "");
    assert_eq!(Client::new("10.0.0.1:1"), Client(RpcClient::from_url("http://10.0.0.1:1")));
}

#[test]
fn requests_without_parameters_carry_an_empty_list() {
    assert_eq!(rpc().stop_node(), Request { method: Method::StopNode, params: vec![] });
    assert_eq!(
        rpc().get_staking_addresses(),
        Request { method: Method::GetStakingAddresses, params: vec![] }
    );
    assert_eq!(rpc().get_status(), Request { method: Method::GetStatus, params: vec![] });
    assert_eq!(rpc().get_cliques(), Request { method: Method::GetCliques, params: vec![] });
    assert_eq!(rpc().get_stakers(), Request { method: Method::GetStakers, params: vec![] });
}

#[test]
fn node_sign_message_wraps_the_message() {
    let request = rpc().node_sign_message(vec![1, 2, 3]);
    assert_eq!(request.method, Method::NodeSignMessage);
    assert_eq!(request.params, vec![vec![1u8, 2, 3]]);
    let request = rpc().node_sign_message(vec![]);
    assert_eq!(request.params, vec![Vec::<u8>::new()]);
}

#[test]
fn staking_key_requests_wrap_their_list() {
    let keys = vec![PrivateKey { bytes: vec![1; 32] }, PrivateKey { bytes: vec![2; 32] }];
    let request = rpc().add_staking_private_keys(keys.clone());
    assert_eq!(request.method, Method::AddStakingPrivateKeys);
    assert_eq!(request.params, vec![keys]);

    let addresses = vec![address(1), address(2), address(3)];
    let request = rpc().remove_staking_addresses(addresses.clone());
    assert_eq!(request.method, Method::RemoveStakingAddresses);
    assert_eq!(request.params, vec![addresses]);
}

#[test]
fn ban_and_unban_wrap_their_list() {
    let ips = vec![
        IpAddress::V4 { octets: [192, 168, 0, 1] },
        IpAddress::V6 { segments: [0, 0, 0, 0, 0, 0, 0, 1] },
    ];
    let request = rpc().ban(ips.clone());
    assert_eq!(request.method, Method::Ban);
    assert_eq!(request.params, vec![ips.clone()]);
    let request = rpc().unban(ips.clone());
    assert_eq!(request.method, Method::Unban);
    assert_eq!(request.params, vec![ips]);
}

#[test]
fn lookups_wrap_their_list() {
    let ids = vec![OperationId { hash: [1; 32] }, OperationId { hash: [2; 32] }];
    let request = rpc().get_operations(ids.clone());
    assert_eq!(request.method, Method::GetOperations);
    assert_eq!(request.params, vec![ids]);

    let ids = vec![EndorsementId { hash: [3; 32] }];
    let request = rpc().get_endorsements(ids.clone());
    assert_eq!(request.method, Method::GetEndorsements);
    assert_eq!(request.params, vec![ids]);

    let addresses = vec![address(9)];
    let request = rpc().get_addresses(addresses.clone());
    assert_eq!(request.method, Method::GetAddresses);
    assert_eq!(request.params, vec![addresses]);

    let request = rpc().get_addresses(vec![]);
    assert_eq!(request.params, vec![Vec::<Address>::new()]);
}

#[test]
fn get_block_carries_the_block_id() {
    let id = BlockId { hash: [5; 32] };
    let request = rpc().get_block(id);
    assert_eq!(request, Request { method: Method::GetBlock, params: vec![id] });
}

#[test]
fn get_graph_interval_carries_the_interval_in_a_list() {
    let interval = TimeInterval { start: Some(1000), end: None };
    let request = rpc().get_graph_interval(interval);
    assert_eq!(request, Request { method: Method::GetGraphInterval, params: vec![interval] });
}

#[test]
fn send_operations_wraps_the_operations() {
    let operations = vec![signed(11), signed(12)];
    let request = rpc().send_operations(operations.clone());
    assert_eq!(request.method, Method::SendOperations);
    assert_eq!(request.params, vec![operations]);
}

#[test]
fn send_operations_with_an_empty_list() {
    let request = rpc().send_operations(vec![]);
    assert_eq!(request.method, Method::SendOperations);
    assert_eq!(request.params, vec![Vec::<SignedOperation>::new()]);
}

#[test]
fn every_request_has_at_most_one_parameter() {
    assert_eq!(rpc().stop_node().params.len(), 0);
    assert_eq!(rpc().get_status().params.len(), 0);
    assert_eq!(rpc().node_sign_message(vec![1, 2]).params.len(), 1);
    assert_eq!(rpc().get_addresses(vec![address(1), address(2)]).params.len(), 1);
    assert_eq!(rpc().send_operations(vec![signed(1), signed(2), signed(3)]).params.len(), 1);
}
