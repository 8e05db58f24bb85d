//! The pipeline that builds, signs and submits one operation.
//!
//! The pipeline alternates between work that only the outside world can do
//! (calls to the node, reading the clock, looking up and using a key) and
//! decisions. The decisions are [`send_operation`]: given where the pipeline
//! stands and what the last piece of outside work produced, it says what to
//! do next. The driver performs each [`SendAction`] and reports its outcome
//! as the next [`SendEvent`], until the action is [`SendAction::Finish`].

use crate::address::Address;
use crate::amount::Amount;
use crate::error::{describes, SendError};
use crate::keys::{OperationId, PublicKey, Signature};
use crate::method::Method;
use crate::operation::{
    expire_period, expire_period_for, latest_slot_or_first, slot_or_first, OperationContent,
    OperationContentView, OperationType, SignedOperation,
};
use crate::rpc::{Client, Request};
use crate::slot::{NodeConfig, Slot};
use jsonrpc_core_client::RpcError;
use vstd::prelude::*;

verus! {

/// The heading to print before the identifiers of the accepted operations.
pub const SENT_HEADING: &'static str = "Sent operation IDs:";

/// What the caller asked for: the operation to send, its fee, the sending
/// address, and whether output is wanted as JSON only.
#[derive(Clone, Copy, Debug, PartialEq, Eq)]
pub struct SendJob {
    pub op: OperationType,
    pub fee: Amount,
    pub addr: Address,
    pub json: bool,
}

/// What the wallet adds to a content to make it a signed operation.
#[derive(Debug, PartialEq, Eq)]
pub struct Seal {
    pub signature: Signature,
    pub id: OperationId,
}

/// Where the pipeline stands.
#[derive(Clone, Debug, PartialEq, Eq)]
pub enum SendState {
    /// Nothing has been done yet.
    Created { job: SendJob },
    /// The node's status has been asked for.
    AwaitingStatus { job: SendJob },
    /// The latest slot is being derived from the node's configuration.
    AwaitingSlot { job: SendJob, config: NodeConfig },
    /// The sender's public key is being looked up.
    AwaitingPublicKey { job: SendJob, expire_period: u64 },
    /// The content is with the wallet for signing.
    AwaitingSignature { content: OperationContent, address: Address, json: bool },
    /// The signed operation is on its way to the node.
    AwaitingSubmission { json: bool },
    /// The pipeline has ended.
    Finished,
}

/// The outcome of a piece of outside work.
#[derive(Debug)]
pub enum SendEvent {
    /// The driver is ready to begin.
    Start,
    /// The node answered the status call with its configuration, or the
    /// call failed.
    Status(Result<NodeConfig, RpcError>),
    /// The latest slot at the current time, `None` before the first slot, or
    /// the reason why the time configuration yields none.
    LatestSlot(Result<Option<Slot>, String>),
    /// The public key the wallet associates with the address, if any.
    PublicKey(Option<PublicKey>),
    /// The signature of the content and the identifier of the signed
    /// operation, or the reason why the wallet refused.
    Signed(Result<Seal, String>),
    /// The identifiers of the operations the node accepted, or the failure
    /// of the call.
    Submitted(Result<Vec<OperationId>, RpcError>),
}

/// The piece of outside work to do next.
#[derive(Debug, PartialEq, Eq)]
pub enum SendAction {
    /// Call the node for its status.
    GetStatus { request: Request<()> },
    /// Derive the latest slot at the current time, corrected by
    /// `clock_compensation` milliseconds.
    LatestSlot { thread_count: u8, t0: u64, genesis_timestamp: u64, clock_compensation: i64 },
    /// Look up the public key of `address` in the wallet.
    FindPublicKey { address: Address },
    /// Have the wallet sign `content` with the key of `address`.
    Sign { content: OperationContent, address: Address },
    /// Submit the signed operation to the node.
    Submit { request: Request<Vec<SignedOperation>> },
    /// Stop. On success `result` holds the identifiers the node accepted, and
    /// `announce` tells whether to print a heading before them.
    Finish { result: Result<Vec<OperationId>, SendError>, announce: bool },
}

impl SendState {
    /// How many pieces of outside work lie at most between this state and
    /// the end of the pipeline.
    pub open spec fn steps_left(self) -> nat {
        match self {
            SendState::Created { .. } => 6,
            SendState::AwaitingStatus { .. } => 5,
            SendState::AwaitingSlot { .. } => 4,
            SendState::AwaitingPublicKey { .. } => 3,
            SendState::AwaitingSignature { .. } => 2,
            SendState::AwaitingSubmission { .. } => 1,
            SendState::Finished => 0,
        }
    }

    /// The state of a pipeline that has not begun.
    pub fn new(op: OperationType, fee: Amount, addr: Address, json: bool) -> (state: SendState)
        ensures
            state == (SendState::Created { job: SendJob { op, fee, addr, json } }),
    {
        SendState::Created { job: SendJob { op, fee, addr, json } }
    }
}

/// The action that ends the pipeline with `error`.
pub open spec fn failure(error: SendError) -> SendAction {
    SendAction::Finish { result: Err(error), announce: false }
}

/// Whether `action` ends the pipeline because a call of `method` failed with
/// `error`, and carries the transport's description of that error.
pub open spec fn unreachable_at(action: SendAction, method: Method, error: RpcError) -> bool {
    &&& action matches SendAction::Finish { result: Err(failure), announce }
    &&& !announce
    &&& failure matches SendError::NodeUnreachable { method: failed, detail }
    &&& failed == method
    &&& describes(&error, detail)
}

/// Whether `action` submits exactly `operation`, alone.
pub open spec fn submits(action: SendAction, operation: SignedOperation) -> bool {
    &&& action matches SendAction::Submit { request }
    &&& request.method == Method::SendOperations
    &&& request.params@.len() == 1
    &&& request.params@[0]@ =~= seq![operation]
}

/// What the content of the operation that `job` asks for holds, with `key`
/// as the sender's public key and valid until `expire_period`.
pub open spec fn content_of(
    job: SendJob,
    key: Seq<u8>,
    expire_period: u64,
) -> OperationContentView {
    OperationContentView { sender_public_key: key, fee: job.fee, expire_period, op: job.op }
}

/// Whether `next` and `action` hand a content that holds `content` to the
/// wallet, to be signed for `address`, and keep one that holds the same.
pub open spec fn signs(
    next: SendState,
    action: SendAction,
    content: OperationContentView,
    address: Address,
    json: bool,
) -> bool {
    &&& next matches SendState::AwaitingSignature { content: kept, address: sender, json: quiet }
    &&& kept@ == content
    &&& sender == address
    &&& quiet == json
    &&& action matches SendAction::Sign { content: handed, address: signer }
    &&& handed@ == content
    &&& signer == address
}

/// The step relation of the pipeline: whether, in `state` and on `event`, the
/// pipeline moves to `next` and asks for `action`.
pub open spec fn send_step(
    state: SendState,
    event: SendEvent,
    next: SendState,
    action: SendAction,
) -> bool {
    match (state, event) {
        (SendState::Created { job }, SendEvent::Start) => {
            &&& next == SendState::AwaitingStatus { job }
            &&& action matches SendAction::GetStatus { request }
            &&& request.carries(Method::GetStatus, Seq::empty())
        },
        (SendState::AwaitingStatus { job }, SendEvent::Status(Ok(config))) => {
            &&& next == SendState::AwaitingSlot { job, config }
            &&& action == SendAction::LatestSlot {
                thread_count: config.thread_count,
                t0: config.t0,
                genesis_timestamp: config.genesis_timestamp,
                clock_compensation: 0,
            }
        },
        (SendState::AwaitingStatus { .. }, SendEvent::Status(Err(error))) => {
            &&& next == SendState::Finished
            &&& unreachable_at(action, Method::GetStatus, error)
        },
        (SendState::AwaitingSlot { job, config }, SendEvent::LatestSlot(Ok(latest))) => {
            let expire = expire_period_for(slot_or_first(latest), config, job.addr);
            if expire <= u64::MAX {
                &&& next == SendState::AwaitingPublicKey { job, expire_period: expire as u64 }
                &&& action == SendAction::FindPublicKey { address: job.addr }
            } else {
                &&& next == SendState::Finished
                &&& action == failure(SendError::ExpirePeriodOverflow)
            }
        },
        (SendState::AwaitingSlot { .. }, SendEvent::LatestSlot(Err(detail))) => {
            &&& next == SendState::Finished
            &&& action == failure(SendError::SlotComputation { detail })
        },
        (SendState::AwaitingPublicKey { job, expire_period }, SendEvent::PublicKey(Some(key))) => {
            signs(next, action, content_of(job, key@, expire_period), job.addr, job.json)
        },
        (SendState::AwaitingPublicKey { job, .. }, SendEvent::PublicKey(None)) => {
            &&& next == SendState::Finished
            &&& action == failure(SendError::MissingPublicKey { address: job.addr })
        },
        (SendState::AwaitingSignature { content, json, .. }, SendEvent::Signed(Ok(seal))) => {
            &&& next == SendState::AwaitingSubmission { json }
            &&& submits(
                action,
                SignedOperation { content, signature: seal.signature, id: seal.id },
            )
        },
        (SendState::AwaitingSignature { address, .. }, SendEvent::Signed(Err(detail))) => {
            &&& next == SendState::Finished
            &&& action == failure(SendError::Signing { address, detail })
        },
        (SendState::AwaitingSubmission { json }, SendEvent::Submitted(Ok(operation_ids))) => {
            &&& next == SendState::Finished
            &&& action == SendAction::Finish { result: Ok(operation_ids), announce: !json }
        },
        (SendState::AwaitingSubmission { .. }, SendEvent::Submitted(Err(error))) => {
            &&& next == SendState::Finished
            &&& unreachable_at(action, Method::SendOperations, error)
        },
        _ => {
            &&& next == SendState::Finished
            &&& action == failure(SendError::UnexpectedEvent)
        },
    }
}

/// Advances the pipeline by one step: takes the outcome `event` of the work
/// that `state` was waiting for and returns the next state with the work to
/// do next. Requests to the node are those of `client`.
pub fn send_operation(client: &Client, state: SendState, event: SendEvent) -> (next: (
    SendState,
    SendAction,
))
    ensures
        send_step(state, event, next.0, next.1),
{
    match (state, event) {
        (SendState::Created { job }, SendEvent::Start) => {
            (
                SendState::AwaitingStatus { job },
                SendAction::GetStatus { request: client.0.get_status() },
            )
        },
        (SendState::AwaitingStatus { job }, SendEvent::Status(Ok(config))) => {
            (
                SendState::AwaitingSlot { job, config },
                SendAction::LatestSlot {
                    thread_count: config.thread_count,
                    t0: config.t0,
                    genesis_timestamp: config.genesis_timestamp,
                    clock_compensation: 0,
                },
            )
        },
        (SendState::AwaitingStatus { .. }, SendEvent::Status(Err(error))) => {
            let failed = SendError::from_rpc(Method::GetStatus, &error);
            (SendState::Finished, SendAction::Finish { result: Err(failed), announce: false })
        },
        (SendState::AwaitingSlot { job, config }, SendEvent::LatestSlot(Ok(latest))) => {
            let slot = latest_slot_or_first(latest);
            let sender_thread = job.addr.get_thread(config.thread_count);
            match expire_period(slot, config.operation_validity_periods, sender_thread) {
                Some(expire_period) => (
                    SendState::AwaitingPublicKey { job, expire_period },
                    SendAction::FindPublicKey { address: job.addr },
                ),
                None => (
                    SendState::Finished,
                    SendAction::Finish {
                        result: Err(SendError::ExpirePeriodOverflow),
                        announce: false,
                    },
                ),
            }
        },
        (SendState::AwaitingSlot { .. }, SendEvent::LatestSlot(Err(detail))) => {
            (
                SendState::Finished,
                SendAction::Finish {
                    result: Err(SendError::SlotComputation { detail }),
                    announce: false,
                },
            )
        },
        (SendState::AwaitingPublicKey { job, expire_period }, SendEvent::PublicKey(Some(key))) => {
            let content = OperationContent {
                sender_public_key: key,
                fee: job.fee,
                expire_period,
                op: job.op,
            };
            (
                SendState::AwaitingSignature {
                    content: content.clone(),
                    address: job.addr,
                    json: job.json,
                },
                SendAction::Sign { content, address: job.addr },
            )
        },
        (SendState::AwaitingPublicKey { job, .. }, SendEvent::PublicKey(None)) => {
            (
                SendState::Finished,
                SendAction::Finish {
                    result: Err(SendError::MissingPublicKey { address: job.addr }),
                    announce: false,
                },
            )
        },
        (SendState::AwaitingSignature { content, json, .. }, SendEvent::Signed(Ok(seal))) => {
            let operation = SignedOperation { content, signature: seal.signature, id: seal.id };
            (
                SendState::AwaitingSubmission { json },
                SendAction::Submit { request: client.0.send_operations(vec![operation]) },
            )
        },
        (SendState::AwaitingSignature { address, .. }, SendEvent::Signed(Err(detail))) => {
            (
                SendState::Finished,
                SendAction::Finish {
                    result: Err(SendError::Signing { address, detail }),
                    announce: false,
                },
            )
        },
        (SendState::AwaitingSubmission { json }, SendEvent::Submitted(Ok(operation_ids))) => {
            (SendState::Finished, SendAction::Finish { result: Ok(operation_ids), announce: !json })
        },
        (SendState::AwaitingSubmission { .. }, SendEvent::Submitted(Err(error))) => {
            let failed = SendError::from_rpc(Method::SendOperations, &error);
            (SendState::Finished, SendAction::Finish { result: Err(failed), announce: false })
        },
        _ => {
            (
                SendState::Finished,
                SendAction::Finish { result: Err(SendError::UnexpectedEvent), announce: false },
            )
        },
    }
}

/// The pipeline is linear: every step moves it strictly closer to its end,
/// so that no piece of outside work is ever asked for twice, and it ends
/// exactly when the action is to finish.
pub proof fn lemma_pipeline_advances(
    state: SendState,
    event: SendEvent,
    next: SendState,
    action: SendAction,
)
    requires
        send_step(state, event, next, action),
    ensures
        state != SendState::Finished ==> next.steps_left() < state.steps_left(),
        next.steps_left() == 0 || next.steps_left() + 1 == state.steps_left(),
        action is Finish <==> next == SendState::Finished,
{
}

/// A missing public key is fatal to the build: the pipeline ends with the
/// precondition error for the sender's address, and asks for no signature.
pub proof fn lemma_missing_key_ends_build(
    job: SendJob,
    expire_period: u64,
    next: SendState,
    action: SendAction,
)
    requires
        send_step(
            SendState::AwaitingPublicKey { job, expire_period },
            SendEvent::PublicKey(None),
            next,
            action,
        ),
    ensures
        next == SendState::Finished,
        action == failure(SendError::MissingPublicKey { address: job.addr }),
        !(action is Sign),
{
}

/// The wallet is asked to sign only in answer to a key that was found: in
/// every other state and on every other event the action is another one.
pub proof fn lemma_sign_needs_found_key(
    state: SendState,
    event: SendEvent,
    next: SendState,
    action: SendAction,
)
    requires
        send_step(state, event, next, action),
        action is Sign,
    ensures
        state is AwaitingPublicKey,
        event matches SendEvent::PublicKey(Some(_)),
{
}

/// Once the pipeline has ended it stays ended, whatever arrives: no call, no
/// lookup and no signature is asked for again.
pub proof fn lemma_finished_is_final(event: SendEvent, next: SendState, action: SendAction)
    requires
        send_step(SendState::Finished, event, next, action),
    ensures
        next == SendState::Finished,
        action == failure(SendError::UnexpectedEvent),
{
}

/// A call that fails is reported, never retried: in whatever state its
/// failure arrives, the pipeline ends with an error.
pub proof fn lemma_failed_call_ends_with_error(
    state: SendState,
    event: SendEvent,
    next: SendState,
    action: SendAction,
)
    requires
        send_step(state, event, next, action),
        event matches SendEvent::Status(Err(_)) || event matches SendEvent::Submitted(Err(_)),
    ensures
        next == SendState::Finished,
        action matches SendAction::Finish { result: Err(_), announce: false },
        event matches SendEvent::Status(Err(error)) ==> (state is AwaitingStatus
            ==> unreachable_at(action, Method::GetStatus, error)),
        event matches SendEvent::Submitted(Err(error)) ==> (state is AwaitingSubmission
            ==> unreachable_at(action, Method::SendOperations, error)),
{
}

/// The content handed to the wallet holds exactly what the build was given:
/// the fee and the operation of the job, the key that the wallet found, and
/// the expire period derived from the slot, the node's configuration and the
/// sender's address.
pub proof fn lemma_content_matches_inputs(
    job: SendJob,
    config: NodeConfig,
    latest: Option<Slot>,
    key: PublicKey,
    waiting: SendState,
    lookup: SendAction,
    next: SendState,
    action: SendAction,
)
    requires
        send_step(
            SendState::AwaitingSlot { job, config },
            SendEvent::LatestSlot(Ok(latest)),
            waiting,
            lookup,
        ),
        send_step(waiting, SendEvent::PublicKey(Some(key)), next, action),
        expire_period_for(slot_or_first(latest), config, job.addr) <= u64::MAX,
    ensures
        lookup == (SendAction::FindPublicKey { address: job.addr }),
        action matches SendAction::Sign { content, address },
        action->Sign_address == job.addr,
        action->Sign_content@.sender_public_key == key@,
        action->Sign_content@.fee == job.fee,
        action->Sign_content@.op == job.op,
        action->Sign_content@.expire_period == expire_period_for(
            slot_or_first(latest),
            config,
            job.addr,
        ),
{
}

/// Signing alters no field: the operation that is submitted embeds what the
/// content handed to the wallet held, whatever signature and identifier the
/// wallet came back with, and it is submitted alone.
pub proof fn lemma_signing_keeps_content(
    job: SendJob,
    expire_period: u64,
    key: PublicKey,
    seal: Seal,
    waiting: SendState,
    signing: SendAction,
    next: SendState,
    action: SendAction,
)
    requires
        send_step(
            SendState::AwaitingPublicKey { job, expire_period },
            SendEvent::PublicKey(Some(key)),
            waiting,
            signing,
        ),
        send_step(waiting, SendEvent::Signed(Ok(seal)), next, action),
    ensures
        signing matches SendAction::Sign { content, address },
        action matches SendAction::Submit { request },
        next == (SendState::AwaitingSubmission { json: job.json }),
        action->Submit_request.well_formed(),
        action->Submit_request.params@[0]@.len() == 1,
        action->Submit_request.params@[0]@[0]@.content == signing->Sign_content@,
        action->Submit_request.params@[0]@[0]@.content == content_of(job, key@, expire_period),
        action->Submit_request.params@[0]@[0].signature == seal.signature,
        action->Submit_request.params@[0]@[0].id == seal.id,
{
}

/// A run in which all outside work succeeds goes through the six steps in
/// order and ends well: the status is asked for, the slot derived from the
/// node's configuration without clock compensation, the sender's key looked
/// up, the content built from the job signed, the signed operation submitted
/// alone, and the accepted identifiers returned, announced unless JSON
/// output was asked for.
pub proof fn lemma_successful_run(
    job: SendJob,
    config: NodeConfig,
    latest: Option<Slot>,
    key: PublicKey,
    seal: Seal,
    operation_ids: Vec<OperationId>,
    states: Seq<SendState>,
    actions: Seq<SendAction>,
)
    requires
        states.len() == 6,
        actions.len() == 6,
        send_step(SendState::Created { job }, SendEvent::Start, states[0], actions[0]),
        send_step(states[0], SendEvent::Status(Ok(config)), states[1], actions[1]),
        send_step(states[1], SendEvent::LatestSlot(Ok(latest)), states[2], actions[2]),
        send_step(states[2], SendEvent::PublicKey(Some(key)), states[3], actions[3]),
        send_step(states[3], SendEvent::Signed(Ok(seal)), states[4], actions[4]),
        send_step(states[4], SendEvent::Submitted(Ok(operation_ids)), states[5], actions[5]),
        expire_period_for(slot_or_first(latest), config, job.addr) <= u64::MAX,
    ensures
        actions[0] is GetStatus,
        actions[1] == (SendAction::LatestSlot {
            thread_count: config.thread_count,
            t0: config.t0,
            genesis_timestamp: config.genesis_timestamp,
            clock_compensation: 0,
        }),
        actions[2] == (SendAction::FindPublicKey { address: job.addr }),
        actions[3] is Sign,
        actions[3]->Sign_address == job.addr,
        actions[3]->Sign_content@ == content_of(
            job,
            key@,
            expire_period_for(slot_or_first(latest), config, job.addr) as u64,
        ),
        actions[4] is Submit,
        actions[4]->Submit_request.params@.len() == 1,
        actions[4]->Submit_request.params@[0]@.len() == 1,
        actions[4]->Submit_request.params@[0]@[0]@.content == actions[3]->Sign_content@,
        actions[4]->Submit_request.params@[0]@[0].signature == seal.signature,
        actions[4]->Submit_request.params@[0]@[0].id == seal.id,
        actions[5] == (SendAction::Finish { result: Ok(operation_ids), announce: !job.json }),
        states[5] == SendState::Finished,
{
}

/// Whatever list of identifiers the node accepted is the result, an empty
/// one included: acceptance of nothing is no error.
pub proof fn lemma_accepted_list_is_result(
    json: bool,
    operation_ids: Vec<OperationId>,
    next: SendState,
    action: SendAction,
)
    requires
        send_step(
            SendState::AwaitingSubmission { json },
            SendEvent::Submitted(Ok(operation_ids)),
            next,
            action,
        ),
    ensures
        next == SendState::Finished,
        action == (SendAction::Finish { result: Ok(operation_ids), announce: !json }),
{
}

} // verus!
