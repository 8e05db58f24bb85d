//! Operations and the computation of their validity window.

use crate::address::{thread_of, Address};
use crate::amount::Amount;
use crate::keys::{OperationId, PublicKey, Signature};
use crate::slot::{NodeConfig, Slot};
use vstd::prelude::*;

verus! {

/// What an operation asks the network to do.
#[derive(Clone, Copy, Debug, PartialEq, Eq)]
pub enum OperationType {
    /// Transfer `amount` coins to `recipient_address`.
    Transaction { recipient_address: Address, amount: Amount },
    /// Buy `roll_count` rolls.
    RollBuy { roll_count: u64 },
    /// Sell `roll_count` rolls.
    RollSell { roll_count: u64 },
}

/// The unsigned payload of an operation.
#[derive(Debug, PartialEq, Eq)]
pub struct OperationContent {
    pub sender_public_key: PublicKey,
    pub fee: Amount,
    pub expire_period: u64,
    pub op: OperationType,
}

/// What an [`OperationContent`] holds.
pub struct OperationContentView {
    pub sender_public_key: Seq<u8>,
    pub fee: Amount,
    pub expire_period: u64,
    pub op: OperationType,
}

impl View for OperationContent {
    type V = OperationContentView;

    open spec fn view(&self) -> OperationContentView {
        OperationContentView {
            sender_public_key: self.sender_public_key@,
            fee: self.fee,
            expire_period: self.expire_period,
            op: self.op,
        }
    }
}

impl Clone for OperationContent {
    fn clone(&self) -> (copy: Self)
        ensures
            copy@ == self@,
    {
        OperationContent {
            sender_public_key: self.sender_public_key.clone(),
            fee: self.fee,
            expire_period: self.expire_period,
            op: self.op,
        }
    }
}

/// An operation together with its signature and identifier: the unit that
/// is submitted to the node.
#[derive(Clone, Debug, PartialEq, Eq)]
pub struct SignedOperation {
    pub content: OperationContent,
    pub signature: Signature,
    pub id: OperationId,
}

/// What a [`SignedOperation`] holds.
pub struct SignedOperationView {
    pub content: OperationContentView,
    pub signature: Seq<u8>,
    pub id: Seq<u8>,
}

impl View for SignedOperation {
    type V = SignedOperationView;

    open spec fn view(&self) -> SignedOperationView {
        SignedOperationView {
            content: self.content@,
            signature: self.signature@,
            id: self.id@,
        }
    }
}

/// The slot a build starts from when the node has not produced one yet.
pub open spec fn first_slot() -> Slot {
    Slot { period: 0, thread: 0 }
}

/// The slot a build works with: the latest one, or the first slot where
/// there is none yet.
pub open spec fn slot_or_first(latest: Option<Slot>) -> Slot {
    match latest {
        Some(slot) => slot,
        None => first_slot(),
    }
}

/// One where the thread of `slot` has reached or passed `sender_thread`, so
/// that the sender's turn in this period is over; zero otherwise.
pub open spec fn thread_skew(slot: Slot, sender_thread: int) -> int {
    if slot.thread >= sender_thread {
        1
    } else {
        0
    }
}

/// The sender's next turn: the first slot of `sender_thread` that `slot` has
/// not reached yet. It lies in the period of `slot`, or in the one after
/// where the thread of `slot` has reached or passed `sender_thread`.
pub open spec fn next_turn(slot: Slot, sender_thread: u8) -> Slot {
    Slot {
        period: (slot.period + thread_skew(slot, sender_thread as int)) as u64,
        thread: sender_thread,
    }
}

/// The last period in which an operation built at `slot` by a sender of
/// `sender_thread` may be included.
pub open spec fn expire_period_of(slot: Slot, validity_periods: u64, sender_thread: int) -> int {
    slot.period + validity_periods + thread_skew(slot, sender_thread)
}

/// The expire period of an operation that `address` builds at `slot` on a
/// node configured by `config`.
pub open spec fn expire_period_for(slot: Slot, config: NodeConfig, address: Address) -> int {
    expire_period_of(
        slot,
        config.operation_validity_periods,
        thread_of(address@[0], config.thread_count),
    )
}

/// The latest slot, or the first slot where the node has none yet.
pub fn latest_slot_or_first(latest: Option<Slot>) -> (slot: Slot)
    ensures
        slot == slot_or_first(latest),
{
    match latest {
        Some(slot) => slot,
        None => Slot::new(0, 0),
    }
}

/// The expire period of an operation built at `slot`, or `None` where it
/// does not fit in 64 bits.
pub fn expire_period(slot: Slot, validity_periods: u64, sender_thread: u8) -> (expire: Option<u64>)
    ensures
        expire == if expire_period_of(slot, validity_periods, sender_thread as int) <= u64::MAX {
            Some(expire_period_of(slot, validity_periods, sender_thread as int) as u64)
        } else {
            None
        },
{
    let skew: u64 = if slot.thread >= sender_thread {
        1
    } else {
        0
    };
    match slot.period.checked_add(validity_periods) {
        Some(base) => base.checked_add(skew),
        None => None,
    }
}

/// The expire period of an operation that `address` builds at `slot` is the
/// period of the slot plus the validity periods of the node, plus exactly
/// one where the slot's thread is not below the thread of the address.
pub proof fn lemma_expire_period_skew(slot: Slot, config: NodeConfig, address: Address)
    ensures
        slot.thread >= thread_of(address@[0], config.thread_count) ==> expire_period_for(
            slot,
            config,
            address,
        ) == slot.period + config.operation_validity_periods + 1,
        slot.thread < thread_of(address@[0], config.thread_count) ==> expire_period_for(
            slot,
            config,
            address,
        ) == slot.period + config.operation_validity_periods,
{
}

/// An operation outlives the slot it is built at: with at least one validity
/// period, or with the skew correction, the expire period lies strictly
/// after the slot's period.
pub proof fn lemma_expire_period_after_slot(slot: Slot, config: NodeConfig, address: Address)
    requires
        config.operation_validity_periods > 0 || slot.thread >= thread_of(
            address@[0],
            config.thread_count,
        ),
    ensures
        expire_period_for(slot, config, address) > slot.period,
{
}

/// The validity window counts from the sender's next turn, not from the slot
/// of the build: that turn is the first slot of the sender's thread after
/// `slot`, and the operation expires the validity periods after it.
pub proof fn lemma_window_counts_from_next_turn(
    slot: Slot,
    validity_periods: u64,
    sender_thread: u8,
)
    requires
        slot.period < u64::MAX,
    ensures
        slot.precedes(next_turn(slot, sender_thread)),
        forall|other: Slot|
            other.thread == sender_thread && slot.precedes(other) ==> !other.precedes(
                next_turn(slot, sender_thread),
            ),
        expire_period_of(slot, validity_periods, sender_thread as int) == next_turn(
            slot,
            sender_thread,
        ).period + validity_periods,
{
}

} // verus!
