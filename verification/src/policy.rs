//! The staking policy: when to buy a roll, and for which address.

use crate::address::Address;
use crate::amount::Amount;
use crate::operation::OperationType;
use crate::send::{SendJob, SendState};
use jsonrpc_core_client::RpcError;
use vstd::prelude::*;

verus! {

/// The port a node listens on when none is given.
pub const DEFAULT_PORT: u16 = 33035;

/// The least final balance, in smallest units, with which a roll is bought.
pub const ROLL_PURCHASE_BALANCE: u64 = 100000000000;

/// What the node reports of an address, as far as the policy reads it.
#[derive(Clone, Copy, Debug, PartialEq, Eq)]
pub struct AddressInfo {
    pub address: Address,
    /// Rolls the address will hold once pending operations are applied.
    pub candidate_rolls: u64,
    /// Balance of the address in the final ledger.
    pub final_balance: Amount,
}

/// Whether an address should buy a roll: it holds none, and its final
/// balance reaches the purchase balance.
pub open spec fn wants_roll(info: AddressInfo) -> bool {
    &&& info.candidate_rolls == 0
    &&& info.final_balance@ >= ROLL_PURCHASE_BALANCE
}

/// The purchase of one roll by `address`, without fee and with JSON output.
pub open spec fn roll_purchase_by(address: Address) -> SendState {
    SendState::Created {
        job: SendJob {
            op: OperationType::RollBuy { roll_count: 1 },
            fee: Amount { raw: 0 },
            addr: address,
            json: true,
        },
    }
}

/// The purchase that the policy calls for, given what the node reports of
/// the wallet's addresses: one roll for the first address where that
/// address wants one, nothing otherwise. Only the first address is looked
/// at.
pub open spec fn roll_purchase_of(wallet_addresses: Seq<AddressInfo>) -> Option<SendState> {
    if wallet_addresses.len() > 0 && wants_roll(wallet_addresses[0]) {
        Some(roll_purchase_by(wallet_addresses[0].address))
    } else {
        None
    }
}

/// Decides whether to buy a roll, given the node's answer to the query for
/// the wallet's addresses. Returns the pipeline to run, ready to start, or
/// `None` where no purchase is called for; a query that failed calls for
/// none.
pub fn roll_purchase(wallet_info: &Result<Vec<AddressInfo>, RpcError>) -> (purchase: Option<
    SendState,
>)
    ensures
        purchase == match *wallet_info {
            Ok(wallet_addresses) => roll_purchase_of(wallet_addresses@),
            Err(_) => None,
        },
{
    match wallet_info {
        Ok(wallet_addresses) => {
            if wallet_addresses.len() == 0 {
                return None;
            }
            let first = &wallet_addresses[0];
            if first.candidate_rolls == 0 && first.final_balance.at_least(
                &Amount::from_raw(ROLL_PURCHASE_BALANCE),
            ) {
                Some(
                    SendState::new(
                        OperationType::RollBuy { roll_count: 1 },
                        Amount::from_raw(0),
                        first.address,
                        true,
                    ),
                )
            } else {
                None
            }
        },
        Err(_) => None,
    }
}

} // verus!
