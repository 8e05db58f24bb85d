use node_client::amount::Amount;
use node_client::keys::PublicKey;
use node_client::operation::{
    expire_period, latest_slot_or_first, OperationContent, OperationType,
};
use node_client::slot::Slot;

#[test]
fn missing_slot_defaults_to_the_first_slot() {
    assert_eq!(latest_slot_or_first(None), Slot::new(0, 0));
}

#[test]
fn present_slot_is_kept() {
    assert_eq!(latest_slot_or_first(Some(Slot::new(100, 5))), Slot::new(100, 5));
    assert_eq!(latest_slot_or_first(Some(Slot::new(0, 0))), Slot::new(0, 0));
}

#[test]
fn expire_period_adds_one_when_the_sender_thread_is_reached() {
    assert_eq!(expire_period(Slot::new(100, 5), 10, 5), Some(111));
}

#[test]
fn expire_period_adds_one_when_the_sender_thread_is_passed() {
    assert_eq!(expire_period(Slot::new(100, 6), 10, 5), Some(111));
    assert_eq!(expire_period(Slot::new(100, 31), 10, 0), Some(111));
}

#[test]
fn expire_period_is_unchanged_when_the_sender_thread_is_ahead() {
    assert_eq!(expire_period(Slot::new(100, 5), 10, 20), Some(110));
    assert_eq!(expire_period(Slot::new(100, 4), 10, 5), Some(110));
}

#[test]
fn expire_period_from_the_first_slot() {
    assert_eq!(expire_period(Slot::new(0, 0), 10, 0), Some(11));
    assert_eq!(expire_period(Slot::new(0, 0), 10, 1), Some(10));
}

#[test]
fn expire_period_without_validity_periods() {
    assert_eq!(expire_period(Slot::new(42, 3), 0, 4), Some(42));
    assert_eq!(expire_period(Slot::new(42, 3), 0, 3), Some(43));
}

#[test]
fn expire_period_is_strictly_after_the_slot() {
    for period in [0u64, 1, 99, 1 << 40] {
        for thread in 0..32u8 {
            for sender in 0..32u8 {
                for validity in 1..4u64 {
                    let expire = expire_period(Slot::new(period, thread), validity, sender);
                    let skew = if thread >= sender { 1 } else { 0 };
                    assert_eq!(expire, Some(period + validity + skew));
                    assert!(expire.unwrap() > period);
                }
            }
        }
    }
}

#[test]
fn expire_period_that_does_not_fit_is_refused() {
    assert_eq!(expire_period(Slot::new(u64::MAX, 0), 1, 1), None);
    assert_eq!(expire_period(Slot::new(u64::MAX, 5), 0, 5), None);
    assert_eq!(expire_period(Slot::new(u64::MAX - 10, 5), 10, 5), None);
    assert_eq!(expire_period(Slot::new(1, 0), u64::MAX, 9), None);
}

#[test]
fn expire_period_at_the_limit() {
    assert_eq!(expire_period(Slot::new(u64::MAX, 5), 0, 6), Some(u64::MAX));
    assert_eq!(expire_period(Slot::new(u64::MAX - 10, 5), 10, 6), Some(u64::MAX));
    assert_eq!(expire_period(Slot::new(u64::MAX - 11, 5), 10, 5), Some(u64::MAX));
}

#[test]
fn cloned_key_and_content_hold_the_same() {
    let key = PublicKey { bytes: vec![1, 2, 3, 4, 5] };
    assert_eq!(key.clone(), key);
    assert_eq!(PublicKey { bytes: vec![] }.clone(), PublicKey { bytes: vec![] });
    let content = OperationContent {
        sender_public_key: key,
        fee: Amount::from_raw(77),
        expire_period: 1234,
        op: OperationType::RollSell { roll_count: 5 },
    };
    let copy = content.clone();
    assert_eq!(copy, content);
    assert_eq!(copy.sender_public_key.bytes, vec![1, 2, 3, 4, 5]);
    assert_eq!(copy.fee, Amount::from_raw(77));
    assert_eq!(copy.expire_period, 1234);
    assert_eq!(copy.op, OperationType::RollSell { roll_count: 5 });
}
