//! Block-lifecycle tests: privileged parameter calls, the author claim, and
//! reward settlement at finalization.

use cle_coin::account::AccountId;
use cle_coin::ledger::Ledger;
use cle_coin::pow_params::{
    inherent_identifier, AuthorSlot, Call, Difficulty, Error, Event, GovernanceModule, Origin,
    ParameterStore,
};

fn acct(b: u8) -> AccountId {
    AccountId::new([b; 32])
}

#[test]
fn reward_last_write_wins_within_block() {
    let mut m = GovernanceModule::new(Difficulty::from_u128(1000), 1);
    let mut led = Ledger::new();
    assert_eq!(m.apply_privileged_call(Call::SetReward(5), Origin::Root), Ok(()));
    assert_eq!(
        m.apply_privileged_call(Call::SetReward(9), Origin::Signed(acct(7))),
        Err(Error::Unauthorized)
    );
    assert_eq!(m.apply_privileged_call(Call::SetReward(3), Origin::Root), Ok(()));
    let a = acct(1);
    assert_eq!(m.apply_author_inherent(&a.bytes.to_vec()), Ok(()));
    m.on_finalize(&mut led);
    assert_eq!(led.balance(&a), 3);
}

#[test]
fn non_privileged_calls_change_nothing() {
    let mut m = GovernanceModule::new(Difficulty::from_u128(1000), 1);
    assert_eq!(
        m.set_difficulty(Origin::Signed(acct(2)), Difficulty::from_u128(42)),
        Err(Error::Unauthorized)
    );
    assert_eq!(m.set_reward(Origin::Unsigned, 42), Err(Error::Unauthorized));
    assert_eq!(m.read_difficulty(), Difficulty::from_u128(1000));
    assert_eq!(m.read_reward(), 1);
    assert!(m.events.is_empty());
}

#[test]
fn privileged_calls_change_state_and_emit() {
    let mut m = GovernanceModule::new(Difficulty::from_u128(1000), 1);
    assert_eq!(m.set_difficulty(Origin::Root, Difficulty::from_u128(77)), Ok(()));
    assert_eq!(m.set_reward(Origin::Root, 12), Ok(()));
    assert_eq!(m.read_difficulty(), Difficulty::from_u128(77));
    assert_eq!(m.read_reward(), 12);
    assert_eq!(
        m.events,
        vec![
            Event::DifficultyChanged(Difficulty::from_u128(77)),
            Event::RewardChanged(12),
        ]
    );
}

#[test]
fn second_author_claim_fails_and_keeps_first() {
    let mut slot = AuthorSlot::new();
    assert_eq!(slot.claim(acct(1)), Ok(()));
    assert_eq!(slot.claim(acct(2)), Err(Error::AlreadyClaimed));
    assert_eq!(slot.author, Some(acct(1)));
}

#[test]
fn second_author_inherent_is_fatal_and_keeps_first() {
    let mut m = GovernanceModule::new(Difficulty::from_u128(1000), 1);
    assert_eq!(m.apply_author_inherent(&acct(1).bytes.to_vec()), Ok(()));
    let r = m.apply_author_inherent(&acct(2).bytes.to_vec());
    assert_eq!(r, Err(Error::AlreadyClaimed));
    assert!(Error::AlreadyClaimed.is_fatal_error());
    assert_eq!(m.author_slot.author, Some(acct(1)));
}

#[test]
fn finalize_always_clears_author_slot() {
    let mut m = GovernanceModule::new(Difficulty::from_u128(1000), 1);
    let mut led = Ledger::new();
    m.on_finalize(&mut led);
    assert_eq!(m.author_slot.author, None);
    assert_eq!(m.apply_author_inherent(&acct(5).bytes.to_vec()), Ok(()));
    assert_eq!(m.author_slot.author, Some(acct(5)));
    m.on_finalize(&mut led);
    assert_eq!(m.author_slot.author, None);
}

#[test]
fn finalize_pays_exactly_the_reward_to_the_author() {
    let mut m = GovernanceModule::new(Difficulty::from_u128(1000), 8);
    let mut led = Ledger::new();
    let a = acct(1);
    let b = acct(2);
    led.deposit_creating(&b, 100);
    assert_eq!(m.apply_author_inherent(&a.bytes.to_vec()), Ok(()));
    m.on_finalize(&mut led);
    assert_eq!(led.balance(&a), 8);
    assert_eq!(led.balance(&b), 100);
}

#[test]
fn finalize_without_author_changes_no_balance() {
    let mut m = GovernanceModule::new(Difficulty::from_u128(1000), 8);
    let mut led = Ledger::new();
    led.deposit_creating(&acct(3), 41);
    let before = led.accounts.clone();
    m.on_finalize(&mut led);
    assert_eq!(led.accounts, before);
    assert_eq!(led.balance(&acct(3)), 41);
}

#[test]
fn end_to_end_two_blocks() {
    let mut m = GovernanceModule::new(Difficulty::from_u128(1000), 1);
    let mut led = Ledger::new();
    let a = acct(10);
    let b = acct(11);
    // Block one: no parameter calls, author claim for `a`.
    assert_eq!(m.apply_author_inherent(&a.bytes.to_vec()), Ok(()));
    m.on_finalize(&mut led);
    assert_eq!(led.balance(&a), 1);
    assert_eq!(m.read_difficulty(), Difficulty::from_u128(1000));
    // Block two: root sets difficulty 5000, then author claim for `b`.
    assert_eq!(m.set_difficulty(Origin::Root, Difficulty::from_u128(5000)), Ok(()));
    assert_eq!(m.apply_author_inherent(&b.bytes.to_vec()), Ok(()));
    m.on_finalize(&mut led);
    assert_eq!(m.read_difficulty(), Difficulty::from_u128(5000));
    assert_eq!(led.balance(&b), 1);
    assert_eq!(led.balance(&a), 1);
    assert_eq!(m.events, vec![Event::DifficultyChanged(Difficulty::from_u128(5000))]);
}

#[test]
fn author_inherent_decode_failure_is_fatal() {
    let mut m = GovernanceModule::new(Difficulty::from_u128(1000), 1);
    let r = m.apply_author_inherent(&vec![1u8; 31]);
    assert_eq!(r, Err(Error::AuthorDecodeFailure));
    assert!(Error::AuthorDecodeFailure.is_fatal_error());
    assert_eq!(m.author_slot.author, None);
}

#[test]
fn author_inherent_takes_first_32_bytes() {
    let mut m = GovernanceModule::new(Difficulty::from_u128(1000), 1);
    let mut raw = vec![9u8; 32];
    raw.push(77);
    raw.push(78);
    assert_eq!(m.apply_author_inherent(&raw), Ok(()));
    assert_eq!(m.author_slot.author, Some(acct(9)));
}

#[test]
fn unauthorized_is_not_fatal() {
    assert!(!Error::Unauthorized.is_fatal_error());
}

#[test]
fn inherent_identifier_is_the_rewards_key() {
    assert_eq!(&inherent_identifier(), b"rewards_");
}

#[test]
fn issuance_saturates_at_the_largest_balance() {
    let mut led = Ledger::new();
    let a = acct(1);
    led.deposit_creating(&a, u128::MAX - 1);
    led.deposit_creating(&a, 5);
    assert_eq!(led.balance(&a), u128::MAX);
}

#[test]
fn author_slot_take_resets() {
    let mut slot = AuthorSlot::new();
    assert_eq!(slot.take(), None);
    assert_eq!(slot.claim(acct(4)), Ok(()));
    assert_eq!(slot.take(), Some(acct(4)));
    assert_eq!(slot.take(), None);
}

#[test]
fn account_equality_is_byte_wise() {
    let a = acct(1);
    let mut other = [1u8; 32];
    other[31] = 2;
    assert!(a.eq_account(&acct(1)));
    assert!(!a.eq_account(&AccountId::new(other)));
}

#[test]
fn parameter_store_defaults() {
    let p = ParameterStore::default();
    assert_eq!(p, ParameterStore::new(Difficulty::from_u128(1000), 1));
}
