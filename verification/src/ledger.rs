//! The reward ledger: converts reported vehicle-travel distance into an
//! issued-token amount at an owner-configurable per-meter rate, guarded
//! against duplicate issuance by a replay filter.
//!
//! The issuance instruction delegates the actual token mint to an external
//! service, so it is split in two around that call: `prepare_mint_tokens`
//! validates the request and computes the amount without touching state, and
//! `record_minted` commits the request id to the replay filter once the mint
//! succeeded. A failed mint must simply skip `record_minted`, which leaves
//! the state exactly as before.

use crate::account::AccountId;
use crate::bloom::{add_relation, lemma_add_relation_contains, lemma_bloom_bit_index_range,
    BloomFilter};
use vstd::arithmetic::div_mod::lemma_small_mod;
use vstd::prelude::*;
use vstd::wrapping::u64_specs;

verus! {

/// Errors the reward ledger reports; each is terminal for the operation
/// that raised it and leaves the state unchanged.
#[derive(Clone, Copy, Debug, PartialEq, Eq, Structural)]
pub enum ErrorCode {
    /// The caller is not the owner recorded at creation.
    Unauthorized,
    /// The vehicle-type label is not one of "scooter", "bike" or "electric".
    InvalidVehicleType,
    /// The replay filter reports the transaction id as already processed.
    DuplicateTransactionId,
}

/// The reward ledger: an immutable owner, one issuance rate per vehicle
/// type (tokens per meter traveled), and the replay filter of processed
/// transaction ids.
pub struct ProgramState {
    pub owner: AccountId,
    pub scooter_reward_rate: u64,
    pub bike_reward_rate: u64,
    pub electric_bike_reward_rate: u64,
    pub processed_tx_filter: BloomFilter,
}

/// The issuance rate the ledger holds for a vehicle-type label, or `None`
/// for an unrecognized label.
pub open spec fn spec_rate_for(s: ProgramState, vehicle_type: Seq<char>) -> Option<u64> {
    if vehicle_type == "scooter"@ {
        Some(s.scooter_reward_rate)
    } else if vehicle_type == "bike"@ {
        Some(s.bike_reward_rate)
    } else if vehicle_type == "electric"@ {
        Some(s.electric_bike_reward_rate)
    } else {
        None
    }
}

/// What an issuance request decides, in order: the caller must be the
/// owner, the transaction id must not already be recorded, the vehicle type
/// must be known; the amount is then rate times meters in wrapping 64-bit
/// arithmetic, as the stored design computes it.
pub open spec fn spec_mint_decision(
    s: ProgramState,
    caller: Seq<u8>,
    vehicle_type: Seq<char>,
    meters: u64,
    transaction_id: Seq<u8>,
) -> Result<u64, ErrorCode> {
    if caller != s.owner@ {
        Err(ErrorCode::Unauthorized)
    } else if s.processed_tx_filter.spec_might_contain(transaction_id) {
        Err(ErrorCode::DuplicateTransactionId)
    } else {
        match spec_rate_for(s, vehicle_type) {
            Some(rate) => Ok(u64_specs::wrapping_mul(rate, meters)),
            None => Err(ErrorCode::InvalidVehicleType),
        }
    }
}

/// Creates the ledger with the given owner and rates and an empty replay
/// filter with 3 hash rounds. The owner is fixed for the life of the state.
pub fn initialize(
    owner: AccountId,
    scooter_reward_rate: u64,
    bike_reward_rate: u64,
    electric_bike_reward_rate: u64,
) -> (s: ProgramState)
    ensures
        s.owner == owner,
        s.scooter_reward_rate == scooter_reward_rate,
        s.bike_reward_rate == bike_reward_rate,
        s.electric_bike_reward_rate == electric_bike_reward_rate,
        s.processed_tx_filter.spec_num_hashes() == 3,
        forall|k: int| 0 <= k < 512 ==> !s.processed_tx_filter.bit_set(k),
        forall|item: Seq<u8>| !s.processed_tx_filter.spec_might_contain(item),
{
    let s = ProgramState {
        owner,
        scooter_reward_rate,
        bike_reward_rate,
        electric_bike_reward_rate,
        processed_tx_filter: BloomFilter::new(3),
    };
    proof {
        assert forall|item: Seq<u8>| !s.processed_tx_filter.spec_might_contain(item) by {
            lemma_bloom_bit_index_range(item, 0);
            assert(!s.processed_tx_filter.bit_set(crate::bloom::bloom_bit_index(item, 0)));
        }
    }
    s
}

/// Overwrites the scooter rate. Only the owner may do so; a rejected call
/// leaves the state unchanged.
pub fn update_value_scooter_reward_rate(
    state: &mut ProgramState,
    caller: &AccountId,
    new_value: u64,
) -> (r: Result<(), ErrorCode>)
    ensures
        caller@ != old(state).owner@ ==> r == Err::<(), ErrorCode>(ErrorCode::Unauthorized)
            && *final(state) == *old(state),
        caller@ == old(state).owner@ ==> r == Ok::<(), ErrorCode>(()) && *final(state) == (
        ProgramState { scooter_reward_rate: new_value, ..*old(state) }),
{
    if !(*caller == state.owner) {
        return Err(ErrorCode::Unauthorized);
    }
    state.scooter_reward_rate = new_value;
    Ok(())
}

/// Overwrites the bike rate. Only the owner may do so; a rejected call
/// leaves the state unchanged.
pub fn update_value_bike_reward_rate(
    state: &mut ProgramState,
    caller: &AccountId,
    new_value: u64,
) -> (r: Result<(), ErrorCode>)
    ensures
        caller@ != old(state).owner@ ==> r == Err::<(), ErrorCode>(ErrorCode::Unauthorized)
            && *final(state) == *old(state),
        caller@ == old(state).owner@ ==> r == Ok::<(), ErrorCode>(()) && *final(state) == (
        ProgramState { bike_reward_rate: new_value, ..*old(state) }),
{
    if !(*caller == state.owner) {
        return Err(ErrorCode::Unauthorized);
    }
    state.bike_reward_rate = new_value;
    Ok(())
}

/// Overwrites the electric-bike rate. Only the owner may do so; a rejected
/// call leaves the state unchanged.
pub fn update_value_electric_bike_reward_rate(
    state: &mut ProgramState,
    caller: &AccountId,
    new_value: u64,
) -> (r: Result<(), ErrorCode>)
    ensures
        caller@ != old(state).owner@ ==> r == Err::<(), ErrorCode>(ErrorCode::Unauthorized)
            && *final(state) == *old(state),
        caller@ == old(state).owner@ ==> r == Ok::<(), ErrorCode>(()) && *final(state) == (
        ProgramState { electric_bike_reward_rate: new_value, ..*old(state) }),
{
    if !(*caller == state.owner) {
        return Err(ErrorCode::Unauthorized);
    }
    state.electric_bike_reward_rate = new_value;
    Ok(())
}

/// Validates an issuance request and computes the amount to mint, without
/// changing any state: the owner gate, the replay check and the vehicle-type
/// lookup, then rate times meters in wrapping 64-bit arithmetic. When the
/// product fits in 64 bits the amount is exactly rate times meters.
pub fn prepare_mint_tokens(
    state: &ProgramState,
    caller: &AccountId,
    vehicle_type: &String,
    meters: u64,
    transaction_id: &[u8; 32],
) -> (r: Result<u64, ErrorCode>)
    ensures
        r == spec_mint_decision(*state, caller@, vehicle_type@, meters, transaction_id@),
        (spec_rate_for(*state, vehicle_type@) matches Some(rate) && caller@ == state.owner@
            && !state.processed_tx_filter.spec_might_contain(transaction_id@) && rate * meters
            <= u64::MAX) ==> r == Ok::<u64, ErrorCode>((spec_rate_for(*state, vehicle_type@)->Some_0
            * meters) as u64),
{
    if !(*caller == state.owner) {
        return Err(ErrorCode::Unauthorized);
    }
    if state.processed_tx_filter.might_contain(transaction_id.as_slice()) {
        return Err(ErrorCode::DuplicateTransactionId);
    }
    let rate: u64 = if *vehicle_type == "scooter".to_owned() {
        state.scooter_reward_rate
    } else if *vehicle_type == "bike".to_owned() {
        state.bike_reward_rate
    } else if *vehicle_type == "electric".to_owned() {
        state.electric_bike_reward_rate
    } else {
        return Err(ErrorCode::InvalidVehicleType);
    };
    let amount = rate.wrapping_mul(meters);
    proof {
        if rate * meters <= u64::MAX {
            lemma_small_mod((rate * meters) as nat, 0x1_0000_0000_0000_0000 as nat);
        }
    }
    Ok(amount)
}

/// Commits a prepared issuance once the external mint call succeeded:
/// records the transaction id in the replay filter. Nothing else changes,
/// and from now on the filter reports the id as seen. When the mint fails,
/// this is simply not called and the state stays exactly as before.
pub fn record_minted(state: &mut ProgramState, transaction_id: &[u8; 32])
    ensures
        final(state).owner == old(state).owner,
        final(state).scooter_reward_rate == old(state).scooter_reward_rate,
        final(state).bike_reward_rate == old(state).bike_reward_rate,
        final(state).electric_bike_reward_rate == old(state).electric_bike_reward_rate,
        add_relation(
            old(state).processed_tx_filter,
            final(state).processed_tx_filter,
            transaction_id@,
        ),
        final(state).processed_tx_filter.spec_might_contain(transaction_id@),
{
    state.processed_tx_filter.add(transaction_id.as_slice());
}

/// Replay protection: a request id the filter does not yet report is
/// accepted once (given the owner calls with a known vehicle type), and
/// after it is recorded every further issuance request with the same id is
/// rejected as a duplicate, whatever vehicle type or distance it names.
pub proof fn lemma_replay_protection(
    pre: ProgramState,
    post: ProgramState,
    vehicle_type: Seq<char>,
    meters: u64,
    transaction_id: Seq<u8>,
    vehicle_type2: Seq<char>,
    meters2: u64,
)
    requires
        !pre.processed_tx_filter.spec_might_contain(transaction_id),
        spec_rate_for(pre, vehicle_type) is Some,
        add_relation(pre.processed_tx_filter, post.processed_tx_filter, transaction_id),
        post.owner == pre.owner,
    ensures
        spec_mint_decision(pre, pre.owner@, vehicle_type, meters, transaction_id) is Ok,
        spec_mint_decision(post, pre.owner@, vehicle_type2, meters2, transaction_id) == Err::<
            u64,
            ErrorCode,
        >(ErrorCode::DuplicateTransactionId),
{
    lemma_add_relation_contains(
        pre.processed_tx_filter,
        post.processed_tx_filter,
        transaction_id,
    );
}

/// Changing the scooter rate affects only issuance decisions taken on the
/// updated state; a decision taken on the earlier state still uses the
/// earlier rate.
pub proof fn lemma_rate_update_applies_to_later_calls(
    pre: ProgramState,
    post: ProgramState,
    new_value: u64,
    meters: u64,
    transaction_id: Seq<u8>,
)
    requires
        post == (ProgramState { scooter_reward_rate: new_value, ..pre }),
        !pre.processed_tx_filter.spec_might_contain(transaction_id),
    ensures
        spec_mint_decision(post, pre.owner@, "scooter"@, meters, transaction_id) == Ok::<
            u64,
            ErrorCode,
        >(u64_specs::wrapping_mul(new_value, meters)),
        spec_mint_decision(pre, pre.owner@, "scooter"@, meters, transaction_id) == Ok::<
            u64,
            ErrorCode,
        >(u64_specs::wrapping_mul(pre.scooter_reward_rate, meters)),
{
}

} // verus!
