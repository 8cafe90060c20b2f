use btc_canister::heartbeat::{BitcoinCanister, BitcoinFeature};
use btc_canister::state::State;
use btc_canister::store;
use btc_canister::translate;
use btc_canister::wire::{BitcoinAdapterResponseWrapper, BlockHeader, GetSuccessorsResponse};

fn make_wire_block(prev: Vec<u8>, nonce: u32) -> btc_canister::wire::Block {
    btc_canister::wire::Block {
        header: BlockHeader {
            version: 1,
            prev_blockhash: prev,
            merkle_root: vec![0u8; 32],
            time: 0,
            bits: 0,
            nonce,
        },
        txdata: vec![],
    }
}

fn anchor_hash(state: &State) -> Vec<u8> {
    store::get_unstable_blocks(state)[0].block_hash().to_vec()
}

#[test]
fn does_not_push_requests_to_adapter_if_feature_is_disabled() {
    let state = State::default();
    assert_eq!(state.adapter_queues.num_requests(), 0);
    let bitcoin_canister = BitcoinCanister::new();
    let state = bitcoin_canister.heartbeat(state, BitcoinFeature::Disabled);
    assert_eq!(state.adapter_queues.num_requests(), 0);
}

#[test]
fn does_not_push_requests_to_adapter_if_feature_is_paused() {
    let state = State::default();
    assert_eq!(state.adapter_queues.num_requests(), 0);
    let bitcoin_canister = BitcoinCanister::new();
    let state = bitcoin_canister.heartbeat(state, BitcoinFeature::Paused);
    assert_eq!(state.adapter_queues.num_requests(), 0);
}

#[test]
fn pushes_requests_to_adapter_if_feature_is_enabled() {
    let state = State::default();
    assert_eq!(state.adapter_queues.num_requests(), 0);
    let bitcoin_canister = BitcoinCanister::new();
    let state = bitcoin_canister.heartbeat(state, BitcoinFeature::Enabled);
    assert_eq!(state.adapter_queues.num_requests(), 1);
}

#[test]
fn first_tick_requests_anchored_at_sole_member() {
    let state = State::default();
    let genesis_hash = anchor_hash(&state);
    let canister = BitcoinCanister::new();
    let state = canister.heartbeat(state, BitcoinFeature::Enabled);
    assert_eq!(state.adapter_queues.num_requests(), 1);
    let req = state.adapter_queues.in_flight.as_ref().unwrap();
    assert_eq!(req.anchor, genesis_hash);
    assert!(req.processed_block_hashes.is_empty());
}

#[test]
fn second_tick_keeps_the_outstanding_request() {
    let state = State::default();
    let canister = BitcoinCanister::new();
    let state = canister.heartbeat(state, BitcoinFeature::Enabled);
    let first_request = state.adapter_queues.in_flight.clone().unwrap();
    let state = canister.heartbeat(state, BitcoinFeature::Enabled);
    assert_eq!(state.adapter_queues.num_requests(), 1);
    assert_eq!(state.adapter_queues.in_flight, Some(first_request));
}

#[test]
fn chained_response_blocks_attach_in_order() {
    let state = State::default();
    let genesis_hash = anchor_hash(&state);
    let canister = BitcoinCanister::new();
    let mut state = canister.heartbeat(state, BitcoinFeature::Enabled);
    assert_eq!(state.adapter_queues.num_requests(), 1);

    let wire_a = make_wire_block(genesis_hash.clone(), 1);
    let a_hash = translate::to_btc_block(&wire_a).unwrap().block_hash().to_vec();
    let wire_b = make_wire_block(a_hash.clone(), 2);
    let b_hash = translate::to_btc_block(&wire_b).unwrap().block_hash().to_vec();

    state.adapter_queues.push_response(BitcoinAdapterResponseWrapper::GetSuccessorsResponse(
        GetSuccessorsResponse { blocks: vec![wire_a, wire_b], next: vec![] },
    ));
    assert_eq!(state.adapter_queues.num_requests(), 0);

    let state = canister.heartbeat(state, BitcoinFeature::Enabled);
    assert_eq!(store::main_chain_height(&state), 2);
    assert_eq!(store::get_unstable_blocks(&state).len(), 3);
    assert_eq!(state.adapter_queues.num_responses(), 0);
    assert_eq!(state.adapter_queues.num_requests(), 1);
    let req = state.adapter_queues.in_flight.as_ref().unwrap();
    assert_eq!(req.anchor, genesis_hash);
    assert_eq!(req.processed_block_hashes, vec![a_hash, b_hash]);
}

#[test]
fn drains_all_responses_in_arrival_order() {
    let state = State::default();
    let genesis_hash = anchor_hash(&state);
    let wire_a = make_wire_block(genesis_hash.clone(), 1);
    let a_hash = translate::to_btc_block(&wire_a).unwrap().block_hash().to_vec();
    let wire_b = make_wire_block(a_hash, 2);

    let mut state = state;
    state.adapter_queues.push_response(BitcoinAdapterResponseWrapper::GetSuccessorsResponse(
        GetSuccessorsResponse { blocks: vec![wire_a], next: vec![] },
    ));
    state.adapter_queues.push_response(BitcoinAdapterResponseWrapper::GetSuccessorsResponse(
        GetSuccessorsResponse { blocks: vec![wire_b], next: vec![] },
    ));
    assert_eq!(state.adapter_queues.num_responses(), 2);

    let canister = BitcoinCanister::new();
    let state = canister.heartbeat(state, BitcoinFeature::Disabled);
    // The second block attaches only because the first response was processed
    // before it, in arrival order.
    assert_eq!(store::main_chain_height(&state), 2);
    assert_eq!(state.adapter_queues.num_responses(), 0);
    assert_eq!(state.adapter_queues.num_requests(), 0);
}

#[test]
fn unknown_parent_block_changes_nothing() {
    let mut state = State::default();
    let canister = BitcoinCanister::new();
    let stranger = make_wire_block(vec![7u8; 32], 9);
    state.adapter_queues.push_response(BitcoinAdapterResponseWrapper::GetSuccessorsResponse(
        GetSuccessorsResponse { blocks: vec![stranger], next: vec![] },
    ));
    let state = canister.heartbeat(state, BitcoinFeature::Paused);
    assert_eq!(store::get_unstable_blocks(&state).len(), 1);
    assert_eq!(state.utxos.utxos_len(), 0);
    assert_eq!(store::main_chain_height(&state), 0);
    assert_eq!(state.adapter_queues.num_responses(), 0);
}

#[test]
fn malformed_block_is_skipped_and_drain_continues() {
    let state = State::default();
    let genesis_hash = anchor_hash(&state);
    let bad = make_wire_block(vec![1u8; 31], 0);
    let good = make_wire_block(genesis_hash, 4);
    let mut state = state;
    state.adapter_queues.push_response(BitcoinAdapterResponseWrapper::GetSuccessorsResponse(
        GetSuccessorsResponse { blocks: vec![bad, good], next: vec![] },
    ));
    let canister = BitcoinCanister::new();
    let state = canister.heartbeat(state, BitcoinFeature::Disabled);
    assert_eq!(store::main_chain_height(&state), 1);
    assert_eq!(store::get_unstable_blocks(&state).len(), 2);
    assert_eq!(state.adapter_queues.num_responses(), 0);
}

#[test]
fn send_transaction_responses_are_ignored() {
    let mut state = State::default();
    state.adapter_queues.push_response(BitcoinAdapterResponseWrapper::SendTransactionResponse(
        btc_canister::wire::SendTransactionResponse {},
    ));
    let canister = BitcoinCanister::new();
    let state = canister.heartbeat(state, BitcoinFeature::Disabled);
    assert_eq!(store::get_unstable_blocks(&state).len(), 1);
    assert_eq!(state.adapter_queues.num_responses(), 0);
}
