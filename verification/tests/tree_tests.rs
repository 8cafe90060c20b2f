use btc_canister::blocktree::BlockDoesNotExtendTree;
use btc_canister::queues::{AdapterQueues, QueueFull};
use btc_canister::state::State;
use btc_canister::store;
use btc_canister::translate::to_btc_block;
use btc_canister::wire::{Block, BlockHeader, GetSuccessorsRequest, OutPoint, Transaction, TxIn,
    TxOut};

fn wire_block(prev: Vec<u8>, nonce: u32, txdata: Vec<Transaction>) -> Block {
    Block {
        header: BlockHeader {
            version: 1,
            prev_blockhash: prev,
            merkle_root: vec![0u8; 32],
            time: 0,
            bits: 0,
            nonce,
        },
        txdata,
    }
}

fn coinbase_tx(value: u64) -> Transaction {
    Transaction {
        version: 1,
        lock_time: 0,
        input: vec![],
        output: vec![TxOut { value, script_pubkey: vec![0xaa] }],
    }
}

fn anchor_hash(state: &State) -> Vec<u8> {
    store::get_unstable_blocks(state)[0].block_hash().to_vec()
}

#[test]
fn insert_rejects_block_that_does_not_extend_tree() {
    let mut state = State::default();
    let block = to_btc_block(&wire_block(vec![5u8; 32], 0, vec![coinbase_tx(50)])).unwrap();
    let result = store::insert_block(&mut state, block.clone());
    match result {
        Err(BlockDoesNotExtendTree(b)) => assert_eq!(b, block),
        Ok(()) => panic!("a block with an unknown parent must be rejected"),
    }
    assert_eq!(store::get_unstable_blocks(&state).len(), 1);
    assert_eq!(state.utxos.utxos_len(), 0);
    assert_eq!(store::main_chain_height(&state), 0);
}

#[test]
fn accepted_block_extends_tree_and_fills_index() {
    let mut state = State::default();
    let genesis = anchor_hash(&state);
    let block = to_btc_block(&wire_block(genesis, 1, vec![coinbase_tx(50)])).unwrap();
    assert!(store::insert_block(&mut state, block).is_ok());
    assert_eq!(store::get_unstable_blocks(&state).len(), 2);
    assert_eq!(store::main_chain_height(&state), 1);
    assert_eq!(state.utxos.utxos_len(), 1);
    let utxo = &state.utxos.utxos[0];
    assert_eq!(utxo.vout, 0);
    assert_eq!(utxo.value, 50);
    assert_eq!(utxo.script_pubkey, vec![0xaa]);
    assert_eq!(utxo.height, 1);
}

#[test]
fn spending_transaction_consumes_referenced_output() {
    let mut state = State::default();
    let genesis = anchor_hash(&state);
    let block_a = to_btc_block(&wire_block(genesis, 1, vec![coinbase_tx(50)])).unwrap();
    let coinbase_txid = block_a.txdata[0].txid().to_vec();
    let a_hash = block_a.block_hash().to_vec();
    assert!(store::insert_block(&mut state, block_a).is_ok());
    assert_eq!(state.utxos.utxos_len(), 1);

    let spender = Transaction {
        version: 1,
        lock_time: 0,
        input: vec![TxIn {
            previous_output: OutPoint { txid: coinbase_txid, vout: 0 },
            script_sig: vec![],
            sequence: 0,
            witness: vec![],
        }],
        output: vec![
            TxOut { value: 20, script_pubkey: vec![0xbb] },
            TxOut { value: 30, script_pubkey: vec![0xcc] },
        ],
    };
    let block_b = to_btc_block(&wire_block(a_hash, 2, vec![spender])).unwrap();
    assert!(store::insert_block(&mut state, block_b).is_ok());
    // One output spent, two created.
    assert_eq!(state.utxos.utxos_len(), 2);
    assert_eq!(store::main_chain_height(&state), 2);
    assert_eq!(state.utxos.utxos[0].value, 20);
    assert_eq!(state.utxos.utxos[1].value, 30);
    assert_eq!(state.utxos.utxos[0].height, 2);
}

#[test]
fn forked_branches_are_tolerated() {
    let mut state = State::default();
    let genesis = anchor_hash(&state);
    let block_a = to_btc_block(&wire_block(genesis.clone(), 1, vec![])).unwrap();
    let block_b = to_btc_block(&wire_block(genesis, 2, vec![])).unwrap();
    assert!(store::insert_block(&mut state, block_a).is_ok());
    assert!(store::insert_block(&mut state, block_b).is_ok());
    // Two competing branches above the anchor, each one block long.
    assert_eq!(store::get_unstable_blocks(&state).len(), 3);
    assert_eq!(store::main_chain_height(&state), 1);
}

#[test]
fn push_request_fails_when_one_is_outstanding() {
    let mut queues = AdapterQueues::new();
    let first = GetSuccessorsRequest { anchor: vec![0u8; 32], processed_block_hashes: vec![] };
    let second = GetSuccessorsRequest { anchor: vec![1u8; 32], processed_block_hashes: vec![] };
    assert_eq!(queues.push_request(first.clone()), Ok(()));
    assert_eq!(queues.push_request(second), Err(QueueFull));
    assert_eq!(queues.num_requests(), 1);
    assert_eq!(queues.in_flight, Some(first));
}

#[test]
fn pop_response_returns_none_on_empty_queue() {
    let mut queues = AdapterQueues::new();
    assert!(queues.pop_response().is_none());
    assert_eq!(queues.num_responses(), 0);
}
