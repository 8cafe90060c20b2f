use btc_canister::translate::{to_btc_block, to_btc_transaction, MalformedHash};
use btc_canister::wire::{Block, BlockHeader, OutPoint, Transaction, TxIn, TxOut};

fn wire_tx(txid: Vec<u8>) -> Transaction {
    Transaction {
        version: 2,
        lock_time: 7,
        input: vec![TxIn {
            previous_output: OutPoint { txid, vout: 3 },
            script_sig: vec![0xaa, 0xbb],
            sequence: 0xffffffff,
            witness: vec![vec![1, 2], vec![3]],
        }],
        output: vec![TxOut { value: 5000, script_pubkey: vec![0xcc] }],
    }
}

#[test]
fn translates_transaction_field_by_field() {
    let tx = wire_tx(vec![9u8; 32]);
    let t = to_btc_transaction(&tx).unwrap();
    assert_eq!(t.version, 2);
    assert_eq!(t.lock_time, 7);
    assert_eq!(t.input.len(), 1);
    assert_eq!(t.input[0].previous_output.txid.bytes, vec![9u8; 32]);
    assert_eq!(t.input[0].previous_output.vout, 3);
    assert_eq!(t.input[0].script_sig, vec![0xaa, 0xbb]);
    assert_eq!(t.input[0].sequence, 0xffffffff);
    assert_eq!(t.input[0].witness, vec![vec![1, 2], vec![3]]);
    assert_eq!(t.output.len(), 1);
    assert_eq!(t.output[0].value, 5000);
    assert_eq!(t.output[0].script_pubkey, vec![0xcc]);
}

#[test]
fn rejects_transaction_with_short_txid() {
    let tx = wire_tx(vec![9u8; 31]);
    assert_eq!(to_btc_transaction(&tx), Err(MalformedHash));
}

#[test]
fn rejects_transaction_with_long_txid() {
    let tx = wire_tx(vec![9u8; 33]);
    assert_eq!(to_btc_transaction(&tx), Err(MalformedHash));
}

#[test]
fn translates_block_field_by_field() {
    let block = Block {
        header: BlockHeader {
            version: 4,
            prev_blockhash: vec![1u8; 32],
            merkle_root: vec![2u8; 32],
            time: 11,
            bits: 12,
            nonce: 13,
        },
        txdata: vec![wire_tx(vec![9u8; 32])],
    };
    let b = to_btc_block(&block).unwrap();
    assert_eq!(b.header.version, 4);
    assert_eq!(b.header.prev_blockhash.bytes, vec![1u8; 32]);
    assert_eq!(b.header.merkle_root.bytes, vec![2u8; 32]);
    assert_eq!(b.header.time, 11);
    assert_eq!(b.header.bits, 12);
    assert_eq!(b.header.nonce, 13);
    assert_eq!(b.txdata.len(), 1);
}

#[test]
fn rejects_block_with_malformed_parent_hash() {
    let block = Block {
        header: BlockHeader {
            version: 1,
            prev_blockhash: vec![1u8; 20],
            merkle_root: vec![2u8; 32],
            time: 0,
            bits: 0,
            nonce: 0,
        },
        txdata: vec![],
    };
    assert_eq!(to_btc_block(&block), Err(MalformedHash));
}

#[test]
fn rejects_block_with_malformed_merkle_root() {
    let block = Block {
        header: BlockHeader {
            version: 1,
            prev_blockhash: vec![1u8; 32],
            merkle_root: vec![],
            time: 0,
            bits: 0,
            nonce: 0,
        },
        txdata: vec![],
    };
    assert_eq!(to_btc_block(&block), Err(MalformedHash));
}

#[test]
fn rejects_block_whose_transaction_is_malformed() {
    let block = Block {
        header: BlockHeader {
            version: 1,
            prev_blockhash: vec![1u8; 32],
            merkle_root: vec![2u8; 32],
            time: 0,
            bits: 0,
            nonce: 0,
        },
        txdata: vec![wire_tx(vec![9u8; 30])],
    };
    assert_eq!(to_btc_block(&block), Err(MalformedHash));
}
