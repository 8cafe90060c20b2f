use btc_canister::chain::{Header, OutPoint, Transaction, TxIn, TxOut};
use btc_canister::encode::{encode_header, encode_tx};
use btc_canister::hash::Hash32;

fn header(nonce: u32) -> Header {
    Header {
        version: 1,
        prev_blockhash: Hash32 { bytes: vec![1u8; 32] },
        merkle_root: Hash32 { bytes: vec![2u8; 32] },
        time: 3,
        bits: 4,
        nonce,
    }
}

#[test]
fn header_encodes_to_its_eighty_bytes() {
    let mut expected: Vec<u8> = vec![1, 0, 0, 0];
    expected.extend(vec![1u8; 32]);
    expected.extend(vec![2u8; 32]);
    expected.extend(vec![3, 0, 0, 0]);
    expected.extend(vec![4, 0, 0, 0]);
    expected.extend(vec![5, 0, 0, 0]);
    let got = encode_header(&header(5));
    assert_eq!(got.len(), 80);
    assert_eq!(got, expected);
}

#[test]
fn negative_version_encodes_as_twos_complement() {
    let h = Header {
        version: -1,
        prev_blockhash: Hash32 { bytes: vec![0u8; 32] },
        merkle_root: Hash32 { bytes: vec![0u8; 32] },
        time: 0,
        bits: 0,
        nonce: 0,
    };
    let got = encode_header(&h);
    assert_eq!(&got[0..4], &[0xff, 0xff, 0xff, 0xff]);
}

#[test]
fn empty_transaction_encodes_exactly() {
    let t = Transaction { version: 1, lock_time: 0, input: vec![], output: vec![] };
    // version, no inputs, no outputs, lock time.
    assert_eq!(encode_tx(&t), vec![1, 0, 0, 0, 0, 0, 0, 0, 0, 0]);
}

#[test]
fn transaction_encoding_covers_every_field() {
    let t = Transaction {
        version: 2,
        lock_time: 9,
        input: vec![TxIn {
            previous_output: OutPoint { txid: Hash32 { bytes: vec![7u8; 32] }, vout: 1 },
            script_sig: vec![0xab],
            sequence: 0xfffffffe,
            witness: vec![vec![0xde, 0xad]],
        }],
        output: vec![TxOut { value: 256, script_pubkey: vec![0xcd, 0xef] }],
    };
    let mut expected: Vec<u8> = vec![2, 0, 0, 0];
    expected.push(1);
    expected.extend(vec![7u8; 32]);
    expected.extend(vec![1, 0, 0, 0]);
    expected.push(1);
    expected.push(0xab);
    expected.extend(vec![0xfe, 0xff, 0xff, 0xff]);
    expected.push(1);
    expected.extend(vec![0, 1, 0, 0, 0, 0, 0, 0]);
    expected.push(2);
    expected.extend(vec![0xcd, 0xef]);
    expected.extend(vec![9, 0, 0, 0]);
    // Witness data is deliberately absent: the id covers the bare transaction.
    assert_eq!(encode_tx(&t), expected);
}

#[test]
fn long_script_gets_a_two_byte_count_prefix() {
    let t = Transaction {
        version: 1,
        lock_time: 0,
        input: vec![TxIn {
            previous_output: OutPoint { txid: Hash32 { bytes: vec![0u8; 32] }, vout: 0 },
            script_sig: vec![0x11; 253],
            sequence: 0,
            witness: vec![],
        }],
        output: vec![],
    };
    let got = encode_tx(&t);
    let mut expected: Vec<u8> = vec![1, 0, 0, 0];
    expected.push(1);
    expected.extend(vec![0u8; 32]);
    expected.extend(vec![0, 0, 0, 0]);
    expected.extend(vec![0xfd, 253, 0]);
    expected.extend(vec![0x11; 253]);
    expected.extend(vec![0, 0, 0, 0]);
    expected.push(0);
    expected.extend(vec![0, 0, 0, 0]);
    assert_eq!(got, expected);
}

#[test]
fn block_hash_is_thirty_two_bytes_and_depends_on_the_nonce() {
    let h1 = header(5).block_hash();
    let h2 = header(6).block_hash();
    assert_eq!(h1.bytes.len(), 32);
    assert_eq!(h2.bytes.len(), 32);
    // The digest covers the whole header: a change in its last field changes
    // the hash, so the hash is no mere prefix of the encoding.
    assert_ne!(h1.bytes, h2.bytes);
    assert_ne!(h1.bytes, encode_header(&header(5))[0..32].to_vec());
}

#[test]
fn txid_depends_on_the_output_values() {
    let mk = |value: u64| Transaction {
        version: 1,
        lock_time: 0,
        input: vec![],
        output: vec![TxOut { value, script_pubkey: vec![] }],
    };
    let t1 = mk(1).txid();
    let t2 = mk(2).txid();
    assert_eq!(t1.bytes.len(), 32);
    assert_ne!(t1.bytes, t2.bytes);
}

#[test]
fn same_header_always_hashes_the_same() {
    assert_eq!(header(5).block_hash(), header(5).block_hash());
}
