use vstd::prelude::*;

use crate::encode::{block_hash_of, txid_of};
use crate::hash::{clone_bytes, sha256d, Hash32};

verus! {

// ----------------------------------------------------------------------------
// Mathematical models. These structs are the views of both the wire types and
// the domain types: the wire translator preserves the view exactly and only
// establishes well-formedness (all fixed-length hash fields hold 32 bytes).
// ----------------------------------------------------------------------------

#[verifier::ext_equal]
pub struct HeaderView {
    pub version: i32,
    pub prev_blockhash: Seq<u8>,
    pub merkle_root: Seq<u8>,
    pub time: u32,
    pub bits: u32,
    pub nonce: u32,
}

#[verifier::ext_equal]
pub struct OutPointView {
    pub txid: Seq<u8>,
    pub vout: u32,
}

#[verifier::ext_equal]
pub struct TxInView {
    pub previous_output: OutPointView,
    pub script_sig: Seq<u8>,
    pub sequence: u32,
    pub witness: Seq<Seq<u8>>,
}

#[verifier::ext_equal]
pub struct TxOutView {
    pub value: u64,
    pub script_pubkey: Seq<u8>,
}

#[verifier::ext_equal]
pub struct TransactionView {
    pub version: i32,
    pub lock_time: u32,
    pub input: Seq<TxInView>,
    pub output: Seq<TxOutView>,
}

#[verifier::ext_equal]
pub struct BlockView {
    pub header: HeaderView,
    pub txdata: Seq<TransactionView>,
}

impl HeaderView {
    /// Both fixed-length hash fields hold exactly 32 bytes.
    pub open spec fn wf(self) -> bool {
        &&& self.prev_blockhash.len() == 32
        &&& self.merkle_root.len() == 32
    }
}

impl TxInView {
    /// The referenced transaction id holds exactly 32 bytes.
    pub open spec fn wf(self) -> bool {
        self.previous_output.txid.len() == 32
    }
}

impl TransactionView {
    /// Every input references a 32-byte transaction id.
    pub open spec fn wf(self) -> bool {
        forall|i: int| 0 <= i < self.input.len() ==> #[trigger] self.input[i].wf()
    }
}

impl BlockView {
    /// The header and every transaction are well-formed.
    pub open spec fn wf(self) -> bool {
        &&& self.header.wf()
        &&& forall|i: int| 0 <= i < self.txdata.len() ==> #[trigger] self.txdata[i].wf()
    }
}

// ----------------------------------------------------------------------------
// Domain types: the chain objects held by the block tree and the unspent-output
// index. Hash fields are typed, 32-byte values; only the wire translator
// creates them from raw bytes.
// ----------------------------------------------------------------------------

#[derive(Debug, PartialEq, Eq, Clone)]
pub struct Header {
    pub version: i32,
    pub prev_blockhash: Hash32,
    pub merkle_root: Hash32,
    pub time: u32,
    pub bits: u32,
    pub nonce: u32,
}

#[derive(Debug, PartialEq, Eq, Clone)]
pub struct OutPoint {
    pub txid: Hash32,
    pub vout: u32,
}

#[derive(Debug, PartialEq, Eq, Clone)]
pub struct TxIn {
    pub previous_output: OutPoint,
    pub script_sig: Vec<u8>,
    pub sequence: u32,
    pub witness: Vec<Vec<u8>>,
}

#[derive(Debug, PartialEq, Eq, Clone)]
pub struct TxOut {
    pub value: u64,
    pub script_pubkey: Vec<u8>,
}

#[derive(Debug, PartialEq, Eq, Clone)]
pub struct Transaction {
    pub version: i32,
    pub lock_time: u32,
    pub input: Vec<TxIn>,
    pub output: Vec<TxOut>,
}

#[derive(Debug, PartialEq, Eq, Clone)]
pub struct Block {
    pub header: Header,
    pub txdata: Vec<Transaction>,
}

impl View for Header {
    type V = HeaderView;

    open spec fn view(&self) -> HeaderView {
        HeaderView {
            version: self.version,
            prev_blockhash: self.prev_blockhash@,
            merkle_root: self.merkle_root@,
            time: self.time,
            bits: self.bits,
            nonce: self.nonce,
        }
    }
}

impl View for OutPoint {
    type V = OutPointView;

    open spec fn view(&self) -> OutPointView {
        OutPointView { txid: self.txid@, vout: self.vout }
    }
}

impl View for TxIn {
    type V = TxInView;

    open spec fn view(&self) -> TxInView {
        TxInView {
            previous_output: self.previous_output@,
            script_sig: self.script_sig@,
            sequence: self.sequence,
            witness: self.witness@.map_values(|w: Vec<u8>| w@),
        }
    }
}

impl View for TxOut {
    type V = TxOutView;

    open spec fn view(&self) -> TxOutView {
        TxOutView { value: self.value, script_pubkey: self.script_pubkey@ }
    }
}

impl View for Transaction {
    type V = TransactionView;

    open spec fn view(&self) -> TransactionView {
        TransactionView {
            version: self.version,
            lock_time: self.lock_time,
            input: self.input@.map_values(|x: TxIn| x@),
            output: self.output@.map_values(|x: TxOut| x@),
        }
    }
}

impl View for Block {
    type V = BlockView;

    open spec fn view(&self) -> BlockView {
        BlockView {
            header: self.header@,
            txdata: self.txdata@.map_values(|t: Transaction| t@),
        }
    }
}

impl Header {
    /// The block hash: the double-SHA-256 digest of the 80-byte serialized header.
    pub fn block_hash(&self) -> (r: Hash32)
        ensures
            r@ == block_hash_of(self@),
            r.wf(),
    {
        let bytes = crate::encode::encode_header(self);
        let digest = sha256d(&bytes);
        Hash32 { bytes: digest }
    }
}

impl Block {
    pub fn block_hash(&self) -> (r: Hash32)
        ensures
            r@ == block_hash_of(self@.header),
            r.wf(),
    {
        self.header.block_hash()
    }
}

impl Transaction {
    /// The transaction id: the double-SHA-256 digest of the serialized
    /// transaction (witness data excluded, as for any transaction id).
    pub fn txid(&self) -> (r: Hash32)
        ensures
            r@ == txid_of(self@),
            r.wf(),
    {
        let bytes = crate::encode::encode_tx(self);
        let digest = sha256d(&bytes);
        Hash32 { bytes: digest }
    }
}

/// Copies a list of witness items.
pub fn clone_witness(w: &Vec<Vec<u8>>) -> (r: Vec<Vec<u8>>)
    ensures
        r@.map_values(|x: Vec<u8>| x@) == w@.map_values(|x: Vec<u8>| x@),
{
    let mut r: Vec<Vec<u8>> = Vec::new();
    let n = w.len();
    let mut i: usize = 0;
    while i < n
        invariant
            n == w@.len(),
            i <= n,
            r@.len() == i,
            forall|k: int| 0 <= k < i ==> r@[k]@ == w@[k]@,
        decreases n - i,
    {
        r.push(clone_bytes(&w[i]));
        i += 1;
    }
    assert(r@.map_values(|x: Vec<u8>| x@) =~= w@.map_values(|x: Vec<u8>| x@));
    r
}

} // verus!
