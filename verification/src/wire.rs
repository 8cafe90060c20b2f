use vstd::prelude::*;

use crate::chain::{BlockView, HeaderView, OutPointView, TransactionView, TxInView, TxOutView};

verus! {

// ----------------------------------------------------------------------------
// Wire representations: blocks and transactions as delivered by the external
// fetcher, with every hash as a raw byte vector. Their views are the same
// models as the domain types', so the translator's contract is exact: it
// preserves the view and only checks the fixed-length hash fields.
// ----------------------------------------------------------------------------

#[derive(Debug, PartialEq, Eq, Clone)]
pub struct BlockHeader {
    pub version: i32,
    pub prev_blockhash: Vec<u8>,
    pub merkle_root: Vec<u8>,
    pub time: u32,
    pub bits: u32,
    pub nonce: u32,
}

#[derive(Debug, PartialEq, Eq, Clone)]
pub struct OutPoint {
    pub txid: Vec<u8>,
    pub vout: u32,
}

#[derive(Debug, PartialEq, Eq, Clone)]
pub struct TxIn {
    pub previous_output: OutPoint,
    pub script_sig: Vec<u8>,
    pub sequence: u32,
    pub witness: Vec<Vec<u8>>,
}

#[derive(Debug, PartialEq, Eq, Clone)]
pub struct TxOut {
    pub value: u64,
    pub script_pubkey: Vec<u8>,
}

#[derive(Debug, PartialEq, Eq, Clone)]
pub struct Transaction {
    pub version: i32,
    pub lock_time: u32,
    pub input: Vec<TxIn>,
    pub output: Vec<TxOut>,
}

#[derive(Debug, PartialEq, Eq, Clone)]
pub struct Block {
    pub header: BlockHeader,
    pub txdata: Vec<Transaction>,
}

impl View for BlockHeader {
    type V = HeaderView;

    open spec fn view(&self) -> HeaderView {
        HeaderView {
            version: self.version,
            prev_blockhash: self.prev_blockhash@,
            merkle_root: self.merkle_root@,
            time: self.time,
            bits: self.bits,
            nonce: self.nonce,
        }
    }
}

impl View for OutPoint {
    type V = OutPointView;

    open spec fn view(&self) -> OutPointView {
        OutPointView { txid: self.txid@, vout: self.vout }
    }
}

impl View for TxIn {
    type V = TxInView;

    open spec fn view(&self) -> TxInView {
        TxInView {
            previous_output: self.previous_output@,
            script_sig: self.script_sig@,
            sequence: self.sequence,
            witness: self.witness@.map_values(|w: Vec<u8>| w@),
        }
    }
}

impl View for TxOut {
    type V = TxOutView;

    open spec fn view(&self) -> TxOutView {
        TxOutView { value: self.value, script_pubkey: self.script_pubkey@ }
    }
}

impl View for Transaction {
    type V = TransactionView;

    open spec fn view(&self) -> TransactionView {
        TransactionView {
            version: self.version,
            lock_time: self.lock_time,
            input: self.input@.map_values(|x: TxIn| x@),
            output: self.output@.map_values(|x: TxOut| x@),
        }
    }
}

impl View for Block {
    type V = BlockView;

    open spec fn view(&self) -> BlockView {
        BlockView {
            header: self.header@,
            txdata: self.txdata@.map_values(|t: Transaction| t@),
        }
    }
}

// ----------------------------------------------------------------------------
// Request and response wire messages exchanged with the external fetcher.
// ----------------------------------------------------------------------------

/// An incremental fetch request: the anchor marks the boundary below which
/// blocks are already known, and the exclusion list names every other block
/// the caller already holds.
#[derive(Debug, PartialEq, Eq, Clone)]
pub struct GetSuccessorsRequest {
    pub anchor: Vec<u8>,
    pub processed_block_hashes: Vec<Vec<u8>>,
}

#[verifier::ext_equal]
pub struct GetSuccessorsRequestView {
    pub anchor: Seq<u8>,
    pub processed_block_hashes: Seq<Seq<u8>>,
}

impl View for GetSuccessorsRequest {
    type V = GetSuccessorsRequestView;

    open spec fn view(&self) -> GetSuccessorsRequestView {
        GetSuccessorsRequestView {
            anchor: self.anchor@,
            processed_block_hashes: self.processed_block_hashes@.map_values(|h: Vec<u8>| h@),
        }
    }
}

/// Newly fetched blocks plus an advisory list of next header hashes.
#[derive(Debug, PartialEq, Eq, Clone)]
pub struct GetSuccessorsResponse {
    pub blocks: Vec<Block>,
    pub next: Vec<Vec<u8>>,
}

#[verifier::ext_equal]
pub struct GetSuccessorsResponseView {
    pub blocks: Seq<BlockView>,
    pub next: Seq<Seq<u8>>,
}

impl View for GetSuccessorsResponse {
    type V = GetSuccessorsResponseView;

    open spec fn view(&self) -> GetSuccessorsResponseView {
        GetSuccessorsResponseView {
            blocks: self.blocks@.map_values(|b: Block| b@),
            next: self.next@.map_values(|h: Vec<u8>| h@),
        }
    }
}

/// The acknowledgement of a transaction submission; carried through the queue
/// but deliberately ignored by the sync driver.
#[derive(Debug, PartialEq, Eq, Clone)]
pub struct SendTransactionResponse {}

/// The closed union of response kinds the adapter can deliver.
#[derive(Debug, PartialEq, Eq, Clone)]
pub enum BitcoinAdapterResponseWrapper {
    GetSuccessorsResponse(GetSuccessorsResponse),
    SendTransactionResponse(SendTransactionResponse),
}

#[verifier::ext_equal]
pub enum ResponseWrapperView {
    GetSuccessorsResponse(GetSuccessorsResponseView),
    SendTransactionResponse,
}

impl View for BitcoinAdapterResponseWrapper {
    type V = ResponseWrapperView;

    open spec fn view(&self) -> ResponseWrapperView {
        match self {
            BitcoinAdapterResponseWrapper::GetSuccessorsResponse(r) =>
                ResponseWrapperView::GetSuccessorsResponse(r@),
            BitcoinAdapterResponseWrapper::SendTransactionResponse(_) =>
                ResponseWrapperView::SendTransactionResponse,
        }
    }
}

} // verus!
