use vstd::prelude::*;

use crate::chain;
use crate::chain::clone_witness;
use crate::hash::{clone_bytes, Hash32};
use crate::wire;

verus! {

broadcast use Seq::lemma_push_map_commute;

// ----------------------------------------------------------------------------
// Wire translator: the single point where untrusted byte layouts become typed
// domain values. It rejects, rather than truncates, any fixed-length hash
// field of the wrong width, and otherwise copies field by field, so the view
// of the result equals the view of the input.
// ----------------------------------------------------------------------------

/// A fixed-length hash field did not hold exactly 32 bytes.
#[derive(Debug, PartialEq, Eq, Clone)]
pub struct MalformedHash;

/// Translates a wire transaction into a domain transaction.
///
/// Succeeds exactly when every input's referenced transaction id holds 32
/// bytes, and then preserves the transaction's model unchanged.
pub fn to_btc_transaction(transaction: &wire::Transaction) -> (r: Result<
    chain::Transaction,
    MalformedHash,
>)
    ensures
        r is Ok <==> transaction@.wf(),
        r matches Ok(t) ==> t@ == transaction@,
{
    let mut input: Vec<chain::TxIn> = Vec::new();
    let n_in = transaction.input.len();
    let mut i: usize = 0;
    while i < n_in
        invariant
            n_in == transaction.input@.len(),
            i <= n_in,
            input@.map_values(|x: chain::TxIn| x@) == transaction@.input.take(i as int),
            forall|k: int| 0 <= k < i ==> #[trigger] transaction@.input[k].wf(),
        decreases n_in - i,
    {
        let w = &transaction.input[i];
        assert(w@ == transaction@.input[i as int]);
        if w.previous_output.txid.len() != 32 {
            assert(!transaction@.input[i as int].wf());
            assert(!transaction@.wf());
            return Err(MalformedHash);
        }
        let txin = chain::TxIn {
            previous_output: chain::OutPoint {
                txid: Hash32 { bytes: clone_bytes(&w.previous_output.txid) },
                vout: w.previous_output.vout,
            },
            script_sig: clone_bytes(&w.script_sig),
            sequence: w.sequence,
            witness: clone_witness(&w.witness),
        };
        assert(txin@ =~= transaction@.input[i as int]);
        input.push(txin);
        assert(input@.map_values(|x: chain::TxIn| x@) =~= transaction@.input.take(i + 1));
        i += 1;
    }
    assert(transaction@.input.take(n_in as int) =~= transaction@.input);
    let mut output: Vec<chain::TxOut> = Vec::new();
    let n_out = transaction.output.len();
    let mut j: usize = 0;
    while j < n_out
        invariant
            n_out == transaction.output@.len(),
            j <= n_out,
            output@.map_values(|x: chain::TxOut| x@) == transaction@.output.take(j as int),
        decreases n_out - j,
    {
        let w = &transaction.output[j];
        assert(w@ == transaction@.output[j as int]);
        let txout = chain::TxOut {
            value: w.value,
            script_pubkey: clone_bytes(&w.script_pubkey),
        };
        assert(txout@ =~= transaction@.output[j as int]);
        output.push(txout);
        assert(output@.map_values(|x: chain::TxOut| x@) =~= transaction@.output.take(j + 1));
        j += 1;
    }
    assert(transaction@.output.take(n_out as int) =~= transaction@.output);
    let t = chain::Transaction {
        version: transaction.version,
        lock_time: transaction.lock_time,
        input,
        output,
    };
    assert(t@ =~= transaction@);
    Ok(t)
}

/// Translates a wire block into a domain block.
///
/// Succeeds exactly when the header's parent and merkle-root hashes and every
/// transaction's referenced ids hold 32 bytes each, and then preserves the
/// block's model unchanged.
pub fn to_btc_block(block: &wire::Block) -> (r: Result<chain::Block, MalformedHash>)
    ensures
        r is Ok <==> block@.wf(),
        r matches Ok(b) ==> b@ == block@,
{
    if block.header.prev_blockhash.len() != 32 {
        assert(!block@.header.wf());
        return Err(MalformedHash);
    }
    if block.header.merkle_root.len() != 32 {
        assert(!block@.header.wf());
        return Err(MalformedHash);
    }
    let header = chain::Header {
        version: block.header.version,
        prev_blockhash: Hash32 { bytes: clone_bytes(&block.header.prev_blockhash) },
        merkle_root: Hash32 { bytes: clone_bytes(&block.header.merkle_root) },
        time: block.header.time,
        bits: block.header.bits,
        nonce: block.header.nonce,
    };
    assert(header@ =~= block@.header);
    let mut txdata: Vec<chain::Transaction> = Vec::new();
    let n = block.txdata.len();
    let mut i: usize = 0;
    while i < n
        invariant
            n == block.txdata@.len(),
            i <= n,
            txdata@.map_values(|t: chain::Transaction| t@) == block@.txdata.take(i as int),
            forall|k: int| 0 <= k < i ==> #[trigger] block@.txdata[k].wf(),
        decreases n - i,
    {
        assert(block.txdata@[i as int]@ == block@.txdata[i as int]);
        match to_btc_transaction(&block.txdata[i]) {
            Ok(t) => {
                txdata.push(t);
                assert(txdata@.map_values(|t: chain::Transaction| t@) =~= block@.txdata.take(
                    i + 1,
                ));
            },
            Err(e) => {
                assert(!block@.txdata[i as int].wf());
                assert(!block@.wf());
                return Err(e);
            },
        }
        i += 1;
    }
    assert(block@.txdata.take(n as int) =~= block@.txdata);
    let b = chain::Block { header, txdata };
    assert(b@ =~= block@);
    Ok(b)
}

} // verus!
