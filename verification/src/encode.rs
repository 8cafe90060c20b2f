use vstd::prelude::*;

use crate::chain::{Header, HeaderView, Transaction, TransactionView, TxIn, TxInView, TxOut,
    TxOutView};
use crate::hash::sha256d_of;

verus! {

// ----------------------------------------------------------------------------
// Consensus serialization of headers and transactions, stated byte by byte.
// A block hash is the double-SHA-256 digest of the 80-byte header encoding; a
// transaction id is the digest of the transaction encoding without witnesses.
// ----------------------------------------------------------------------------

pub open spec fn u16_le(v: u16) -> Seq<u8> {
    seq![(v % 256) as u8, ((v / 256) % 256) as u8]
}

pub open spec fn u32_le(v: u32) -> Seq<u8> {
    seq![
        (v % 256) as u8,
        ((v / 256) % 256) as u8,
        ((v / 0x10000) % 256) as u8,
        ((v / 0x1000000) % 256) as u8,
    ]
}

pub open spec fn u64_le(v: u64) -> Seq<u8> {
    seq![
        (v % 256) as u8,
        ((v / 256) % 256) as u8,
        ((v / 0x10000) % 256) as u8,
        ((v / 0x1000000) % 256) as u8,
        ((v / 0x100000000) % 256) as u8,
        ((v / 0x10000000000) % 256) as u8,
        ((v / 0x1000000000000) % 256) as u8,
        ((v / 0x100000000000000) % 256) as u8,
    ]
}

/// The unsigned 32-bit pattern with the same two's-complement bytes as `v`.
pub open spec fn i32_bits(v: i32) -> u32 {
    if v >= 0 {
        v as u32
    } else {
        (v + 0x100000000) as u32
    }
}

pub open spec fn i32_le(v: i32) -> Seq<u8> {
    u32_le(i32_bits(v))
}

/// The variable-length count prefix of the consensus encoding.
pub open spec fn varint(n: int) -> Seq<u8> {
    if n < 0xfd {
        seq![n as u8]
    } else if n <= 0xffff {
        seq![0xfdu8] + u16_le(n as u16)
    } else if n <= 0xffffffff {
        seq![0xfeu8] + u32_le(n as u32)
    } else {
        seq![0xffu8] + u64_le(n as u64)
    }
}

pub open spec fn txin_bytes(i: TxInView) -> Seq<u8> {
    i.previous_output.txid + u32_le(i.previous_output.vout) + varint(i.script_sig.len() as int)
        + i.script_sig + u32_le(i.sequence)
}

pub open spec fn txout_bytes(o: TxOutView) -> Seq<u8> {
    u64_le(o.value) + varint(o.script_pubkey.len() as int) + o.script_pubkey
}

pub open spec fn txins_bytes(s: Seq<TxInView>) -> Seq<u8>
    decreases s.len(),
{
    if s.len() == 0 {
        Seq::empty()
    } else {
        txins_bytes(s.drop_last()) + txin_bytes(s.last())
    }
}

pub open spec fn txouts_bytes(s: Seq<TxOutView>) -> Seq<u8>
    decreases s.len(),
{
    if s.len() == 0 {
        Seq::empty()
    } else {
        txouts_bytes(s.drop_last()) + txout_bytes(s.last())
    }
}

pub open spec fn tx_bytes(t: TransactionView) -> Seq<u8> {
    i32_le(t.version) + varint(t.input.len() as int) + txins_bytes(t.input)
        + varint(t.output.len() as int) + txouts_bytes(t.output) + u32_le(t.lock_time)
}

pub open spec fn header_bytes(h: HeaderView) -> Seq<u8> {
    i32_le(h.version) + h.prev_blockhash + h.merkle_root + u32_le(h.time) + u32_le(h.bits)
        + u32_le(h.nonce)
}

/// The block hash of a header.
pub open spec fn block_hash_of(h: HeaderView) -> Seq<u8> {
    sha256d_of(header_bytes(h))
}

/// The transaction id of a transaction.
pub open spec fn txid_of(t: TransactionView) -> Seq<u8> {
    sha256d_of(tx_bytes(t))
}

// ----------------------------------------------------------------------------
// Executable encoders, proved to produce exactly the bytes stated above.
// ----------------------------------------------------------------------------

fn push_u16_le(dst: &mut Vec<u8>, v: u16)
    ensures
        final(dst)@ == old(dst)@ + u16_le(v),
{
    dst.push((v % 256) as u8);
    dst.push(((v / 256) % 256) as u8);
    assert(dst@ =~= old(dst)@ + u16_le(v));
}

fn push_u32_le(dst: &mut Vec<u8>, v: u32)
    ensures
        final(dst)@ == old(dst)@ + u32_le(v),
{
    dst.push((v % 256) as u8);
    dst.push(((v / 256) % 256) as u8);
    dst.push(((v / 0x10000) % 256) as u8);
    dst.push(((v / 0x1000000) % 256) as u8);
    assert(dst@ =~= old(dst)@ + u32_le(v));
}

fn push_u64_le(dst: &mut Vec<u8>, v: u64)
    ensures
        final(dst)@ == old(dst)@ + u64_le(v),
{
    dst.push((v % 256) as u8);
    dst.push(((v / 256) % 256) as u8);
    dst.push(((v / 0x10000) % 256) as u8);
    dst.push(((v / 0x1000000) % 256) as u8);
    dst.push(((v / 0x100000000) % 256) as u8);
    dst.push(((v / 0x10000000000) % 256) as u8);
    dst.push(((v / 0x1000000000000) % 256) as u8);
    dst.push(((v / 0x100000000000000) % 256) as u8);
    assert(dst@ =~= old(dst)@ + u64_le(v));
}

fn push_i32_le(dst: &mut Vec<u8>, v: i32)
    ensures
        final(dst)@ == old(dst)@ + i32_le(v),
{
    let bits: u32 = if v >= 0 {
        v as u32
    } else {
        ((v as i64) + 0x100000000i64) as u32
    };
    assert(bits == i32_bits(v));
    push_u32_le(dst, bits);
}

fn push_bytes(dst: &mut Vec<u8>, src: &Vec<u8>)
    ensures
        final(dst)@ == old(dst)@ + src@,
{
    let n = src.len();
    let mut i: usize = 0;
    while i < n
        invariant
            n == src@.len(),
            i <= n,
            dst@ == old(dst)@ + src@.take(i as int),
        decreases n - i,
    {
        dst.push(src[i]);
        assert(dst@ =~= old(dst)@ + src@.take(i + 1));
        i += 1;
    }
    assert(dst@ =~= old(dst)@ + src@);
}

fn push_varint(dst: &mut Vec<u8>, n: u64)
    ensures
        final(dst)@ == old(dst)@ + varint(n as int),
{
    if n < 0xfd {
        dst.push(n as u8);
        assert(dst@ =~= old(dst)@ + varint(n as int));
    } else if n <= 0xffff {
        dst.push(0xfdu8);
        push_u16_le(dst, n as u16);
        assert(dst@ =~= old(dst)@ + varint(n as int));
    } else if n <= 0xffffffff {
        dst.push(0xfeu8);
        push_u32_le(dst, n as u32);
        assert(dst@ =~= old(dst)@ + varint(n as int));
    } else {
        dst.push(0xffu8);
        push_u64_le(dst, n);
        assert(dst@ =~= old(dst)@ + varint(n as int));
    }
}

fn push_txin(dst: &mut Vec<u8>, x: &TxIn)
    ensures
        final(dst)@ == old(dst)@ + txin_bytes(x@),
{
    push_bytes(dst, &x.previous_output.txid.bytes);
    push_u32_le(dst, x.previous_output.vout);
    push_varint(dst, x.script_sig.len() as u64);
    push_bytes(dst, &x.script_sig);
    push_u32_le(dst, x.sequence);
    assert(dst@ =~= old(dst)@ + txin_bytes(x@));
}

fn push_txout(dst: &mut Vec<u8>, x: &TxOut)
    ensures
        final(dst)@ == old(dst)@ + txout_bytes(x@),
{
    push_u64_le(dst, x.value);
    push_varint(dst, x.script_pubkey.len() as u64);
    push_bytes(dst, &x.script_pubkey);
    assert(dst@ =~= old(dst)@ + txout_bytes(x@));
}

/// Serializes a header: 80 bytes, as hashed for the block hash.
pub fn encode_header(h: &Header) -> (r: Vec<u8>)
    ensures
        r@ == header_bytes(h@),
{
    let mut r: Vec<u8> = Vec::new();
    push_i32_le(&mut r, h.version);
    push_bytes(&mut r, &h.prev_blockhash.bytes);
    push_bytes(&mut r, &h.merkle_root.bytes);
    push_u32_le(&mut r, h.time);
    push_u32_le(&mut r, h.bits);
    push_u32_le(&mut r, h.nonce);
    assert(r@ =~= header_bytes(h@));
    r
}

/// Serializes a transaction without witnesses, as hashed for the transaction id.
pub fn encode_tx(t: &Transaction) -> (r: Vec<u8>)
    ensures
        r@ == tx_bytes(t@),
{
    let ghost iv: Seq<TxInView> = t@.input;
    let ghost ov: Seq<TxOutView> = t@.output;
    let mut r: Vec<u8> = Vec::new();
    push_i32_le(&mut r, t.version);
    push_varint(&mut r, t.input.len() as u64);
    let ghost pre_ins = r@;
    let n_in = t.input.len();
    let mut i: usize = 0;
    while i < n_in
        invariant
            n_in == t.input@.len(),
            iv == t@.input,
            i <= n_in,
            iv.len() == n_in,
            r@ == pre_ins + txins_bytes(iv.take(i as int)),
        decreases n_in - i,
    {
        assert(t.input@[i as int]@ == iv[i as int]);
        push_txin(&mut r, &t.input[i]);
        proof {
            assert(iv.take(i + 1).drop_last() =~= iv.take(i as int));
            assert(iv.take(i + 1).last() == iv[i as int]);
        }
        i += 1;
    }
    assert(iv.take(n_in as int) =~= iv);
    push_varint(&mut r, t.output.len() as u64);
    let ghost pre_outs = r@;
    let n_out = t.output.len();
    let mut j: usize = 0;
    while j < n_out
        invariant
            n_out == t.output@.len(),
            ov == t@.output,
            j <= n_out,
            ov.len() == n_out,
            r@ == pre_outs + txouts_bytes(ov.take(j as int)),
        decreases n_out - j,
    {
        assert(t.output@[j as int]@ == ov[j as int]);
        push_txout(&mut r, &t.output[j]);
        proof {
            assert(ov.take(j + 1).drop_last() =~= ov.take(j as int));
            assert(ov.take(j + 1).last() == ov[j as int]);
        }
        j += 1;
    }
    assert(ov.take(n_out as int) =~= ov);
    push_u32_le(&mut r, t.lock_time);
    assert(r@ =~= tx_bytes(t@));
    r
}

} // verus!
