//! The record that is broadcast, and its bytes.
//!
//! A record is two legs back to back. A leg is the venue, the token given,
//! the token taken (20 bytes each), the fee as a variable-length integer
//! and the amount (32 bytes). The bytes fill the front of a payload of
//! fixed size; the rest of the payload is zero.

use vstd::prelude::*;
use iceoryx2_bb_container::vec::FixedSizeVec;
use crate::address::Address;
use crate::registry::{Amount, BestTrade};

verus! {

/// Size of a payload in bytes.
pub const PAYLOAD_CAPACITY: usize = 262;

/// Name of the service that the payloads are published under.
pub const SERVICE_NAME: &'static str = "arbiscan_bot";

/// A payload: the bytes of a record, then zeros.
pub type Payload = [u8; 262];

/// A payload in the container that is handed to the publisher.
pub type IpcMessage = FixedSizeVec<u8, 262>;

/// One leg of a round trip.
#[derive(Clone, Copy, Debug, PartialEq, Eq)]
pub struct ArbTran {
    pub dex: Address,
    pub token_from: Address,
    pub token_to: Address,
    pub fee: u32,
    pub amount: Amount,
}

/// A round trip: the buying leg, then the selling leg.
#[derive(Clone, Copy, Debug, PartialEq, Eq)]
pub struct Opportunity {
    pub first_transaction: ArbTran,
    pub second_transaction: ArbTran,
}

/// Why bytes could not be written or read.
#[derive(Clone, Copy, Debug, PartialEq, Eq, Structural)]
pub enum WireError {
    /// The record does not fit the payload.
    Encode,
    /// The bytes are no record.
    Decode,
}

/// The bytes of a 32-bit number: one byte up to 250; the mark 251 and two
/// bytes up to 65535; the mark 252 and four bytes above. Low byte first.
pub open spec fn varint_u32(v: u32) -> Seq<u8> {
    if v <= 250 {
        seq![v as u8]
    } else if v <= 0xffff {
        seq![251u8, (v % 256) as u8, (v / 256) as u8]
    } else {
        seq![
            252u8,
            (v % 256) as u8,
            ((v / 256) % 256) as u8,
            ((v / 65536) % 256) as u8,
            (v / 16777216) as u8,
        ]
    }
}

/// The 32-bit number that stands at the front of some bytes, and how many
/// bytes it takes.
pub open spec fn parse_varint_u32(b: Seq<u8>) -> Option<(u32, nat)> {
    if b.len() == 0 {
        None
    } else if b[0] <= 250 {
        Some((b[0] as u32, 1))
    } else if b[0] == 251 {
        if b.len() < 3 {
            None
        } else {
            Some(((b[1] + 256 * b[2]) as u32, 3))
        }
    } else if b[0] == 252 {
        if b.len() < 5 {
            None
        } else {
            Some(((b[1] + 256 * b[2] + 65536 * b[3] + 16777216 * b[4]) as u32, 5))
        }
    } else {
        None
    }
}

/// The bytes of a leg.
pub open spec fn tran_encoding(t: ArbTran) -> Seq<u8> {
    t.dex@ + t.token_from@ + t.token_to@ + varint_u32(t.fee) + t.amount@
}

/// The bytes of a record.
pub open spec fn opportunity_encoding(o: Opportunity) -> Seq<u8> {
    tran_encoding(o.first_transaction) + tran_encoding(o.second_transaction)
}

/// A leg stands at the front of some bytes.
pub open spec fn tran_parses(b: Seq<u8>) -> bool {
    b.len() >= 60 && (parse_varint_u32(b.skip(60)) matches Some((_, k)) && b.len() >= 92 + k)
}

/// The leg `t` stands at the front of `b` and takes `n` bytes.
pub open spec fn tran_parses_to(b: Seq<u8>, t: ArbTran, n: nat) -> bool {
    &&& tran_parses(b)
    &&& t.dex@ == b.subrange(0, 20)
    &&& t.token_from@ == b.subrange(20, 40)
    &&& t.token_to@ == b.subrange(40, 60)
    &&& parse_varint_u32(b.skip(60)) matches Some((fee, k)) && {
        &&& t.fee == fee
        &&& t.amount@ == b.subrange(60 + k as int, 92 + k as int)
        &&& n == 92 + k
    }
}

/// Number of bytes of the leg at the front of `b`.
pub open spec fn tran_length(b: Seq<u8>) -> nat {
    (92 + parse_varint_u32(b.skip(60)).unwrap().1) as nat
}

/// A record stands at the front of some bytes.
pub open spec fn opportunity_parses(b: Seq<u8>) -> bool {
    tran_parses(b) && tran_parses(b.skip(tran_length(b) as int))
}

/// Number of bytes of the record at the front of `b`.
pub open spec fn opportunity_length(b: Seq<u8>) -> nat {
    tran_length(b) + tran_length(b.skip(tran_length(b) as int))
}

/// The record `o` stands at the front of `b` and takes `n` bytes.
pub open spec fn opportunity_parses_to(b: Seq<u8>, o: Opportunity, n: nat) -> bool {
    &&& opportunity_parses(b)
    &&& tran_parses_to(b, o.first_transaction, tran_length(b))
    &&& tran_parses_to(
        b.skip(tran_length(b) as int),
        o.second_transaction,
        tran_length(b.skip(tran_length(b) as int)),
    )
    &&& n == opportunity_length(b)
}

/// Some bytes, then zeros up to the size of a payload.
pub open spec fn padded(bytes: Seq<u8>) -> Seq<u8> {
    bytes + Seq::new((262 - bytes.len()) as nat, |i: int| 0u8)
}

/// The bytes in a container.
pub uninterp spec fn message_bytes(m: FixedSizeVec<u8, 262>) -> Seq<u8>;

/// `iceoryx2_bb_container::vec::FixedSizeVec`: a vector of fixed capacity.
/// What it holds is spoken of through [`message_bytes`].
#[verifier::external_type_specification]
#[verifier::external_body]
#[verifier::reject_recursive_types(T)]
pub struct ExFixedSizeVec<T, const CAPACITY: usize>(FixedSizeVec<T, CAPACITY>);

/// `bincode::error::EncodeError`, carried through as it comes.
#[verifier::external_type_specification]
#[verifier::external_body]
pub struct ExEncodeError(bincode::error::EncodeError);

/// `bincode::error::DecodeError`, carried through as it comes.
#[verifier::external_type_specification]
#[verifier::external_body]
pub struct ExDecodeError(bincode::error::DecodeError);

/// `bincode::encode_into_slice` with the standard configuration, on the
/// fields of a record in their order. Believed of it: it writes the bytes
/// of the record to the front of `out`, leaves the rest of `out` alone and
/// returns their number; it fails only where `out` is too short.
#[verifier::external_body]
fn bincode_encode(o: &Opportunity, out: &mut Payload) -> (r: Result<
    usize,
    bincode::error::EncodeError,
>)
    ensures
        match r {
            Ok(n) => {
                &&& n == opportunity_encoding(*o).len()
                &&& n <= 262
                &&& final(out)@.subrange(0, n as int) == opportunity_encoding(*o)
                &&& final(out)@.subrange(n as int, 262) == old(out)@.subrange(n as int, 262)
            },
            Err(_) => opportunity_encoding(*o).len() > 262,
        },
{
    let a = &o.first_transaction;
    let b = &o.second_transaction;
    bincode::encode_into_slice(
        (
            (a.dex, a.token_from, a.token_to, a.fee, a.amount),
            (b.dex, b.token_from, b.token_to, b.fee, b.amount),
        ),
        &mut out[..],
        bincode::config::standard(),
    )
}

/// `bincode::decode_from_slice` with the standard configuration, for the
/// fields of a record in their order. Believed of it: it succeeds exactly
/// where a record stands at the front of the bytes, and then gives that
/// record and the number of bytes that it takes.
#[verifier::external_body]
fn bincode_decode(src: &[u8]) -> (r: Result<(Opportunity, usize), bincode::error::DecodeError>)
    ensures
        match r {
            Ok((o, n)) => opportunity_parses_to(src@, o, n as nat),
            Err(_) => !opportunity_parses(src@),
        },
{
    let (((d1, f1, t1, fee1, a1), (d2, f2, t2, fee2, a2)), n): (
        (([u8; 20], [u8; 20], [u8; 20], u32, [u8; 32]), ([u8; 20], [u8; 20], [u8; 20], u32, [u8; 32])),
        usize,
    ) = bincode::decode_from_slice(src, bincode::config::standard())?;
    let first_transaction = ArbTran { dex: d1, token_from: f1, token_to: t1, fee: fee1, amount: a1 };
    let second_transaction = ArbTran { dex: d2, token_from: f2, token_to: t2, fee: fee2, amount: a2 };
    Ok((Opportunity { first_transaction, second_transaction }, n))
}

/// `FixedSizeVec::new`. Believed of it: the new container is empty.
#[verifier::external_body]
fn new_message() -> (m: FixedSizeVec<u8, 262>)
    ensures
        message_bytes(m) == Seq::<u8>::empty(),
{
    FixedSizeVec::new()
}

/// `FixedSizeVec::extend_from_slice`. Believed of it: where the bytes fit
/// beside those already held, they are appended and the result is `true`;
/// where they do not, nothing changes and the result is `false`.
#[verifier::external_body]
fn extend_message(m: &mut FixedSizeVec<u8, 262>, bytes: &[u8]) -> (ok: bool)
    ensures
        ok == (message_bytes(*old(m)).len() + bytes@.len() <= 262),
        ok ==> message_bytes(*final(m)) == message_bytes(*old(m)) + bytes@,
        !ok ==> message_bytes(*final(m)) == message_bytes(*old(m)),
{
    m.extend_from_slice(bytes)
}

/// `FixedSizeVec::as_slice`, copied out. Believed of it: the slice holds
/// the bytes in the container, in their order.
#[verifier::external_body]
fn message_to_vec(m: &FixedSizeVec<u8, 262>) -> (v: Vec<u8>)
    ensures
        v@ == message_bytes(*m),
{
    m.as_slice().to_vec()
}

/// The record that a slot stands for: its buying leg, then its selling leg.
pub open spec fn packed(trade: BestTrade) -> Opportunity {
    Opportunity {
        first_transaction: ArbTran {
            dex: trade.buy_dex,
            token_from: trade.buy_token_in,
            token_to: trade.buy_token_out,
            fee: trade.buy_fee,
            amount: trade.buy_amount,
        },
        second_transaction: ArbTran {
            dex: trade.sell_dex,
            token_from: trade.sell_token_in,
            token_to: trade.sell_token_out,
            fee: trade.sell_fee,
            amount: trade.sell_amount,
        },
    }
}

/// Makes the record of a slot.
pub fn pack_trade_data(trade: &BestTrade) -> (o: Opportunity)
    ensures
        o == packed(*trade),
{
    Opportunity {
        first_transaction: ArbTran {
            dex: trade.buy_dex,
            token_from: trade.buy_token_in,
            token_to: trade.buy_token_out,
            fee: trade.buy_fee,
            amount: trade.buy_amount,
        },
        second_transaction: ArbTran {
            dex: trade.sell_dex,
            token_from: trade.sell_token_in,
            token_to: trade.sell_token_out,
            fee: trade.sell_fee,
            amount: trade.sell_amount,
        },
    }
}

/// The bytes of a record are at least 186 and at most 194.
pub proof fn lemma_encoding_length(o: Opportunity)
    ensures
        186 <= opportunity_encoding(o).len() <= 194,
        opportunity_encoding(o).len() <= PAYLOAD_CAPACITY,
{
}

/// A number is read back from its bytes, whatever follows them.
pub proof fn lemma_varint_round_trip(v: u32, tail: Seq<u8>)
    ensures
        parse_varint_u32(varint_u32(v) + tail) == Some((v, varint_u32(v).len())),
        1 <= varint_u32(v).len() <= 5,
{
    let b = varint_u32(v) + tail;
    if v <= 250 {
        assert(b[0] == v as u8);
    } else if v <= 0xffff {
        assert(b[0] == 251u8);
        assert(b[1] == (v % 256) as u8);
        assert(b[2] == (v / 256) as u8);
    } else {
        assert(b[0] == 252u8);
        assert(b[1] == (v % 256) as u8);
        assert(b[2] == ((v / 256) % 256) as u8);
        assert(b[3] == ((v / 65536) % 256) as u8);
        assert(b[4] == (v / 16777216) as u8);
        assert(v % 256 + 256 * ((v / 256) % 256) + 65536 * ((v / 65536) % 256) + 16777216 * (v
            / 16777216) == v) by (bit_vector);
    }
}

/// A leg is read back from its bytes, whatever follows them.
pub proof fn lemma_tran_round_trip(t: ArbTran, tail: Seq<u8>)
    ensures
        tran_parses_to(tran_encoding(t) + tail, t, tran_encoding(t).len()),
        tran_length(tran_encoding(t) + tail) == tran_encoding(t).len(),
        (tran_encoding(t) + tail).skip(tran_encoding(t).len() as int) == tail,
{
    let b = tran_encoding(t) + tail;
    let k = varint_u32(t.fee).len();
    lemma_varint_round_trip(t.fee, t.amount@ + tail);
    assert(b.skip(60) =~= varint_u32(t.fee) + (t.amount@ + tail));
    assert(b.subrange(0, 20) =~= t.dex@);
    assert(b.subrange(20, 40) =~= t.token_from@);
    assert(b.subrange(40, 60) =~= t.token_to@);
    assert(b.subrange(60 + k as int, 92 + k as int) =~= t.amount@);
    assert(b.skip(tran_encoding(t).len() as int) =~= tail);
}

/// A record is read back from its bytes, whatever follows them.
pub proof fn lemma_round_trip(o: Opportunity, tail: Seq<u8>)
    ensures
        opportunity_parses_to(
            opportunity_encoding(o) + tail,
            o,
            opportunity_encoding(o).len(),
        ),
{
    let first = tran_encoding(o.first_transaction);
    let second = tran_encoding(o.second_transaction);
    let b = opportunity_encoding(o) + tail;
    assert(b =~= first + (second + tail));
    lemma_tran_round_trip(o.first_transaction, second + tail);
    lemma_tran_round_trip(o.second_transaction, tail);
}

/// Some bytes hold at most one record.
pub proof fn lemma_parse_unique(b: Seq<u8>, o1: Opportunity, n1: nat, o2: Opportunity, n2: nat)
    requires
        opportunity_parses_to(b, o1, n1),
        opportunity_parses_to(b, o2, n2),
    ensures
        o1 == o2,
        n1 == n2,
{
    assert(o1.first_transaction.dex =~= o2.first_transaction.dex);
    assert(o1.first_transaction.token_from =~= o2.first_transaction.token_from);
    assert(o1.first_transaction.token_to =~= o2.first_transaction.token_to);
    assert(o1.first_transaction.amount =~= o2.first_transaction.amount);
    assert(o1.second_transaction.dex =~= o2.second_transaction.dex);
    assert(o1.second_transaction.token_from =~= o2.second_transaction.token_from);
    assert(o1.second_transaction.token_to =~= o2.second_transaction.token_to);
    assert(o1.second_transaction.amount =~= o2.second_transaction.amount);
}

/// What is read from the payload of a record is that record.
pub proof fn lemma_decode_encode(o: Opportunity, decoded: Opportunity, n: nat)
    requires
        opportunity_parses_to(padded(opportunity_encoding(o)), decoded, n),
    ensures
        decoded == o,
        n == opportunity_encoding(o).len(),
{
    let e = opportunity_encoding(o);
    lemma_round_trip(o, Seq::new((262 - e.len()) as nat, |i: int| 0u8));
    lemma_parse_unique(padded(e), decoded, n, o, e.len());
}

/// Writes a record into a payload. The record always fits.
pub fn encode_opportunity(o: &Opportunity) -> (r: Result<Payload, WireError>)
    ensures
        r matches Ok(p) && p@ == padded(opportunity_encoding(*o)),
{
    let mut out: Payload = [0u8; 262];
    proof {
        lemma_encoding_length(*o);
    }
    match bincode_encode(o, &mut out) {
        Ok(n) => {
            proof {
                let e = opportunity_encoding(*o);
                assert forall|i: int| 0 <= i < 262 implies out@[i] == padded(e)[i] by {
                    if i < n {
                        assert(out@.subrange(0, n as int)[i] == e[i]);
                    } else {
                        assert(out@.subrange(n as int, 262)[i - n] == 0u8);
                    }
                }
                assert(out@ =~= padded(e));
            }
            Ok(out)
        },
        Err(_) => Err(WireError::Encode),
    }
}

/// Reads the record at the front of some bytes; what follows the record
/// is not looked at.
pub fn decode_opportunity(bytes: &[u8]) -> (r: Result<Opportunity, WireError>)
    ensures
        r is Ok <==> opportunity_parses(bytes@),
        r matches Ok(o) ==> opportunity_parses_to(bytes@, o, opportunity_length(bytes@)),
        r matches Err(e) ==> e == WireError::Decode,
{
    match bincode_decode(bytes) {
        Ok((o, n)) => Ok(o),
        Err(_) => Err(WireError::Decode),
    }
}

/// Puts a payload into the container that is handed to the publisher.
pub fn to_message(payload: &Payload) -> (m: FixedSizeVec<u8, 262>)
    ensures
        message_bytes(m) == payload@,
{
    let mut m: FixedSizeVec<u8, 262> = new_message();
    let ok: bool = extend_message(&mut m, payload.as_slice());
    assert(Seq::<u8>::empty() + payload@ =~= payload@);
    m
}

/// Reads the record in a container.
pub fn decode_message(m: &FixedSizeVec<u8, 262>) -> (r: Result<Opportunity, WireError>)
    ensures
        r is Ok <==> opportunity_parses(message_bytes(*m)),
        r matches Ok(o) ==> opportunity_parses_to(
            message_bytes(*m),
            o,
            opportunity_length(message_bytes(*m)),
        ),
        r matches Err(e) ==> e == WireError::Decode,
{
    let v: Vec<u8> = message_to_vec(m);
    decode_opportunity(v.as_slice())
}

/// What the producer sends for a slot: the payload of its record where
/// the slot holds something worth sending, and nothing else.
pub fn next_broadcast(slot: &BestTrade) -> (r: Result<Option<Payload>, WireError>)
    ensures
        r is Ok,
        r matches Ok(sent) && {
            &&& sent is Some <==> slot.spec_is_non_initial()
            &&& sent matches Some(p) ==> p@ == padded(opportunity_encoding(packed(*slot)))
        },
{
    if slot.is_non_initial() {
        let o: Opportunity = pack_trade_data(slot);
        match encode_opportunity(&o) {
            Ok(p) => Ok(Some(p)),
            Err(e) => Err(e),
        }
    } else {
        Ok(None)
    }
}

} // verus!
