use arbiscan::double::Double;
use arbiscan::registry::BestTrade;
use arbiscan::wire::{
    decode_message, decode_opportunity, encode_opportunity, next_broadcast, pack_trade_data,
    to_message, ArbTran, Opportunity, WireError, PAYLOAD_CAPACITY, SERVICE_NAME,
};

type Fields = ([u8; 20], [u8; 20], [u8; 20], u32, [u8; 32]);

fn tran(mark: u8, fee: u32) -> ArbTran {
    let mut amount = [0u8; 32];
    for (i, b) in amount.iter_mut().enumerate() {
        *b = mark.wrapping_mul(3).wrapping_add(i as u8);
    }
    ArbTran {
        dex: [mark; 20],
        token_from: [mark.wrapping_add(0x10); 20],
        token_to: [mark.wrapping_add(0x20); 20],
        fee,
        amount,
    }
}

fn fields(t: &ArbTran) -> Fields {
    (t.dex, t.token_from, t.token_to, t.fee, t.amount)
}

fn by_hand(t: &ArbTran, fee_bytes: &[u8]) -> Vec<u8> {
    let mut v = Vec::new();
    v.extend_from_slice(&t.dex);
    v.extend_from_slice(&t.token_from);
    v.extend_from_slice(&t.token_to);
    v.extend_from_slice(fee_bytes);
    v.extend_from_slice(&t.amount);
    v
}

fn fees() -> Vec<u32> {
    vec![0, 1, 100, 250, 251, 252, 255, 256, 500, 3000, 10000, 65535, 65536, 70000, 16_777_215, 16_777_216, u32::MAX]
}

#[test]
fn payload_has_the_fixed_size() {
    assert_eq!(PAYLOAD_CAPACITY, 262);
    assert_eq!(SERVICE_NAME, "arbiscan_bot");
    let o = Opportunity { first_transaction: tran(1, 500), second_transaction: tran(2, 3000) };
    assert_eq!(encode_opportunity(&o).unwrap().len(), 262);
}

#[test]
fn encoding_exact_bytes() {
    let a = tran(0xA1, 100);
    let b = tran(0xB2, 500);
    let o = Opportunity { first_transaction: a, second_transaction: b };
    let p = encode_opportunity(&o).unwrap();
    let mut want = by_hand(&a, &[100]);
    want.extend(by_hand(&b, &[251, 0xF4, 0x01]));
    assert_eq!(want.len(), 93 + 95);
    assert_eq!(&p[..want.len()], &want[..]);
    assert!(p[want.len()..].iter().all(|x| *x == 0));
}

#[test]
fn encoding_of_a_large_fee() {
    let a = tran(3, 70000);
    let b = tran(4, u32::MAX);
    let o = Opportunity { first_transaction: a, second_transaction: b };
    let p = encode_opportunity(&o).unwrap();
    let mut want = by_hand(&a, &[252, 0x70, 0x11, 0x01, 0x00]);
    want.extend(by_hand(&b, &[252, 0xff, 0xff, 0xff, 0xff]));
    assert_eq!(want.len(), 194);
    assert_eq!(&p[..194], &want[..]);
    assert!(p[194..].iter().all(|x| *x == 0));
}

#[test]
fn encoding_is_what_the_codec_writes() {
    for f1 in fees() {
        for f2 in fees() {
            let o = Opportunity { first_transaction: tran(5, f1), second_transaction: tran(6, f2) };
            let want = bincode::encode_to_vec(
                (fields(&o.first_transaction), fields(&o.second_transaction)),
                bincode::config::standard(),
            )
            .unwrap();
            assert!(want.len() >= 186 && want.len() <= 194);
            let p = encode_opportunity(&o).unwrap();
            assert_eq!(&p[..want.len()], &want[..]);
            assert!(p[want.len()..].iter().all(|x| *x == 0));
        }
    }
}

#[test]
fn decoding_gives_back_what_was_encoded() {
    for f1 in fees() {
        for f2 in fees() {
            let o = Opportunity { first_transaction: tran(7, f1), second_transaction: tran(8, f2) };
            let p = encode_opportunity(&o).unwrap();
            assert_eq!(decode_opportunity(&p), Ok(o));
        }
    }
}

#[test]
fn decoding_reads_what_the_codec_wrote() {
    let o = Opportunity { first_transaction: tran(9, 3000), second_transaction: tran(10, 10000) };
    let bytes = bincode::encode_to_vec(
        (fields(&o.first_transaction), fields(&o.second_transaction)),
        bincode::config::standard(),
    )
    .unwrap();
    assert_eq!(decode_opportunity(&bytes), Ok(o));
}

#[test]
fn decoding_accepts_a_long_form_of_a_small_fee() {
    let a = tran(1, 7);
    let b = tran(2, 9);
    let mut bytes = by_hand(&a, &[251, 7, 0]);
    bytes.extend(by_hand(&b, &[252, 9, 0, 0, 0]));
    assert_eq!(
        decode_opportunity(&bytes),
        Ok(Opportunity { first_transaction: a, second_transaction: b })
    );
}

#[test]
fn decoding_rejects_short_input() {
    let o = Opportunity { first_transaction: tran(1, 500), second_transaction: tran(2, 3000) };
    let p = encode_opportunity(&o).unwrap();
    let len = 95 + 95;
    for cut in [0usize, 1, 59, 60, 61, 62, 94, 95, 96, 155, 156, 158, len - 1] {
        assert_eq!(decode_opportunity(&p[..cut]), Err(WireError::Decode), "{cut}");
    }
    assert_eq!(decode_opportunity(&p[..len]), Ok(o));
}

#[test]
fn decoding_rejects_an_unknown_fee_mark() {
    let a = tran(1, 7);
    let b = tran(2, 9);
    for mark in [253u8, 254, 255] {
        let mut bytes = by_hand(&a, &[mark, 7, 0, 0, 0, 0, 0, 0, 0]);
        bytes.extend(by_hand(&b, &[9]));
        bytes.resize(262, 0);
        assert_eq!(decode_opportunity(&bytes), Err(WireError::Decode));
    }
}

#[test]
fn packing_puts_the_buying_leg_first() {
    let mut t = BestTrade::new();
    t.profit_usdc = Double::from_bits(3.5f64.to_bits());
    t.buy_dex = [1; 20];
    t.buy_token_in = [2; 20];
    t.buy_token_out = [3; 20];
    t.buy_fee = 500;
    t.buy_amount = [4; 32];
    t.sell_dex = [5; 20];
    t.sell_token_in = [6; 20];
    t.sell_token_out = [7; 20];
    t.sell_fee = 3000;
    t.sell_amount = [8; 32];
    let o = pack_trade_data(&t);
    assert_eq!(
        o.first_transaction,
        ArbTran { dex: [1; 20], token_from: [2; 20], token_to: [3; 20], fee: 500, amount: [4; 32] }
    );
    assert_eq!(
        o.second_transaction,
        ArbTran { dex: [5; 20], token_from: [6; 20], token_to: [7; 20], fee: 3000, amount: [8; 32] }
    );
}

#[test]
fn message_holds_the_payload() {
    let o = Opportunity { first_transaction: tran(1, 500), second_transaction: tran(2, 3000) };
    let p = encode_opportunity(&o).unwrap();
    let m = to_message(&p);
    assert_eq!(m.len(), 262);
    assert_eq!(m.as_slice(), &p[..]);
    assert_eq!(decode_message(&m), Ok(o));
}

#[test]
fn nothing_is_sent_for_a_new_slot() {
    assert_eq!(next_broadcast(&BestTrade::new()), Ok(None));
}

#[test]
fn a_fee_alone_triggers_the_broadcast() {
    let mut t = BestTrade::new();
    t.buy_fee = 500;
    assert_eq!(t.profit_usdc.to_bits(), 0);
    let sent = next_broadcast(&t).unwrap().expect("the slot is not new");
    assert_eq!(decode_opportunity(&sent), Ok(pack_trade_data(&t)));
    assert_eq!(&sent[60..63], &[251, 0xF4, 0x01]);
}

#[test]
fn what_is_sent_is_the_record_of_the_slot() {
    let mut t = BestTrade::new();
    t.profit_usdc = Double::from_bits(10.05f64.to_bits());
    t.buy_dex = [0xE5; 20];
    t.sell_dex = [0x1b; 20];
    t.buy_fee = 3000;
    t.sell_fee = 100;
    t.buy_amount[31] = 9;
    let sent = next_broadcast(&t).unwrap().unwrap();
    assert_eq!(sent, encode_opportunity(&pack_trade_data(&t)).unwrap());
    assert_eq!(decode_opportunity(&sent).unwrap(), pack_trade_data(&t));
}
