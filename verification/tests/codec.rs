use bridge_events::codec::{encode_felt, encode_u256, encode_u256_pair};
use bridge_events::dispatch::{
    DEPOSIT_SELECTOR_HI, DEPOSIT_SELECTOR_LO, WITHDRAW_SELECTOR_HI, WITHDRAW_SELECTOR_LO,
};
use bridge_events::felt::Felt;
use bridge_events::model::DecodeError;

fn f(lo: u128) -> Felt {
    Felt { hi: 0, lo }
}

#[test]
fn encode_felt_zero_is_full_width() {
    let s = encode_felt(&f(0));
    assert_eq!(s, "0x000000000000000000000000000000000000000000000000000000000000000");
    assert_eq!(s.len(), 65);
}

#[test]
fn encode_felt_pads_small_values() {
    let s = encode_felt(&f(0x1234abcd));
    assert_eq!(s, "0x00000000000000000000000000000000000000000000000000000001234abcd");
    assert_eq!(s.len(), 65);
}

#[test]
fn encode_felt_renders_both_limbs() {
    let sel = Felt { hi: DEPOSIT_SELECTOR_HI, lo: DEPOSIT_SELECTOR_LO };
    assert_eq!(
        encode_felt(&sel),
        "0x1682ccdc90fbee2d6cc3e930539cb4ca29390a438db1c2e4c7d493e01a61abb"
    );
}

#[test]
fn encode_felt_renders_withdraw_discriminant() {
    let sel = Felt { hi: WITHDRAW_SELECTOR_HI, lo: WITHDRAW_SELECTOR_LO };
    assert_eq!(
        encode_felt(&sel),
        "0x132aab9714c265c8ad151ce006bb91691100722ddec42e7ee96dc9dfa9e741c"
    );
}

#[test]
fn encode_felt_distinct_values_distinct_strings() {
    let a = encode_felt(&f(1));
    let b = encode_felt(&f(2));
    let c = encode_felt(&Felt { hi: 1, lo: 1 });
    assert_ne!(a, b);
    assert_ne!(a, c);
    assert_eq!(a, encode_felt(&f(1)));
}

#[test]
fn encode_u256_rejects_short_slices() {
    let empty: Vec<Felt> = vec![];
    let one = vec![f(7)];
    assert_eq!(encode_u256(&empty), Err(DecodeError::InsufficientElements));
    assert_eq!(encode_u256(&one), Err(DecodeError::InsufficientElements));
}

#[test]
fn encode_u256_layout_high_padded_low_minimal() {
    let s = encode_u256(&[f(1), f(2)]).unwrap();
    assert_eq!(s, "0x0000000000000000000000000000000000000000000000000000000000000021");
    assert_eq!(s, encode_u256_pair(&f(1), &f(2)));
    let zero = encode_u256(&[f(0), f(0)]).unwrap();
    assert_eq!(zero, "0x0000000000000000000000000000000000000000000000000000000000000000");
}

#[test]
fn encode_u256_ignores_extra_elements() {
    let two = encode_u256(&[f(0x11), f(0x22)]).unwrap();
    let three = encode_u256(&[f(0x11), f(0x22), f(0x33)]).unwrap();
    let five = encode_u256(&[f(0x11), f(0x22), f(0x99), f(0x100), f(0x200)]).unwrap();
    assert_eq!(two, "0x00000000000000000000000000000000000000000000000000000000000002211");
    assert_eq!(two, three);
    assert_eq!(two, five);
}
