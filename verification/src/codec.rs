use crate::felt::Felt;
use crate::model::DecodeError;
use vstd::prelude::*;
use vstd::slice::slice_index_get;

verus! {

/// 16 raised to the power `k`: the count of `k`-digit hex strings.
pub open spec fn pow16(k: nat) -> nat
    decreases k,
{
    if k == 0 {
        1
    } else {
        16 * pow16((k - 1) as nat)
    }
}

/// The lowercase hex digit standing for `d`, for `d` below 16.
pub open spec fn hex_digit_char(d: nat) -> char {
    if d == 0 {
        '0'
    } else if d == 1 {
        '1'
    } else if d == 2 {
        '2'
    } else if d == 3 {
        '3'
    } else if d == 4 {
        '4'
    } else if d == 5 {
        '5'
    } else if d == 6 {
        '6'
    } else if d == 7 {
        '7'
    } else if d == 8 {
        '8'
    } else if d == 9 {
        '9'
    } else if d == 10 {
        'a'
    } else if d == 11 {
        'b'
    } else if d == 12 {
        'c'
    } else if d == 13 {
        'd'
    } else if d == 14 {
        'e'
    } else {
        'f'
    }
}

/// The value a lowercase hex digit stands for.
pub open spec fn hex_digit_val(c: char) -> nat {
    if c == '0' {
        0
    } else if c == '1' {
        1
    } else if c == '2' {
        2
    } else if c == '3' {
        3
    } else if c == '4' {
        4
    } else if c == '5' {
        5
    } else if c == '6' {
        6
    } else if c == '7' {
        7
    } else if c == '8' {
        8
    } else if c == '9' {
        9
    } else if c == 'a' {
        10
    } else if c == 'b' {
        11
    } else if c == 'c' {
        12
    } else if c == 'd' {
        13
    } else if c == 'e' {
        14
    } else {
        15
    }
}

/// The big-endian hex digits of `v`, zero padded on the left to exactly
/// `width` digits; digits of `v` beyond that width are cut off.
pub open spec fn hex_pad(v: nat, width: nat) -> Seq<char>
    decreases width,
{
    if width == 0 {
        Seq::empty()
    } else {
        hex_pad(v / 16, (width - 1) as nat).push(hex_digit_char(v % 16))
    }
}

/// The big-endian hex digits of `v` with no padding: exactly the digits
/// `v` needs, a single `0` when the value is zero.
pub open spec fn hex_min(v: nat) -> Seq<char>
    decreases v,
{
    if v < 16 {
        seq![hex_digit_char(v)]
    } else {
        hex_min(v / 16).push(hex_digit_char(v % 16))
    }
}

/// Number of hex digits in the canonical encoding of one felt: the full
/// 252-bit field width.
pub const FELT_HEX_DIGITS: usize = 63;

/// The canonical encoding of one felt value: `0x`, then the value's hex
/// digits zero padded to the field's full width. Fixed length, lowercase.
pub open spec fn felt_hex(v: nat) -> Seq<char> {
    seq!['0', 'x'] + hex_pad(v, FELT_HEX_DIGITS as nat)
}

/// The encoding of a 256-bit value split over two felt elements:
/// element 1 is the high half, written with the full padded width of
/// `felt_hex`; element 0 is the low half, appended with neither its own
/// `0x` prefix nor padding to a fixed width.
pub open spec fn u256_hex(e0: nat, e1: nat) -> Seq<char> {
    seq!['0', 'x'] + hex_pad(e1, FELT_HEX_DIGITS as nat) + hex_min(e0)
}

/// A character that some hex encoding of this module can contain: a
/// lowercase hex digit or the `x` of the prefix.
pub open spec fn hex_text_char(c: char) -> bool {
    ||| c == '0'
    ||| c == '1'
    ||| c == '2'
    ||| c == '3'
    ||| c == '4'
    ||| c == '5'
    ||| c == '6'
    ||| c == '7'
    ||| c == '8'
    ||| c == '9'
    ||| c == 'a'
    ||| c == 'b'
    ||| c == 'c'
    ||| c == 'd'
    ||| c == 'e'
    ||| c == 'f'
    ||| c == 'x'
}

pub proof fn lemma_pow16_pos(k: nat)
    ensures
        pow16(k) >= 1,
    decreases k,
{
    if k > 0 {
        lemma_pow16_pos((k - 1) as nat);
    }
}

pub proof fn lemma_hex_pad_len(v: nat, width: nat)
    ensures
        hex_pad(v, width).len() == width,
    decreases width,
{
    if width > 0 {
        lemma_hex_pad_len(v / 16, (width - 1) as nat);
    }
}

/// Splitting a value at a digit boundary splits its padded digits.
pub proof fn lemma_hex_pad_split(a: nat, b: nat, k: nat, width: nat)
    requires
        b < pow16(k),
        k <= width,
    ensures
        hex_pad(a * pow16(k) + b, width) == hex_pad(a, (width - k) as nat) + hex_pad(b, k),
    decreases k,
{
    if k == 0 {
        assert(b == 0);
        assert(hex_pad(a * 1 + 0, width) =~= hex_pad(a, width) + hex_pad(0, 0));
    } else {
        let v = a * pow16(k) + b;
        assert(pow16(k) == 16 * pow16((k - 1) as nat));
        assert(v / 16 == a * pow16((k - 1) as nat) + b / 16 && v % 16 == b % 16)
            by (nonlinear_arith)
            requires
                v == a * (16 * pow16((k - 1) as nat)) + b,
                b >= 0,
                a >= 0,
                pow16((k - 1) as nat) >= 1,
        ;
        assert(b / 16 < pow16((k - 1) as nat)) by (nonlinear_arith)
            requires
                b < 16 * pow16((k - 1) as nat),
        ;
        lemma_hex_pad_split(a, b / 16, (k - 1) as nat, (width - 1) as nat);
        assert(hex_pad(v, width) == hex_pad(v / 16, (width - 1) as nat).push(
            hex_digit_char(b % 16),
        ));
        assert(hex_pad(b, k) == hex_pad(b / 16, (k - 1) as nat).push(hex_digit_char(b % 16)));
        assert(hex_pad(a, (width - k) as nat) + hex_pad(b / 16, (k - 1) as nat).push(
            hex_digit_char(b % 16),
        ) =~= (hex_pad(a, (width - k) as nat) + hex_pad(b / 16, (k - 1) as nat)).push(
            hex_digit_char(b % 16),
        ));
    }
}

/// Splitting a positive value at a digit boundary splits its minimal
/// digits: the low part keeps its padding, the high part leads.
pub proof fn lemma_hex_min_split(a: nat, b: nat, k: nat)
    requires
        a >= 1,
        b < pow16(k),
    ensures
        hex_min(a * pow16(k) + b) == hex_min(a) + hex_pad(b, k),
    decreases k,
{
    if k == 0 {
        assert(b == 0);
        assert(hex_min(a * 1 + 0) =~= hex_min(a) + hex_pad(0, 0));
    } else {
        let v = a * pow16(k) + b;
        assert(pow16(k) == 16 * pow16((k - 1) as nat));
        lemma_pow16_pos((k - 1) as nat);
        assert(v / 16 == a * pow16((k - 1) as nat) + b / 16 && v % 16 == b % 16 && v >= 16)
            by (nonlinear_arith)
            requires
                v == a * (16 * pow16((k - 1) as nat)) + b,
                b >= 0,
                a >= 1,
                pow16((k - 1) as nat) >= 1,
        ;
        assert(b / 16 < pow16((k - 1) as nat)) by (nonlinear_arith)
            requires
                b < 16 * pow16((k - 1) as nat),
        ;
        lemma_hex_min_split(a, b / 16, (k - 1) as nat);
        assert(hex_min(v) == hex_min(v / 16).push(hex_digit_char(b % 16)));
        assert(hex_pad(b, k) == hex_pad(b / 16, (k - 1) as nat).push(hex_digit_char(b % 16)));
        assert((hex_min(a) + hex_pad(b / 16, (k - 1) as nat)).push(hex_digit_char(b % 16))
            =~= hex_min(a) + hex_pad(b / 16, (k - 1) as nat).push(hex_digit_char(b % 16)));
    }
}

/// Distinct digit values below 16 get distinct digit characters.
pub proof fn lemma_hex_digit_char_inj(d1: nat, d2: nat)
    requires
        d1 < 16,
        d2 < 16,
        hex_digit_char(d1) == hex_digit_char(d2),
    ensures
        d1 == d2,
{
    assert(hex_digit_val(hex_digit_char(d1)) == d1);
    assert(hex_digit_val(hex_digit_char(d2)) == d2);
}

/// Fixed-width padded hex is injective over the values that fit the width.
pub proof fn lemma_hex_pad_inj(a: nat, b: nat, width: nat)
    requires
        a < pow16(width),
        b < pow16(width),
        hex_pad(a, width) == hex_pad(b, width),
    ensures
        a == b,
    decreases width,
{
    if width == 0 {
    } else {
        let w1 = (width - 1) as nat;
        lemma_hex_pad_len(a / 16, w1);
        lemma_hex_pad_len(b / 16, w1);
        assert(hex_pad(a, width).last() == hex_digit_char(a % 16));
        assert(hex_pad(b, width).last() == hex_digit_char(b % 16));
        lemma_hex_digit_char_inj(a % 16, b % 16);
        assert(hex_pad(a, width).drop_last() =~= hex_pad(a / 16, w1));
        assert(hex_pad(b, width).drop_last() =~= hex_pad(b / 16, w1));
        assert(a / 16 < pow16(w1) && b / 16 < pow16(w1)) by (nonlinear_arith)
            requires
                a < 16 * pow16(w1),
                b < 16 * pow16(w1),
        ;
        lemma_hex_pad_inj(a / 16, b / 16, w1);
    }
}

pub proof fn lemma_hex_min_len(v: nat)
    ensures
        v < 16 ==> hex_min(v).len() == 1,
        v >= 16 ==> hex_min(v).len() >= 2,
    decreases v,
{
    if v >= 16 {
        lemma_hex_min_len(v / 16);
    }
}

/// Minimal hex is injective over all values.
pub proof fn lemma_hex_min_inj(a: nat, b: nat)
    requires
        hex_min(a) == hex_min(b),
    ensures
        a == b,
    decreases a,
{
    lemma_hex_min_len(a);
    lemma_hex_min_len(b);
    if a < 16 && b < 16 {
        assert(hex_min(a)[0] == hex_digit_char(a));
        assert(hex_min(b)[0] == hex_digit_char(b));
        lemma_hex_digit_char_inj(a, b);
    } else if a >= 16 && b >= 16 {
        assert(hex_min(a).last() == hex_digit_char(a % 16));
        assert(hex_min(b).last() == hex_digit_char(b % 16));
        lemma_hex_digit_char_inj(a % 16, b % 16);
        assert(hex_min(a).drop_last() =~= hex_min(a / 16));
        assert(hex_min(b).drop_last() =~= hex_min(b / 16));
        lemma_hex_min_inj(a / 16, b / 16);
    }
}

pub proof fn lemma_hex_pad_chars(v: nat, width: nat)
    ensures
        forall|i: int| 0 <= i < hex_pad(v, width).len() ==> hex_text_char(#[trigger] hex_pad(v, width)[i]),
    decreases width,
{
    if width > 0 {
        lemma_hex_pad_chars(v / 16, (width - 1) as nat);
        lemma_hex_pad_len(v / 16, (width - 1) as nat);
    }
}

/// Every character of a felt's canonical encoding is hex text.
pub proof fn lemma_felt_hex_chars(v: nat)
    ensures
        forall|i: int| 0 <= i < felt_hex(v).len() ==> hex_text_char(#[trigger] felt_hex(v)[i]),
{
    lemma_hex_pad_chars(v, FELT_HEX_DIGITS as nat);
}

/// The canonical felt encoding is injective: two well-formed felts with
/// the same encoded string are the same felt.
pub proof fn lemma_encode_felt_injective(a: Felt, b: Felt)
    requires
        a.wf(),
        b.wf(),
        felt_hex(a.value()) == felt_hex(b.value()),
    ensures
        a == b,
{
    lemma_felt_value_fits(a);
    lemma_felt_value_fits(b);
    let w = FELT_HEX_DIGITS as nat;
    lemma_hex_pad_len(a.value(), w);
    lemma_hex_pad_len(b.value(), w);
    assert(hex_pad(a.value(), w) =~= hex_pad(b.value(), w)) by {
        let pre = seq!['0', 'x'];
        assert forall|i: int| 0 <= i < w implies hex_pad(a.value(), w)[i] == hex_pad(
            b.value(),
            w,
        )[i] by {
            assert((pre + hex_pad(a.value(), w))[i + 2] == hex_pad(a.value(), w)[i]);
            assert((pre + hex_pad(b.value(), w))[i + 2] == hex_pad(b.value(), w)[i]);
        }
    }
    lemma_hex_pad_inj(a.value(), b.value(), w);
    crate::felt::lemma_felt_value_determines_limbs(a, b);
}

/// A well-formed felt's value fits the full padded width.
pub proof fn lemma_felt_value_fits(f: Felt)
    requires
        f.wf(),
    ensures
        f.value() < pow16(FELT_HEX_DIGITS as nat),
{
    assert(pow16(63) == 0x1000000000000000000000000000000000000000000000000000000000000000) by {
        reveal_with_fuel(pow16, 64);
    }
    assert(f.hi * 0x100000000000000000000000000000000 + f.lo
        < 0x1000000000000000000000000000000000000000000000000000000000000000)
        by (nonlinear_arith)
        requires
            f.hi < 0x10000000000000000000000000000000u128,
            f.lo < 0x100000000000000000000000000000000,
    ;
}

/// The 256-bit encoding is injective: equal strings force equal element
/// pairs. With the padded high half in front and the minimal low half
/// behind, no two distinct pairs can collide.
pub proof fn lemma_encode_u256_injective(a0: Felt, a1: Felt, b0: Felt, b1: Felt)
    requires
        a0.wf(),
        a1.wf(),
        b0.wf(),
        b1.wf(),
        u256_hex(a0.value(), a1.value()) == u256_hex(b0.value(), b1.value()),
    ensures
        a0 == b0,
        a1 == b1,
{
    lemma_felt_value_fits(a1);
    lemma_felt_value_fits(b1);
    let w = FELT_HEX_DIGITS as nat;
    lemma_hex_pad_len(a1.value(), w);
    lemma_hex_pad_len(b1.value(), w);
    let sa = u256_hex(a0.value(), a1.value());
    let sb = u256_hex(b0.value(), b1.value());
    assert(hex_pad(a1.value(), w) =~= hex_pad(b1.value(), w)) by {
        assert forall|i: int| 0 <= i < w implies hex_pad(a1.value(), w)[i] == hex_pad(
            b1.value(),
            w,
        )[i] by {
            assert(sa[i + 2] == hex_pad(a1.value(), w)[i]);
            assert(sb[i + 2] == hex_pad(b1.value(), w)[i]);
        }
    }
    lemma_hex_pad_inj(a1.value(), b1.value(), w);
    crate::felt::lemma_felt_value_determines_limbs(a1, b1);
    assert(hex_min(a0.value()) =~= hex_min(b0.value())) by {
        assert(sa.len() == 65 + hex_min(a0.value()).len());
        assert(sb.len() == 65 + hex_min(b0.value()).len());
        assert forall|i: int| 0 <= i < hex_min(a0.value()).len() implies hex_min(a0.value())[i]
            == hex_min(b0.value())[i] by {
            assert(sa[i + 65] == hex_min(a0.value())[i]);
            assert(sb[i + 65] == hex_min(b0.value())[i]);
        }
    }
    lemma_hex_min_inj(a0.value(), b0.value());
    crate::felt::lemma_felt_value_determines_limbs(a0, b0);
}

/// The 256-bit encoding reads nothing but a slice's first two elements:
/// two slices that agree there encode alike, whatever follows.
pub proof fn lemma_u256_depends_on_first_two(s: Seq<Felt>, t: Seq<Felt>)
    requires
        s.len() >= 2,
        t.len() >= 2,
        s[0] == t[0],
        s[1] == t[1],
    ensures
        u256_hex(s[0].value(), s[1].value()) == u256_hex(t[0].value(), t[1].value()),
{
}

/// The one-character string of a single hex digit.
fn hex_digit_str(d: u8) -> (r: &'static str)
    requires
        d < 16,
    ensures
        r@.len() == 1,
        r@[0] == hex_digit_char(d as nat),
{
    if d == 0 {
        proof {
            reveal_strlit("0");
        }
        "0"
    } else if d == 1 {
        proof {
            reveal_strlit("1");
        }
        "1"
    } else if d == 2 {
        proof {
            reveal_strlit("2");
        }
        "2"
    } else if d == 3 {
        proof {
            reveal_strlit("3");
        }
        "3"
    } else if d == 4 {
        proof {
            reveal_strlit("4");
        }
        "4"
    } else if d == 5 {
        proof {
            reveal_strlit("5");
        }
        "5"
    } else if d == 6 {
        proof {
            reveal_strlit("6");
        }
        "6"
    } else if d == 7 {
        proof {
            reveal_strlit("7");
        }
        "7"
    } else if d == 8 {
        proof {
            reveal_strlit("8");
        }
        "8"
    } else if d == 9 {
        proof {
            reveal_strlit("9");
        }
        "9"
    } else if d == 10 {
        proof {
            reveal_strlit("a");
        }
        "a"
    } else if d == 11 {
        proof {
            reveal_strlit("b");
        }
        "b"
    } else if d == 12 {
        proof {
            reveal_strlit("c");
        }
        "c"
    } else if d == 13 {
        proof {
            reveal_strlit("d");
        }
        "d"
    } else if d == 14 {
        proof {
            reveal_strlit("e");
        }
        "e"
    } else {
        proof {
            reveal_strlit("f");
        }
        "f"
    }
}

/// The hex digits of `v` zero padded to exactly `width` digits; `v`
/// must fit that width for the digits to be its own.
fn hex_fixed(v: u128, width: usize) -> (r: String)
    ensures
        r@ == hex_pad(v as nat, width as nat),
    decreases width,
{
    if width == 0 {
        let r = String::new();
        proof {
            assert(r@ =~= hex_pad(v as nat, 0));
        }
        r
    } else {
        let mut r = hex_fixed(v / 16, width - 1);
        let d: u8 = (v % 16) as u8;
        let ghost before = r@;
        r.append(hex_digit_str(d));
        proof {
            assert(r@ =~= before.push(hex_digit_char(d as nat)));
        }
        r
    }
}

/// The minimal hex digits of `v`, a single `0` for zero.
fn hex_minimal(v: u128) -> (r: String)
    ensures
        r@ == hex_min(v as nat),
    decreases v,
{
    if v < 16 {
        let mut r = String::new();
        r.append(hex_digit_str(v as u8));
        proof {
            assert(r@ =~= seq![hex_digit_char(v as nat)]);
        }
        r
    } else {
        let mut r = hex_minimal(v / 16);
        let d: u8 = (v % 16) as u8;
        let ghost before = r@;
        r.append(hex_digit_str(d));
        proof {
            assert(r@ =~= before.push(hex_digit_char(d as nat)));
        }
        r
    }
}

/// The full padded digit run of one felt, without the `0x` prefix.
fn felt_digits(f: &Felt) -> (r: String)
    requires
        f.wf(),
    ensures
        r@ == hex_pad(f.value(), FELT_HEX_DIGITS as nat),
{
    let mut r = hex_fixed(f.hi, 31);
    let lo_part = hex_fixed(f.lo, 32);
    let ghost before = r@;
    r.append(lo_part.as_str());
    proof {
        assert(pow16(32) == 0x100000000000000000000000000000000) by {
            reveal_with_fuel(pow16, 33);
        }
        lemma_hex_pad_split(f.hi as nat, f.lo as nat, 32, FELT_HEX_DIGITS as nat);
    }
    r
}

/// The minimal hex digit run of one felt, without the `0x` prefix.
fn felt_minimal(f: &Felt) -> (r: String)
    requires
        f.wf(),
    ensures
        r@ == hex_min(f.value()),
{
    if f.hi == 0 {
        let r = hex_minimal(f.lo);
        r
    } else {
        let mut r = hex_minimal(f.hi);
        let lo_part = hex_fixed(f.lo, 32);
        r.append(lo_part.as_str());
        proof {
            assert(pow16(32) == 0x100000000000000000000000000000000) by {
            reveal_with_fuel(pow16, 33);
        }
            lemma_hex_min_split(f.hi as nat, f.lo as nat, 32);
        }
        r
    }
}

/// Encodes one felt canonically: `0x`, lowercase, zero padded to the
/// field's full width, 65 characters in all. Injective over well-formed
/// felts (`lemma_encode_felt_injective`).
pub fn encode_felt(f: &Felt) -> (r: String)
    requires
        f.wf(),
    ensures
        r@ == felt_hex(f.value()),
        r@.len() == 65,
{
    let mut r = String::from_str("0x");
    proof {
        reveal_strlit("0x");
        assert(r@ =~= seq!['0', 'x']);
    }
    let digits = felt_digits(f);
    r.append(digits.as_str());
    proof {
        lemma_hex_pad_len(f.value(), FELT_HEX_DIGITS as nat);
    }
    r
}

/// Encodes the first two elements of a slice as one 256-bit value:
/// element 1 is the padded high half, element 0 the unpadded low half.
/// Fails with `InsufficientElements` exactly when fewer than two
/// elements are given; elements beyond the first two are ignored.
pub fn encode_u256(felts: &[Felt]) -> (r: Result<String, DecodeError>)
    requires
        forall|i: int| 0 <= i < felts@.len() ==> (#[trigger] felts@[i]).wf(),
    ensures
        r is Ok <==> felts@.len() >= 2,
        r is Ok ==> r->Ok_0@ == u256_hex(felts@[0].value(), felts@[1].value()),
        r is Err ==> r->Err_0 == DecodeError::InsufficientElements,
{
    if felts.len() < 2 {
        Err(DecodeError::InsufficientElements)
    } else {
        let e0 = slice_index_get(felts, 0);
        let e1 = slice_index_get(felts, 1);
        Ok(encode_u256_pair(e0, e1))
    }
}

/// Encodes a 256-bit value from its two felt halves: `0x`, the high
/// half padded to the felt's full width, then the low half with neither
/// prefix nor fixed-width padding.
pub fn encode_u256_pair(e0: &Felt, e1: &Felt) -> (r: String)
    requires
        e0.wf(),
        e1.wf(),
    ensures
        r@ == u256_hex(e0.value(), e1.value()),
{
    let mut r = String::from_str("0x");
    proof {
        reveal_strlit("0x");
        assert(r@ =~= seq!['0', 'x']);
    }
    let high = felt_digits(e1);
    let low = felt_minimal(e0);
    r.append(high.as_str());
    r.append(low.as_str());
    r
}

} // verus!
