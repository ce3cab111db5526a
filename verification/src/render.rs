//! Canonical text form for decoded values. Composite values that the record
//! vocabulary cannot hold directly (groups, repetitions, optional groups) are
//! rendered into this form: named groups print their fields in order, groups
//! with unnamed fields print positionally, lists print bracketed
//! comma-separated items, text prints quoted with its quotes, backslashes and
//! control characters escaped, and account keys print in base-58, their
//! canonical text form on this chain.

use crate::record::ValueModel;
use crate::shape::Parsed;
use vstd::prelude::*;
use vstd::string::StrSliceExecFns;
use vstd::string::StringExecFns;

verus! {

/// The character for one decimal digit.
pub open spec fn dec_digit(n: int) -> char {
    if n == 0 {
        '0'
    } else if n == 1 {
        '1'
    } else if n == 2 {
        '2'
    } else if n == 3 {
        '3'
    } else if n == 4 {
        '4'
    } else if n == 5 {
        '5'
    } else if n == 6 {
        '6'
    } else if n == 7 {
        '7'
    } else if n == 8 {
        '8'
    } else {
        '9'
    }
}

/// Decimal text of a non-negative number, most significant digit first.
pub open spec fn dec_chars(n: int) -> Seq<char>
    recommends
        n >= 0,
    decreases n,
{
    if n < 10 {
        seq![dec_digit(n)]
    } else {
        dec_chars(n / 10).push(dec_digit(n % 10))
    }
}

/// The character for one hex digit, lowercase.
pub open spec fn hex_digit(n: int) -> char {
    if n < 10 {
        dec_digit(n)
    } else if n == 10 {
        'a'
    } else if n == 11 {
        'b'
    } else if n == 12 {
        'c'
    } else if n == 13 {
        'd'
    } else if n == 14 {
        'e'
    } else {
        'f'
    }
}

/// Lowercase hex text of a character code below 256, without leading zeros.
pub open spec fn code_hex(v: int) -> Seq<char>
    recommends
        0 <= v < 256,
{
    if v < 16 {
        seq![hex_digit(v)]
    } else {
        seq![hex_digit(v / 16), hex_digit(v % 16)]
    }
}

/// Whether a character must be escaped inside quoted text: the quote, the
/// backslash, the control characters and delete.
pub open spec fn needs_escape(c: char) -> bool {
    c == '"' || c == '\\' || (c as u32) < 0x20 || c as u32 == 0x7f
}

/// The escape of one character inside quoted text: quote and backslash by a
/// backslash, the common control characters by letter, the rest of the
/// control characters and delete by their hex code.
pub open spec fn esc_char(c: char) -> Seq<char> {
    if c == '"' {
        seq!['\\', '"']
    } else if c == '\\' {
        seq!['\\', '\\']
    } else if c == '\n' {
        seq!['\\', 'n']
    } else if c == '\r' {
        seq!['\\', 'r']
    } else if c == '\t' {
        seq!['\\', 't']
    } else if (c as u32) < 0x20 || c as u32 == 0x7f {
        seq!['\\', 'u', '{'] + code_hex(c as u32 as int) + seq!['}']
    } else {
        seq![c]
    }
}

/// Quoted-text escaping of a character sequence, character by character.
pub open spec fn escaped(s: Seq<char>) -> Seq<char>
    decreases s.len(),
{
    if s.len() == 0 {
        Seq::empty()
    } else {
        escaped(s.drop_last()) + esc_char(s.last())
    }
}

/// Text form of a 32-byte account key carried inside an instruction payload:
/// base-58, the canonical text form of account keys on this chain.
pub open spec fn key_text(bs: Seq<u8>) -> Seq<char> {
    base58_text(bs)
}

/// The base-58 alphabet character for one digit, as account keys print it.
pub open spec fn b58_digit(d: int) -> char {
    if d == 0 {
        '1'
    } else if d == 1 {
        '2'
    } else if d == 2 {
        '3'
    } else if d == 3 {
        '4'
    } else if d == 4 {
        '5'
    } else if d == 5 {
        '6'
    } else if d == 6 {
        '7'
    } else if d == 7 {
        '8'
    } else if d == 8 {
        '9'
    } else if d == 9 {
        'A'
    } else if d == 10 {
        'B'
    } else if d == 11 {
        'C'
    } else if d == 12 {
        'D'
    } else if d == 13 {
        'E'
    } else if d == 14 {
        'F'
    } else if d == 15 {
        'G'
    } else if d == 16 {
        'H'
    } else if d == 17 {
        'J'
    } else if d == 18 {
        'K'
    } else if d == 19 {
        'L'
    } else if d == 20 {
        'M'
    } else if d == 21 {
        'N'
    } else if d == 22 {
        'P'
    } else if d == 23 {
        'Q'
    } else if d == 24 {
        'R'
    } else if d == 25 {
        'S'
    } else if d == 26 {
        'T'
    } else if d == 27 {
        'U'
    } else if d == 28 {
        'V'
    } else if d == 29 {
        'W'
    } else if d == 30 {
        'X'
    } else if d == 31 {
        'Y'
    } else if d == 32 {
        'Z'
    } else if d == 33 {
        'a'
    } else if d == 34 {
        'b'
    } else if d == 35 {
        'c'
    } else if d == 36 {
        'd'
    } else if d == 37 {
        'e'
    } else if d == 38 {
        'f'
    } else if d == 39 {
        'g'
    } else if d == 40 {
        'h'
    } else if d == 41 {
        'i'
    } else if d == 42 {
        'j'
    } else if d == 43 {
        'k'
    } else if d == 44 {
        'm'
    } else if d == 45 {
        'n'
    } else if d == 46 {
        'o'
    } else if d == 47 {
        'p'
    } else if d == 48 {
        'q'
    } else if d == 49 {
        'r'
    } else if d == 50 {
        's'
    } else if d == 51 {
        't'
    } else if d == 52 {
        'u'
    } else if d == 53 {
        'v'
    } else if d == 54 {
        'w'
    } else if d == 55 {
        'x'
    } else if d == 56 {
        'y'
    } else {
        'z'
    }
}

/// The base-58 digits of a number, most significant first; empty for zero.
pub open spec fn b58_chars(n: nat) -> Seq<char>
    decreases n,
{
    if n == 0 {
        Seq::empty()
    } else {
        b58_chars(n / 58).push(b58_digit((n % 58) as int))
    }
}

/// The number a byte sequence denotes in big-endian order.
pub open spec fn be_value(s: Seq<u8>) -> nat
    decreases s.len(),
{
    if s.len() == 0 {
        0
    } else {
        (be_value(s.drop_last()) * 256 + s.last()) as nat
    }
}

/// How many zero bytes the sequence starts with.
pub open spec fn leading_zero_count(s: Seq<u8>) -> int
    decreases s.len(),
{
    if s.len() == 0 || s[0] != 0 {
        0
    } else {
        1 + leading_zero_count(s.drop_first())
    }
}

/// The base-58 text of a byte sequence: one alphabet-first character per
/// leading zero byte, then the base-58 digits of the big-endian value.
pub open spec fn base58_text(s: Seq<u8>) -> Seq<char> {
    Seq::new(leading_zero_count(s) as nat, |i: int| '1') + b58_chars(be_value(s))
}

/// One base-58 digit as a string slice.
pub fn b58_digit_str(d: u8) -> (r: &'static str)
    requires
        d < 58,
    ensures
        r@ == seq![b58_digit(d as int)],
{
    let r: &'static str = match d {
        0 => "1",
        1 => "2",
        2 => "3",
        3 => "4",
        4 => "5",
        5 => "6",
        6 => "7",
        7 => "8",
        8 => "9",
        9 => "A",
        10 => "B",
        11 => "C",
        12 => "D",
        13 => "E",
        14 => "F",
        15 => "G",
        16 => "H",
        17 => "J",
        18 => "K",
        19 => "L",
        20 => "M",
        21 => "N",
        22 => "P",
        23 => "Q",
        24 => "R",
        25 => "S",
        26 => "T",
        27 => "U",
        28 => "V",
        29 => "W",
        30 => "X",
        31 => "Y",
        32 => "Z",
        33 => "a",
        34 => "b",
        35 => "c",
        36 => "d",
        37 => "e",
        38 => "f",
        39 => "g",
        40 => "h",
        41 => "i",
        42 => "j",
        43 => "k",
        44 => "m",
        45 => "n",
        46 => "o",
        47 => "p",
        48 => "q",
        49 => "r",
        50 => "s",
        51 => "t",
        52 => "u",
        53 => "v",
        54 => "w",
        55 => "x",
        56 => "y",
        _ => "z",
    };
    proof {
        reveal_strlit("1");
        reveal_strlit("2");
        reveal_strlit("3");
        reveal_strlit("4");
        reveal_strlit("5");
        reveal_strlit("6");
        reveal_strlit("7");
        reveal_strlit("8");
        reveal_strlit("9");
        reveal_strlit("A");
        reveal_strlit("B");
        reveal_strlit("C");
        reveal_strlit("D");
        reveal_strlit("E");
        reveal_strlit("F");
        reveal_strlit("G");
        reveal_strlit("H");
        reveal_strlit("J");
        reveal_strlit("K");
        reveal_strlit("L");
        reveal_strlit("M");
        reveal_strlit("N");
        reveal_strlit("P");
        reveal_strlit("Q");
        reveal_strlit("R");
        reveal_strlit("S");
        reveal_strlit("T");
        reveal_strlit("U");
        reveal_strlit("V");
        reveal_strlit("W");
        reveal_strlit("X");
        reveal_strlit("Y");
        reveal_strlit("Z");
        reveal_strlit("a");
        reveal_strlit("b");
        reveal_strlit("c");
        reveal_strlit("d");
        reveal_strlit("e");
        reveal_strlit("f");
        reveal_strlit("g");
        reveal_strlit("h");
        reveal_strlit("i");
        reveal_strlit("j");
        reveal_strlit("k");
        reveal_strlit("m");
        reveal_strlit("n");
        reveal_strlit("o");
        reveal_strlit("p");
        reveal_strlit("q");
        reveal_strlit("r");
        reveal_strlit("s");
        reveal_strlit("t");
        reveal_strlit("u");
        reveal_strlit("v");
        reveal_strlit("w");
        reveal_strlit("x");
        reveal_strlit("y");
        reveal_strlit("z");
        assert(r@ =~= seq![b58_digit(d as int)]);
    }
    r
}

/// A big-endian value is zero exactly when every byte is zero.
proof fn lemma_be_value_zero(s: Seq<u8>)
    ensures
        (be_value(s) == 0) <==> (forall|j: int| 0 <= j < s.len() ==> s[j] == 0),
    decreases s.len(),
{
    if s.len() > 0 {
        lemma_be_value_zero(s.drop_last());
        if be_value(s) == 0 {
            assert(be_value(s.drop_last()) == 0);
            assert(s.last() == 0);
            assert forall|j: int| 0 <= j < s.len() implies s[j] == 0 by {
                if j < s.len() - 1 {
                    assert(s.drop_last()[j] == 0);
                }
            }
        } else {
            if forall|j: int| 0 <= j < s.len() ==> s[j] == 0 {
                assert(forall|j: int|
                    0 <= j < s.drop_last().len() ==> s.drop_last()[j] == 0);
            }
        }
    }
}

/// Whether the big-endian value of the digits is zero.
fn is_zero_value(num: &Vec<u8>) -> (r: bool)
    ensures
        r == (be_value(num@) == 0),
{
    let mut i: usize = 0;
    proof {
        lemma_be_value_zero(num@);
    }
    while i < num.len()
        invariant
            i <= num@.len(),
            forall|j: int| 0 <= j < i ==> num@[j] == 0,
            (be_value(num@) == 0) <==> (forall|j: int| 0 <= j < num@.len() ==> num@[j] == 0),
        decreases num@.len() - i,
    {
        if num[i] != 0 {
            return false;
        }
        i += 1;
    }
    true
}

/// Divides the big-endian digits by 58 in place, returning the remainder.
fn divmod58(num: &mut Vec<u8>) -> (rem: u8)
    ensures
        final(num)@.len() == old(num)@.len(),
        rem < 58,
        58 * be_value(final(num)@) + rem == be_value(old(num)@),
{
    let mut carry: u8 = 0;
    let mut i: usize = 0;
    while i < num.len()
        invariant
            num@.len() == old(num)@.len(),
            i <= num@.len(),
            carry < 58,
            forall|j: int| i <= j < num@.len() ==> num@[j] == old(num)@[j],
            58 * be_value(num@.take(i as int)) + carry == be_value(old(num)@.take(i as int)),
        decreases num@.len() - i,
    {
        let d = num[i];
        let ghost entry = num@;
        let t: u32 = (carry as u32) * 256 + (d as u32);
        let q: u8 = (t / 58) as u8;
        let next_carry: u8 = (t % 58) as u8;
        num[i] = q;
        proof {
            assert(num@.take(i as int) =~= entry.take(i as int));
            let now_new = num@.take(i + 1);
            assert(now_new.drop_last() =~= entry.take(i as int));
            assert(now_new.last() == q);
            assert(be_value(now_new) == be_value(entry.take(i as int)) * 256 + q);
            let now_old = old(num)@.take(i + 1);
            assert(now_old.drop_last() =~= old(num)@.take(i as int));
            assert(now_old.last() == old(num)@[i as int]);
            assert(be_value(now_old) == be_value(old(num)@.take(i as int)) * 256 + d);
            assert(t == 58 * (t / 58) + (t % 58));
            assert(58 * be_value(now_new) + next_carry == be_value(now_old));
            assert(forall|j: int| i + 1 <= j < num@.len() ==> num@[j] == entry[j]);
        }
        carry = next_carry;
        i += 1;
    }
    proof {
        assert(num@.take(num@.len() as int) =~= num@);
        assert(old(num)@.take(old(num)@.len() as int) =~= old(num)@);
    }
    carry
}

/// The characters of collected base-58 digits, in the order kept.
pub open spec fn digit_chars(ds: Seq<u8>) -> Seq<char> {
    Seq::new(ds.len(), |i: int| b58_digit(ds[i] as int))
}

/// How many leading zero bytes, counted from a prefix scan.
proof fn lemma_leading_zeros(s: Seq<u8>, i: int)
    requires
        0 <= i <= s.len(),
        forall|j: int| 0 <= j < i ==> s[j] == 0,
        i == s.len() || s[i] != 0,
    ensures
        leading_zero_count(s) == i,
    decreases i,
{
    if i > 0 {
        assert(forall|j: int| 0 <= j < i - 1 ==> s.drop_first()[j] == 0);
        lemma_leading_zeros(s.drop_first(), i - 1);
    }
}

/// Appends the base-58 text of a byte slice.
pub fn append_base58(out: &mut String, bytes: &[u8])
    ensures
        final(out)@ == old(out)@ + base58_text(bytes@),
{
    let mut i: usize = 0;
    while i < bytes.len() && *vstd::slice::slice_index_get(bytes, i) == 0
        invariant
            i <= bytes@.len(),
            forall|j: int| 0 <= j < i ==> bytes@[j] == 0,
            out@ == old(out)@ + Seq::new(i as nat, |k: int| '1'),
        decreases bytes@.len() - i,
    {
        out.append("1");
        proof {
            reveal_strlit("1");
            assert(out@ =~= old(out)@ + Seq::new((i + 1) as nat, |k: int| '1'));
        }
        i += 1;
    }
    proof {
        lemma_leading_zeros(bytes@, i as int);
    }
    let mut num = vstd::slice::slice_to_vec(bytes);
    let mut digits: Vec<u8> = Vec::new();
    loop
        invariant_except_break
            b58_chars(be_value(bytes@)) == b58_chars(be_value(num@)) + digit_chars(digits@),
            forall|j: int| 0 <= j < digits@.len() ==> digits@[j] < 58,
        ensures
            be_value(num@) == 0,
            b58_chars(be_value(bytes@)) == digit_chars(digits@),
            forall|j: int| 0 <= j < digits@.len() ==> digits@[j] < 58,
        decreases be_value(num@),
    {
        if is_zero_value(&num) {
            proof {
                assert(b58_chars(0) =~= Seq::<char>::empty());
                assert(Seq::<char>::empty() + digit_chars(digits@) =~= digit_chars(digits@));
            }
            break ;
        }
        let ghost v = be_value(num@);
        let rem = divmod58(&mut num);
        let ghost v_next = be_value(num@);
        digits.insert(0, rem);
        proof {
            assert(v_next == v / 58 && rem == v % 58);
            assert(b58_chars(v) == b58_chars(v_next).push(b58_digit(rem as int)));
            assert(digit_chars(digits@) =~= seq![b58_digit(rem as int)] + digit_chars(
                digits@.drop_first(),
            ));
            assert(b58_chars(v_next) + digit_chars(digits@) =~= b58_chars(v) + digit_chars(
                digits@.drop_first(),
            ));
        }
    }
    let ghost before_digits = out@;
    let mut k: usize = 0;
    while k < digits.len()
        invariant
            k <= digits@.len(),
            forall|j: int| 0 <= j < digits@.len() ==> digits@[j] < 58,
            out@ == before_digits + digit_chars(digits@.take(k as int)),
        decreases digits@.len() - k,
    {
        out.append(b58_digit_str(digits[k]));
        proof {
            assert(digit_chars(digits@.take(k + 1)) =~= digit_chars(digits@.take(k as int))
                + seq![b58_digit(digits@[k as int] as int)]);
            assert(out@ =~= before_digits + digit_chars(digits@.take(k + 1)));
        }
        k += 1;
    }
    proof {
        assert(digits@.take(digits@.len() as int) =~= digits@);
        assert(out@ =~= old(out)@ + base58_text(bytes@));
    }
}

/// Canonical text of one typed reading.
pub open spec fn render(p: Parsed) -> Seq<char>
    decreases p, 0int,
{
    match p {
        Parsed::UInt8(x) => dec_chars(x as int),
        Parsed::UInt16(x) => dec_chars(x as int),
        Parsed::UInt32(x) => dec_chars(x as int),
        Parsed::UInt64(x) => dec_chars(x as int),
        Parsed::Truth(b) => if b {
            "true"@
        } else {
            "false"@
        },
        Parsed::Chars(s) => "\""@ + escaped(s) + "\""@,
        Parsed::Key32(bs) => key_text(bs),
        Parsed::Missing => "None"@,
        Parsed::Present(inner) => "Some("@ + render(*inner) + ")"@,
        Parsed::Items(ps) => "["@ + list_text(ps) + "]"@,
        Parsed::Tag(label) => label,
        Parsed::Fields(name, pairs) => if pairs.len() == 0 {
            name
        } else if pairs[0].0.len() == 0 {
            name + "("@ + tuple_text(pairs) + ")"@
        } else {
            name + " { "@ + group_text(pairs) + " }"@
        },
    }
}

/// Comma-separated renderings of a list of readings.
pub open spec fn list_text(ps: Seq<Parsed>) -> Seq<char>
    decreases ps, 0int,
{
    if ps.len() == 0 {
        Seq::empty()
    } else {
        render(ps[0]) + list_text_rest(ps.drop_first())
    }
}

/// The tail of a comma-separated list: every item preceded by a separator.
pub open spec fn list_text_rest(ps: Seq<Parsed>) -> Seq<char>
    decreases ps, 1int,
{
    if ps.len() == 0 {
        Seq::empty()
    } else {
        ", "@ + render(ps[0]) + list_text_rest(ps.drop_first())
    }
}

/// Comma-separated `key: value` renderings of a group's fields.
pub open spec fn group_text(pairs: Seq<(Seq<char>, Parsed)>) -> Seq<char>
    decreases pairs, 0int,
{
    if pairs.len() == 0 {
        Seq::empty()
    } else {
        pairs[0].0 + ": "@ + render(pairs[0].1) + group_text_rest(pairs.drop_first())
    }
}

/// The tail of a group rendering: every field preceded by a separator.
pub open spec fn group_text_rest(pairs: Seq<(Seq<char>, Parsed)>) -> Seq<char>
    decreases pairs, 1int,
{
    if pairs.len() == 0 {
        Seq::empty()
    } else {
        ", "@ + pairs[0].0 + ": "@ + render(pairs[0].1) + group_text_rest(pairs.drop_first())
    }
}

/// Comma-separated value renderings of a positional group's fields.
pub open spec fn tuple_text(pairs: Seq<(Seq<char>, Parsed)>) -> Seq<char>
    decreases pairs, 0int,
{
    if pairs.len() == 0 {
        Seq::empty()
    } else {
        render(pairs[0].1) + tuple_text_rest(pairs.drop_first())
    }
}

/// The tail of a positional group rendering: every value preceded by a
/// separator.
pub open spec fn tuple_text_rest(pairs: Seq<(Seq<char>, Parsed)>) -> Seq<char>
    decreases pairs, 1int,
{
    if pairs.len() == 0 {
        Seq::empty()
    } else {
        ", "@ + render(pairs[0].1) + tuple_text_rest(pairs.drop_first())
    }
}

/// The rendering of each reading in a list, kept as separate texts.
pub open spec fn render_each(ps: Seq<Parsed>) -> Seq<Seq<char>> {
    Seq::new(ps.len(), |i: int| render(ps[i]))
}

/// Coercion of a typed reading into the record vocabulary for a field kept
/// as a plain value: numbers, booleans and text pass through, labels become
/// their text, an absent optional becomes null and a present one its inner
/// value, and anything composite falls back to its canonical text.
pub open spec fn plain_model(p: Parsed) -> ValueModel
    decreases p,
{
    match p {
        Parsed::UInt8(x) => ValueModel::U8(x),
        Parsed::UInt16(x) => ValueModel::U16(x),
        Parsed::UInt32(x) => ValueModel::U32(x),
        Parsed::UInt64(x) => ValueModel::U64(x),
        Parsed::Truth(b) => ValueModel::Bool(b),
        Parsed::Chars(s) => ValueModel::Text(s),
        Parsed::Key32(bs) => ValueModel::Text(key_text(bs)),
        Parsed::Missing => ValueModel::Null,
        Parsed::Present(inner) => plain_model(*inner),
        Parsed::Items(ps) => ValueModel::TextList(render_each(ps)),
        Parsed::Tag(label) => ValueModel::Text(label),
        Parsed::Fields(name, pairs) => ValueModel::Text(render(Parsed::Fields(name, pairs))),
    }
}

/// Coercion of a typed reading into the record vocabulary for a field kept
/// as rendered text: an absent optional becomes null, a repetition becomes
/// the list of its items' texts, everything else its canonical text.
pub open spec fn rendered_model(p: Parsed) -> ValueModel {
    match p {
        Parsed::Missing => ValueModel::Null,
        Parsed::Present(inner) => ValueModel::Text(render(*inner)),
        Parsed::Items(ps) => ValueModel::TextList(render_each(ps)),
        _ => ValueModel::Text(render(p)),
    }
}

/// One decimal digit as a string slice.
pub fn dec_digit_str(d: u64) -> (r: &'static str)
    requires
        d < 10,
    ensures
        r@ == seq![dec_digit(d as int)],
{
    let r: &'static str = match d {
        0 => "0",
        1 => "1",
        2 => "2",
        3 => "3",
        4 => "4",
        5 => "5",
        6 => "6",
        7 => "7",
        8 => "8",
        _ => "9",
    };
    proof {
        reveal_strlit("0");
        reveal_strlit("1");
        reveal_strlit("2");
        reveal_strlit("3");
        reveal_strlit("4");
        reveal_strlit("5");
        reveal_strlit("6");
        reveal_strlit("7");
        reveal_strlit("8");
        reveal_strlit("9");
        assert(r@ =~= seq![dec_digit(d as int)]);
    }
    r
}

/// One hex digit as a string slice.
fn hex_digit_str(d: u8) -> (r: &'static str)
    requires
        d < 16,
    ensures
        r@ == seq![hex_digit(d as int)],
{
    if d < 10 {
        dec_digit_str(d as u64)
    } else {
        let r: &'static str = match d {
            10 => "a",
            11 => "b",
            12 => "c",
            13 => "d",
            14 => "e",
            _ => "f",
        };
        proof {
            reveal_strlit("a");
            reveal_strlit("b");
            reveal_strlit("c");
            reveal_strlit("d");
            reveal_strlit("e");
            reveal_strlit("f");
            assert(r@ =~= seq![hex_digit(d as int)]);
        }
        r
    }
}

/// Appends the escape of one character that needs escaping.
fn append_escape(out: &mut String, c: char)
    requires
        needs_escape(c),
    ensures
        final(out)@ == old(out)@ + esc_char(c),
{
    if c == '"' {
        out.append("\\\"");
        proof {
            reveal_strlit("\\\"");
            assert(out@ =~= old(out)@ + esc_char(c));
        }
    } else if c == '\\' {
        out.append("\\\\");
        proof {
            reveal_strlit("\\\\");
            assert(out@ =~= old(out)@ + esc_char(c));
        }
    } else if c == '\n' {
        out.append("\\n");
        proof {
            reveal_strlit("\\n");
            assert(out@ =~= old(out)@ + esc_char(c));
        }
    } else if c == '\r' {
        out.append("\\r");
        proof {
            reveal_strlit("\\r");
            assert(out@ =~= old(out)@ + esc_char(c));
        }
    } else if c == '\t' {
        out.append("\\t");
        proof {
            reveal_strlit("\\t");
            assert(out@ =~= old(out)@ + esc_char(c));
        }
    } else {
        let v = c as u32;
        out.append("\\u{");
        if v < 16 {
            out.append(hex_digit_str(v as u8));
        } else {
            out.append(hex_digit_str((v / 16) as u8));
            out.append(hex_digit_str((v % 16) as u8));
        }
        out.append("}");
        proof {
            reveal_strlit("\\u{");
            reveal_strlit("}");
            assert(out@ =~= old(out)@ + esc_char(c));
        }
    }
}

/// Appending an all-plain run of text escapes to the run itself.
proof fn lemma_escaped_plain_run(s: Seq<char>, a: int, b: int)
    requires
        0 <= a <= b <= s.len(),
        forall|j: int| a <= j < b ==> !needs_escape(s[j]),
    ensures
        escaped(s.take(b)) == escaped(s.take(a)) + s.subrange(a, b),
    decreases b - a,
{
    if a == b {
        assert(escaped(s.take(a)) + s.subrange(a, a) =~= escaped(s.take(a)));
    } else {
        lemma_escaped_plain_run(s, a, b - 1);
        assert(s.take(b).drop_last() =~= s.take(b - 1));
        assert(s.take(b).last() == s[b - 1]);
        assert(esc_char(s[b - 1]) == seq![s[b - 1]]);
        assert(escaped(s.take(b)) =~= escaped(s.take(a)) + s.subrange(a, b));
    }
}

/// Appends the text with quoted-text escaping applied.
pub fn append_escaped(out: &mut String, s: &str)
    ensures
        final(out)@ == old(out)@ + escaped(s@),
{
    let n = s.unicode_len();
    let mut start: usize = 0;
    let mut i: usize = 0;
    while i < n
        invariant
            n == s@.len(),
            start <= i <= n,
            out@ == old(out)@ + escaped(s@.take(start as int)),
            forall|j: int| start <= j < i ==> !needs_escape(s@[j]),
        decreases n - i,
    {
        let c = s.get_char(i);
        if c == '"' || c == '\\' || (c as u32) < 0x20 || (c as u32) == 0x7f {
            out.append(s.substring_char(start, i));
            proof {
                lemma_escaped_plain_run(s@, start as int, i as int);
                assert(out@ =~= old(out)@ + escaped(s@.take(i as int)));
            }
            append_escape(out, c);
            proof {
                assert(s@.take(i + 1).drop_last() =~= s@.take(i as int));
                assert(s@.take(i + 1).last() == s@[i as int]);
                assert(out@ =~= old(out)@ + escaped(s@.take(i + 1)));
            }
            start = i + 1;
        }
        i += 1;
    }
    out.append(s.substring_char(start, n));
    proof {
        lemma_escaped_plain_run(s@, start as int, n as int);
        assert(s@.take(n as int) =~= s@);
        assert(out@ =~= old(out)@ + escaped(s@));
    }
}

/// Appends the decimal text of `n`.
pub fn append_dec(out: &mut String, n: u64)
    ensures
        final(out)@ == old(out)@ + dec_chars(n as int),
    decreases n,
{
    if n < 10 {
        out.append(dec_digit_str(n));
    } else {
        append_dec(out, n / 10);
        out.append(dec_digit_str(n % 10));
        proof {
            assert(old(out)@ + dec_chars((n / 10) as int) + seq![dec_digit((n % 10) as int)]
                =~= old(out)@ + dec_chars(n as int));
        }
    }
}

} // verus!
