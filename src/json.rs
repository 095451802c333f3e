//! JSON framing: decimal numbers and the two envelope shapes, as bytes.
use vstd::prelude::*;
use vstd::slice::slice_to_vec;
use vstd::string::*;
use vstd::utf8::encode_utf8;

verus! {

/// The ASCII code of the digit `0`.
pub const DIGIT_ZERO: u8 = 48;

/// The ASCII decimal digits of `n`, most significant first, without leading zeros.
pub open spec fn decimal(n: nat) -> Seq<u8>
    decreases n,
{
    if n < 10 {
        seq![(DIGIT_ZERO as nat + n) as u8]
    } else {
        decimal(n / 10).push((DIGIT_ZERO as nat + n % 10) as u8)
    }
}

/// Appends the decimal digits of `n` to `out`.
pub fn push_decimal(out: &mut Vec<u8>, n: u64)
    ensures
        final(out)@ == old(out)@ + decimal(n as nat),
    decreases n,
{
    if n >= 10 {
        push_decimal(out, n / 10);
    }
    let d: u8 = (n % 10) as u8;
    out.push(DIGIT_ZERO + d);
    proof {
        assert(out@ =~= old(out)@ + decimal(n as nat));
    }
}

/// The literal that opens a success envelope, up to the code.
pub open spec fn success_head() -> Seq<u8> {
    "{\"status\":\"success\",\"code\":".spec_bytes()
}

/// The literal that opens a failure envelope, up to the code.
pub open spec fn failure_head() -> Seq<u8> {
    "{\"status\":\"failed\",\"code\":".spec_bytes()
}

/// The literal between the code and the data of a success envelope.
pub open spec fn data_key() -> Seq<u8> {
    ",\"data\":".spec_bytes()
}

/// The literal between the code and the message of a failure envelope.
pub open spec fn message_key() -> Seq<u8> {
    ",\"message\":".spec_bytes()
}

/// The literal that closes an envelope.
pub open spec fn envelope_tail() -> Seq<u8> {
    "}".spec_bytes()
}

/// `{"status":"success","code":<code>,"data":<data>}`, where `data` is JSON text.
pub open spec fn success_body(code: u16, data: Seq<u8>) -> Seq<u8> {
    success_head() + decimal(code as nat) + data_key() + data + envelope_tail()
}

/// `{"status":"failed","code":<code>,"message":<message>}`, where `message` is a
/// JSON string literal, quotes included.
pub open spec fn failure_body(code: u16, message: Seq<u8>) -> Seq<u8> {
    failure_head() + decimal(code as nat) + message_key() + message + envelope_tail()
}

/// Frames JSON text `data` in a success envelope with `code`.
pub fn success_envelope(code: u16, data: &[u8]) -> (r: Vec<u8>)
    ensures
        r@ == success_body(code, data@),
{
    let mut out = "{\"status\":\"success\",\"code\":".as_bytes_vec();
    push_decimal(&mut out, code as u64);
    let mut key = ",\"data\":".as_bytes_vec();
    out.append(&mut key);
    let mut value = slice_to_vec(data);
    out.append(&mut value);
    let mut tail = "}".as_bytes_vec();
    out.append(&mut tail);
    out
}

/// Frames the JSON string literal `message` in a failure envelope with `code`.
pub fn failure_envelope(code: u16, message: &[u8]) -> (r: Vec<u8>)
    ensures
        r@ == failure_body(code, message@),
{
    let mut out = "{\"status\":\"failed\",\"code\":".as_bytes_vec();
    push_decimal(&mut out, code as u64);
    let mut key = ",\"message\":".as_bytes_vec();
    out.append(&mut key);
    let mut value = slice_to_vec(message);
    out.append(&mut value);
    let mut tail = "}".as_bytes_vec();
    out.append(&mut tail);
    out
}

/// Every byte of `decimal(n)` is a digit, and there is at least one.
pub proof fn lemma_decimal_digits(n: nat)
    ensures
        decimal(n).len() >= 1,
        forall|i: int| 0 <= i < decimal(n).len() ==> 48 <= #[trigger] decimal(n)[i] <= 57,
    decreases n,
{
    if n >= 10 {
        lemma_decimal_digits(n / 10);
    }
}

/// Distinct numbers have distinct decimal digits.
pub proof fn lemma_decimal_injective(a: nat, b: nat)
    requires
        decimal(a) == decimal(b),
    ensures
        a == b,
    decreases a,
{
    if a >= 10 {
        lemma_decimal_digits(a / 10);
    }
    if b >= 10 {
        lemma_decimal_digits(b / 10);
    }
    if a >= 10 && b >= 10 {
        assert(decimal(a / 10) =~= decimal(a).drop_last());
        assert(decimal(b / 10) =~= decimal(b).drop_last());
        lemma_decimal_injective(a / 10, b / 10);
        assert(decimal(a).last() == (DIGIT_ZERO as nat + a % 10) as u8);
        assert(decimal(b).last() == (DIGIT_ZERO as nat + b % 10) as u8);
        assert(decimal(a).last() == decimal(b).last());
        assert(a % 10 == b % 10);
        assert(a == 10 * (a / 10) + a % 10) by (nonlinear_arith);
        assert(b == 10 * (b / 10) + b % 10) by (nonlinear_arith);
    } else if a < 10 && b < 10 {
        assert(decimal(a)[0] == (DIGIT_ZERO as nat + a) as u8);
        assert(decimal(b)[0] == (DIGIT_ZERO as nat + b) as u8);
        assert(decimal(a)[0] == decimal(b)[0]);
    } else if a >= 10 {
        assert(decimal(a).len() == decimal(a / 10).len() + 1);
        assert(decimal(b).len() == 1);
    } else {
        assert(decimal(b).len() == decimal(b / 10).len() + 1);
        assert(decimal(a).len() == 1);
    }
}

/// The number written at the start of `x`, followed by `tail`, which does not
/// start with a digit, is read back uniquely: equal texts hold equal numbers
/// and equal remainders.
pub proof fn lemma_decimal_prefix_unique(a: nat, b: nat, ta: Seq<u8>, tb: Seq<u8>)
    requires
        decimal(a) + ta == decimal(b) + tb,
        ta.len() >= 1,
        tb.len() >= 1,
        !(48 <= ta[0] <= 57),
        !(48 <= tb[0] <= 57),
    ensures
        a == b,
        ta == tb,
{
    lemma_decimal_digits(a);
    lemma_decimal_digits(b);
    let x = decimal(a) + ta;
    let la = decimal(a).len();
    let lb = decimal(b).len();
    if la < lb {
        assert(x[la as int] == ta[0]);
        assert(x[la as int] == decimal(b)[la as int]);
    } else if lb < la {
        assert(x[lb as int] == tb[0]);
        assert(x[lb as int] == decimal(a)[lb as int]);
    }
    assert(decimal(a) =~= x.subrange(0, la as int));
    assert(decimal(b) =~= x.subrange(0, lb as int));
    lemma_decimal_injective(a, b);
    assert(ta =~= x.subrange(la as int, x.len() as int));
    assert(tb =~= x.subrange(lb as int, x.len() as int));
}

/// The envelope keys start with a comma, which is no digit.
proof fn lemma_keys_start_with_comma()
    ensures
        data_key().len() >= 1 && data_key()[0] == 44,
        message_key().len() >= 1 && message_key()[0] == 44,
{
    reveal_strlit(",\"data\":");
    reveal_strlit(",\"message\":");
    broadcast use vstd::string::is_ascii_spec_bytes;
    assert(is_ascii(",\"data\":"));
    assert(is_ascii(",\"message\":"));
}

/// A success body determines its envelope: the code and the data are read back
/// from it exactly.
pub proof fn lemma_success_body_determines_fields(c1: u16, d1: Seq<u8>, c2: u16, d2: Seq<u8>)
    requires
        success_body(c1, d1) == success_body(c2, d2),
    ensures
        c1 == c2,
        d1 == d2,
{
    lemma_keys_start_with_comma();
    let h = success_head();
    let t1 = data_key() + d1 + envelope_tail();
    let t2 = data_key() + d2 + envelope_tail();
    assert(success_body(c1, d1) =~= h + (decimal(c1 as nat) + t1));
    assert(success_body(c2, d2) =~= h + (decimal(c2 as nat) + t2));
    assert(decimal(c1 as nat) + t1 =~= success_body(c1, d1).subrange(h.len() as int, success_body(c1, d1).len() as int));
    assert(decimal(c2 as nat) + t2 =~= success_body(c2, d2).subrange(h.len() as int, success_body(c2, d2).len() as int));
    lemma_decimal_prefix_unique(c1 as nat, c2 as nat, t1, t2);
    let k = data_key().len() as int;
    assert(d1 =~= t1.subrange(k, t1.len() - envelope_tail().len()));
    assert(d2 =~= t2.subrange(k, t2.len() - envelope_tail().len()));
}

/// A failure body determines its envelope: the code and the message are read
/// back from it exactly.
pub proof fn lemma_failure_body_determines_fields(c1: u16, m1: Seq<u8>, c2: u16, m2: Seq<u8>)
    requires
        failure_body(c1, m1) == failure_body(c2, m2),
    ensures
        c1 == c2,
        m1 == m2,
{
    lemma_keys_start_with_comma();
    let h = failure_head();
    let t1 = message_key() + m1 + envelope_tail();
    let t2 = message_key() + m2 + envelope_tail();
    assert(failure_body(c1, m1) =~= h + (decimal(c1 as nat) + t1));
    assert(failure_body(c2, m2) =~= h + (decimal(c2 as nat) + t2));
    assert(decimal(c1 as nat) + t1 =~= failure_body(c1, m1).subrange(h.len() as int, failure_body(c1, m1).len() as int));
    assert(decimal(c2 as nat) + t2 =~= failure_body(c2, m2).subrange(h.len() as int, failure_body(c2, m2).len() as int));
    lemma_decimal_prefix_unique(c1 as nat, c2 as nat, t1, t2);
    let k = message_key().len() as int;
    assert(m1 =~= t1.subrange(k, t1.len() - envelope_tail().len()));
    assert(m2 =~= t2.subrange(k, t2.len() - envelope_tail().len()));
}

/// The lower-case hexadecimal digit for `n < 16`.
pub open spec fn hex_digit(n: nat) -> u8 {
    if n < 10 {
        (48 + n) as u8
    } else {
        (87 + n) as u8
    }
}

/// How a JSON string literal writes `c`: `"` and `\` after a backslash; the
/// controls backspace, tab, line feed, form feed and carriage return as
/// `\b \t \n \f \r`; every other control below 0x20 as `\u00` and two
/// lower-case hex digits; any other character as its UTF-8 bytes.
pub open spec fn escaped_char(c: char) -> Seq<u8> {
    let n = c as u32;
    if n == 0x22 {
        seq![92u8, 34u8]
    } else if n == 0x5c {
        seq![92u8, 92u8]
    } else if n == 0x08 {
        seq![92u8, 98u8]
    } else if n == 0x09 {
        seq![92u8, 116u8]
    } else if n == 0x0a {
        seq![92u8, 110u8]
    } else if n == 0x0c {
        seq![92u8, 102u8]
    } else if n == 0x0d {
        seq![92u8, 114u8]
    } else if n < 0x20 {
        seq![92u8, 117u8, 48u8, 48u8, hex_digit(n as nat / 16), hex_digit(n as nat % 16)]
    } else {
        encode_utf8(seq![c])
    }
}

/// The escaped characters of `s`, one after another.
pub open spec fn escaped(s: Seq<char>) -> Seq<u8>
    decreases s.len(),
{
    if s.len() == 0 {
        Seq::empty()
    } else {
        escaped(s.drop_last()) + escaped_char(s.last())
    }
}

/// The compact JSON string literal for `s`: its escaped characters between
/// double quotes.
pub open spec fn json_quoted(s: Seq<char>) -> Seq<u8> {
    seq![34u8] + escaped(s) + seq![34u8]
}

/// Relies on serde_json::to_vec on a `str`: the compact formatter writes the
/// string between quotes and escapes it byte by byte from its escape table;
/// writing into a `Vec` cannot fail.
#[verifier::external_body]
pub(crate) fn json_string(s: &str) -> (r: Result<Vec<u8>, serde_json::Error>)
    ensures
        r is Ok,
        r matches Ok(v) ==> v@ == json_quoted(s@),
{
    serde_json::to_vec(s)
}

/// Relies on serde_json::to_vec on a serde_json::Value: its compact JSON text.
/// A `Value` always serializes (finite numbers, string keys, non-finite
/// floats written as `null`), and writing into a `Vec` cannot fail.
#[verifier::external_body]
pub(crate) fn value_json(v: &serde_json::Value) -> (r: Result<Vec<u8>, serde_json::Error>)
    ensures
        r is Ok,
{
    serde_json::to_vec(v)
}

} // verus!
