//! The correlation payload: `transaction_id=<decimal i64>`, base64-encoded,
//! carried in the memo of an on-chain transfer.

use base64::engine::general_purpose::STANDARD;
use base64::Engine;
use vstd::prelude::*;
use vstd::string::StringExecFns;
use vstd::utf8::encode_utf8;

verus! {

/// The standard base64 text (RFC 4648 alphabet, `=` padding) of some bytes.
pub uninterp spec fn base64_of(b: Seq<u8>) -> Seq<char>;

/// Relies on `base64::engine::general_purpose::STANDARD.encode`: the standard
/// alphabet, with padding.
#[verifier::external_body]
fn base64_encode(b: &[u8]) -> (r: String)
    ensures
        r@ == base64_of(b@),
{
    STANDARD.encode(b)
}

/// Relies on `base64::engine::general_purpose::STANDARD.decode`. That engine's
/// configuration requires canonical padding and rejects non-zero trailing
/// bits, so it accepts exactly the texts that its encoder produces and hands
/// back the bytes that they were produced from; any other text is an error.
#[verifier::external_body]
pub(crate) fn base64_decode(s: &str) -> (r: Option<Vec<u8>>)
    ensures
        forall|b: Seq<u8>| #[trigger] base64_of(b) == s@ ==> (r is Some && r->Some_0@ == b),
        r is Some ==> base64_of(r->Some_0@) == s@,
{
    STANDARD.decode(s).ok()
}

/// The bytes of `transaction_id=`, which open every correlation payload.
pub open spec fn payload_prefix() -> Seq<u8> {
    seq![116u8, 114, 97, 110, 115, 97, 99, 116, 105, 111, 110, 95, 105, 100, 61]
}

pub open spec fn is_digit(b: u8) -> bool {
    48 <= b <= 57
}

pub open spec fn all_digits(s: Seq<u8>) -> bool {
    forall|i: int| 0 <= i < s.len() ==> is_digit(#[trigger] s[i])
}

/// The number that a run of ASCII digits spells in base ten.
pub open spec fn digits_value(s: Seq<u8>) -> nat
    decreases s.len(),
{
    if s.len() == 0 {
        0
    } else {
        digits_value(s.drop_last()) * 10 + (s.last() - 48) as nat
    }
}

/// What the standard text form of an `i64` parses to: an optional `+` or `-`,
/// then one or more ASCII digits, whose value must lie in the range of `i64`.
pub open spec fn parse_i64_spec(s: Seq<u8>) -> Option<i64> {
    let signed = s.len() > 0 && (s[0] == 43u8 || s[0] == 45u8);
    let body = if signed { s.subrange(1, s.len() as int) } else { s };
    if body.len() == 0 || !all_digits(body) {
        None
    } else {
        let v: int = if signed && s[0] == 45u8 {
            -(digits_value(body) as int)
        } else {
            digits_value(body) as int
        };
        if i64::MIN <= v <= i64::MAX {
            Some(v as i64)
        } else {
            None
        }
    }
}

/// The shortest base-ten digits of `n`.
pub open spec fn decimal(n: nat) -> Seq<u8>
    decreases n,
{
    if n < 10 {
        seq![(48 + n) as u8]
    } else {
        decimal(n / 10).push((48 + n % 10) as u8)
    }
}

/// The text of an `i64`: a `-` for negative values, then its digits.
pub open spec fn i64_text(x: i64) -> Seq<u8> {
    if x < 0 {
        seq![45u8] + decimal((-x) as nat)
    } else {
        decimal(x as nat)
    }
}

/// The plain (not yet base64-encoded) correlation payload of a transaction.
pub open spec fn payload_text(x: i64) -> Seq<u8> {
    payload_prefix() + i64_text(x)
}

/// The transaction id that a decoded payload names, if it is one of ours.
pub open spec fn payload_id(b: Seq<u8>) -> Option<i64> {
    prefixed_i64(b, payload_prefix())
}

pub proof fn lemma_decimal(n: nat)
    ensures
        decimal(n).len() >= 1,
        all_digits(decimal(n)),
        digits_value(decimal(n)) == n,
    decreases n,
{
    if n >= 10 {
        lemma_decimal(n / 10);
        let d = decimal(n);
        assert(d.drop_last() =~= decimal(n / 10));
        assert((n / 10) * 10 + n % 10 == n) by (nonlinear_arith);
        assert(d.last() == (48 + n % 10) as u8);
        assert((d.last() - 48) as nat == n % 10);
        assert forall|i: int| 0 <= i < d.len() implies is_digit(#[trigger] d[i]) by {
            if i < d.len() - 1 {
                assert(d[i] == decimal(n / 10)[i]);
            }
        }
    } else {
        assert(decimal(n).drop_last() =~= Seq::<u8>::empty());
        assert(digits_value(Seq::<u8>::empty()) == 0);
        assert(decimal(n).last() == (48 + n) as u8);
    }
}

proof fn lemma_digits_value_prefix(s: Seq<u8>, k: int)
    requires
        0 <= k <= s.len(),
    ensures
        digits_value(s.subrange(0, k)) <= digits_value(s),
    decreases s.len(),
{
    if k < s.len() {
        assert(s.drop_last() =~= s.subrange(0, s.len() - 1));
        lemma_digits_value_prefix(s.drop_last(), k);
        assert(s.drop_last().subrange(0, k) =~= s.subrange(0, k));
    } else {
        assert(s.subrange(0, k) =~= s);
    }
}

/// The text form of `x` parses back to `x`.
pub proof fn lemma_i64_text_parses(x: i64)
    ensures
        parse_i64_spec(i64_text(x)) == Some(x),
{
    if x < 0 {
        let n = (-x) as nat;
        lemma_decimal(n);
        assert(i64_text(x).subrange(1, i64_text(x).len() as int) =~= decimal(n));
    } else {
        lemma_decimal(x as nat);
    }
}

/// The payload of `x` names `x`.
pub proof fn lemma_payload_round_trip(x: i64)
    ensures
        payload_id(payload_text(x)) == Some(x),
{
    let b = payload_text(x);
    assert(b.subrange(0, 15) =~= payload_prefix());
    assert(b.subrange(15, b.len() as int) =~= i64_text(x));
    lemma_i64_text_parses(x);
}

/// Bytes that percent-encoding leaves as they are: ASCII letters and digits,
/// `-`, `.`, `_` and `~`.
pub open spec fn url_safe(b: u8) -> bool {
    (48 <= b <= 57) || (65 <= b <= 90) || (97 <= b <= 122) || b == 45 || b == 46 || b == 95
        || b == 126
}

/// An upper-case hexadecimal digit.
pub open spec fn hex_upper(d: u8) -> char {
    if d < 10 {
        ((48 + d) as u8) as char
    } else {
        ((55 + d) as u8) as char
    }
}

pub open spec fn url_escaped(b: u8) -> Seq<char> {
    if url_safe(b) {
        seq![b as char]
    } else {
        seq!['%', hex_upper(b / 16), hex_upper(b % 16)]
    }
}

/// Percent-encoding of a byte string, byte by byte.
pub open spec fn url_encoded(s: Seq<u8>) -> Seq<char>
    decreases s.len(),
{
    if s.len() == 0 {
        Seq::empty()
    } else {
        url_encoded(s.drop_last()) + url_escaped(s.last())
    }
}

/// Relies on `urlencoding::encode_binary`: every byte but ASCII letters,
/// digits, `-`, `.`, `_` and `~` becomes `%` and two upper-case hex digits.
#[verifier::external_body]
fn url_encode(b: &[u8]) -> (r: String)
    ensures
        r@ == url_encoded(b@),
{
    urlencoding::encode_binary(b).into_owned()
}

/// The correlation token of a transaction: its payload in standard base64.
pub open spec fn token_of(transaction_id: i64) -> Seq<char> {
    base64_of(payload_text(transaction_id))
}

/// The bytes that a token is the standard base64 text of, if any.
pub open spec fn token_bytes(t: Seq<char>) -> Option<Seq<u8>> {
    if exists|b: Seq<u8>| base64_of(b) == t {
        Some(choose|b: Seq<u8>| base64_of(b) == t)
    } else {
        None
    }
}

/// The transaction id that a memo token names, or `None` when it is not ours.
pub open spec fn decode_spec(t: Seq<char>) -> Option<i64> {
    match token_bytes(t) {
        Some(b) => payload_id(b),
        None => None,
    }
}

fn payload_prefix_bytes() -> (r: Vec<u8>)
    ensures
        r@ == payload_prefix(),
{
    let r = vec![116u8, 114, 97, 110, 115, 97, 99, 116, 105, 111, 110, 95, 105, 100, 61];
    assert(r@ =~= payload_prefix());
    r
}

/// The plain payload `transaction_id=<id>` as bytes.
pub fn payload_bytes(transaction_id: i64) -> (r: Vec<u8>)
    ensures
        r@ == payload_text(transaction_id),
{
    let mut out = payload_prefix_bytes();
    push_i64(transaction_id, &mut out);
    out
}

/// Builds the correlation token of a transaction, for a transfer memo and a
/// payment deep link.
pub fn encode(transaction_id: i64) -> (r: String)
    ensures
        r@ == token_of(transaction_id),
{
    let raw = payload_bytes(transaction_id);
    base64_encode(raw.as_slice())
}

/// The `i64` that follows `prefix` in `b`, if `b` starts with `prefix` and
/// the rest is the text of an `i64`.
pub open spec fn prefixed_i64(b: Seq<u8>, prefix: Seq<u8>) -> Option<i64> {
    if b.len() >= prefix.len() && b.subrange(0, prefix.len() as int) == prefix {
        parse_i64_spec(b.subrange(prefix.len() as int, b.len() as int))
    } else {
        None
    }
}

/// Strips `prefix` from `b` and parses the rest as an `i64`.
pub(crate) fn parse_prefixed_i64(b: &[u8], prefix: &[u8]) -> (r: Option<i64>)
    ensures
        r == prefixed_i64(b@, prefix@),
{
    if b.len() < prefix.len() {
        return None;
    }
    let (head, tail) = b.split_at(prefix.len());
    let mut i: usize = 0;
    while i < prefix.len()
        invariant
            i <= prefix@.len(),
            b@.len() >= prefix@.len(),
            head@ == b@.subrange(0, prefix@.len() as int),
            forall|j: int| 0 <= j < i ==> head@[j] == prefix@[j],
        decreases prefix@.len() - i,
    {
        if head[i] != prefix[i] {
            assert(b@.subrange(0, prefix@.len() as int)[i as int] != prefix@[i as int]);
            return None;
        }
        i = i + 1;
    }
    assert(head@ =~= prefix@);
    parse_i64(tail)
}

/// Reads the transaction id out of a decoded payload; `None` unless the bytes
/// are `transaction_id=` followed by the text of an `i64`.
pub fn parse_payload(b: &[u8]) -> (r: Option<i64>)
    ensures
        r == payload_id(b@),
{
    let prefix = payload_prefix_bytes();
    parse_prefixed_i64(b, prefix.as_slice())
}

/// Recovers the transaction id from a transfer memo. Anything that is not a
/// canonical standard base64 text of `transaction_id=<i64>` gives `None`.
pub fn decode(token: &str) -> (r: Option<i64>)
    ensures
        r == decode_spec(token@),
        forall|x: i64| token@ == #[trigger] token_of(x) ==> r == Some(x),
{
    let decoded = base64_decode(token);
    proof {
        assert forall|x: i64| token@ == #[trigger] token_of(x) implies decoded is Some
            && decoded->Some_0@ == payload_text(x) by {
            assert(base64_of(payload_text(x)) == token@);
        }
    }
    match decoded {
        Some(bytes) => {
            proof {
                let c = choose|b: Seq<u8>| base64_of(b) == token@;
                assert(base64_of(c) == token@);
                assert(token_bytes(token@) == Some(bytes@));
                assert forall|x: i64| token@ == #[trigger] token_of(x) implies payload_id(
                    bytes@,
                ) == Some(x) by {
                    lemma_payload_round_trip(x);
                }
            }
            parse_payload(bytes.as_slice())
        },
        None => {
            assert(!exists|b: Seq<u8>| base64_of(b) == token@);
            None
        },
    }
}

/// Decoding fails closed: a token names an id only when it is the canonical
/// standard base64 text of an ASCII payload, `transaction_id=` followed by an
/// optionally signed run of digits whose value is that id. Text that is not
/// base64, and bytes of any other shape (not UTF-8 among them), name nothing.
pub proof fn lemma_decode_fails_closed(t: Seq<char>)
    ensures
        token_bytes(t) is None ==> decode_spec(t) is None,
        decode_spec(t) matches Some(x) ==> token_bytes(t) matches Some(b) && {
            &&& base64_of(b) == t
            &&& b.len() > payload_prefix().len()
            &&& b.subrange(0, payload_prefix().len() as int) == payload_prefix()
            &&& parse_i64_spec(b.subrange(payload_prefix().len() as int, b.len() as int)) == Some(x)
            &&& forall|i: int| 0 <= i < b.len() ==> #[trigger] b[i] < 128
        },
{
    if let Some(x) = decode_spec(t) {
        let b = token_bytes(t)->Some_0;
        let tail = b.subrange(15, b.len() as int);
        assert(tail.len() > 0);
        assert forall|i: int| 0 <= i < b.len() implies #[trigger] b[i] < 128 by {
            if i < 15 {
                assert(b[i] == b.subrange(0, 15)[i]);
            } else {
                assert(b[i] == tail[i - 15]);
                if i > 15 {
                    let body = tail.subrange(1, tail.len() as int);
                    if tail[0] == 43u8 || tail[0] == 45u8 {
                        assert(tail[i - 15] == body[i - 16]);
                    }
                }
            }
        }
    }
}

/// The human-readable comment of a payment deep link, before the id.
pub open spec fn link_note() -> Seq<char> {
    "Fee Split Transfer for Krypton transaction "@
}

/// The wallet deep link that asks for `amount` to be sent to
/// `contract_address` with the correlation token of `transaction_id` as memo.
pub open spec fn payment_link_spec(
    contract_address: Seq<char>,
    amount: Seq<char>,
    transaction_id: i64,
) -> Seq<char> {
    "ton://transfer/"@ + contract_address + "?amount="@ + amount + "&payload="@ + token_of(
        transaction_id,
    ) + "&text="@ + url_encoded(encode_utf8(link_note()) + i64_text(transaction_id))
}

/// Builds the `ton://transfer/...` deep link that a QR code carries.
pub fn payment_link(contract_address: &str, amount: &str, transaction_id: i64) -> (r: String)
    ensures
        r@ == payment_link_spec(contract_address@, amount@, transaction_id),
{
    let note = "Fee Split Transfer for Krypton transaction ";
    let mut text = slice_to_vec_u8(note.as_bytes());
    push_i64(transaction_id, &mut text);
    let escaped = url_encode(text.as_slice());
    let token = encode(transaction_id);
    let mut link = String::from_str("ton://transfer/");
    link.append(contract_address);
    link.append("?amount=");
    link.append(amount);
    link.append("&payload=");
    link.append(token.as_str());
    link.append("&text=");
    link.append(escaped.as_str());
    link
}

fn slice_to_vec_u8(s: &[u8]) -> (r: Vec<u8>)
    ensures
        r@ == s@,
{
    let mut r: Vec<u8> = Vec::new();
    let mut i: usize = 0;
    while i < s.len()
        invariant
            i <= s@.len(),
            r@ == s@.subrange(0, i as int),
        decreases s@.len() - i,
    {
        r.push(s[i]);
        i = i + 1;
        assert(r@ =~= s@.subrange(0, i as int));
    }
    assert(r@ =~= s@);
    r
}

/// ASCII bytes read as characters.
pub open spec fn ascii_chars(b: Seq<u8>) -> Seq<char> {
    b.map_values(|x: u8| x as char)
}

/// The one-character text of a decimal digit.
fn digit_text(d: u8) -> (r: &'static str)
    requires
        d < 10,
    ensures
        r@ == seq![(48 + d) as u8 as char],
{
    proof {
        reveal_strlit("0");
        reveal_strlit("1");
        reveal_strlit("2");
        reveal_strlit("3");
        reveal_strlit("4");
        reveal_strlit("5");
        reveal_strlit("6");
        reveal_strlit("7");
        reveal_strlit("8");
        reveal_strlit("9");
    }
    let r = match d {
        0 => "0",
        1 => "1",
        2 => "2",
        3 => "3",
        4 => "4",
        5 => "5",
        6 => "6",
        7 => "7",
        8 => "8",
        _ => "9",
    };
    assert(r@ =~= seq![(48 + d) as u8 as char]);
    r
}

/// Appends the decimal digits of `n` to a text.
fn append_decimal(n: u64, out: &mut String)
    ensures
        final(out)@ == old(out)@ + ascii_chars(decimal(n as nat)),
    decreases n,
{
    if n >= 10 {
        append_decimal(n / 10, out);
    }
    out.append(digit_text((n % 10) as u8));
    assert(final(out)@ =~= old(out)@ + ascii_chars(decimal(n as nat)));
}

/// The decimal text of `n`.
pub fn u64_to_string(n: u64) -> (r: String)
    ensures
        r@ == ascii_chars(decimal(n as nat)),
{
    let mut out = String::new();
    append_decimal(n, &mut out);
    assert(out@ =~= ascii_chars(decimal(n as nat)));
    out
}

/// The text of `x`: a `-` for negative values, then its decimal digits.
pub fn i64_to_string(x: i64) -> (r: String)
    ensures
        r@ == ascii_chars(i64_text(x)),
{
    let mut out = String::new();
    if x < 0 {
        out.append("-");
        proof {
            reveal_strlit("-");
        }
        let m: u64 = (0i128 - x as i128) as u64;
        append_decimal(m, &mut out);
    } else {
        append_decimal(x as u64, &mut out);
    }
    assert(out@ =~= ascii_chars(i64_text(x)));
    out
}

/// Appends the decimal digits of `n`.
fn push_decimal(n: u64, out: &mut Vec<u8>)
    ensures
        final(out)@ == old(out)@ + decimal(n as nat),
    decreases n,
{
    if n >= 10 {
        push_decimal(n / 10, out);
    }
    out.push(48u8 + (n % 10) as u8);
    assert(final(out)@ =~= old(out)@ + decimal(n as nat));
}

/// Appends the text form of `x`.
fn push_i64(x: i64, out: &mut Vec<u8>)
    ensures
        final(out)@ == old(out)@ + i64_text(x),
{
    if x < 0 {
        out.push(45u8);
        let m: u64 = (0i128 - x as i128) as u64;
        push_decimal(m, out);
        assert(final(out)@ =~= old(out)@ + i64_text(x));
    } else {
        push_decimal(x as u64, out);
    }
}

/// Parses the standard text form of an `i64`.
fn parse_i64(s: &[u8]) -> (r: Option<i64>)
    ensures
        r == parse_i64_spec(s@),
{
    let n = s.len();
    if n == 0 {
        return None;
    }
    let signed = s[0] == 43u8 || s[0] == 45u8;
    let start: usize = if signed { 1 } else { 0 };
    let ghost body = if signed { s@.subrange(1, n as int) } else { s@ };
    assert(body =~= s@.subrange(start as int, n as int));
    if start == n {
        return None;
    }
    let mut acc: u128 = 0;
    let mut i: usize = start;
    while i < n
        invariant
            start <= i <= n,
            n == s@.len(),
            n > 0,
            signed == (s@[0] == 43u8 || s@[0] == 45u8),
            start == (if signed { 1usize } else { 0usize }),
            body == (if signed { s@.subrange(1, n as int) } else { s@ }),
            body == s@.subrange(start as int, n as int),
            all_digits(s@.subrange(start as int, i as int)),
            acc == digits_value(s@.subrange(start as int, i as int)),
            acc <= 9223372036854775808,
        decreases n - i,
    {
        let c = s[i];
        assert(body[i - start] == c);
        if c < 48u8 || c > 57u8 {
            assert(!is_digit(body[i - start]));
            return None;
        }
        let ghost next = s@.subrange(start as int, i + 1);
        assert(next.drop_last() =~= s@.subrange(start as int, i as int));
        assert(next.last() == c);
        acc = acc * 10 + (c - 48u8) as u128;
        if acc > 9223372036854775808 {
            proof {
                assert(next =~= body.subrange(0, i + 1 - start));
                lemma_digits_value_prefix(body, i + 1 - start);
            }
            return None;
        }
        i = i + 1;
    }
    assert(s@.subrange(start as int, n as int) =~= body);
    if signed && s[0] == 45u8 {
        Some((0i128 - acc as i128) as i64)
    } else if acc <= 9223372036854775807 {
        Some(acc as i64)
    } else {
        None
    }
}

} // verus!
