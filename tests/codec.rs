use krypton::codec::{decode, encode, i64_to_string, parse_payload, payload_bytes, payment_link, u64_to_string};

#[test]
fn encode_gives_standard_base64_of_payload() {
    assert_eq!(encode(42), "dHJhbnNhY3Rpb25faWQ9NDI=");
    assert_eq!(encode(0), "dHJhbnNhY3Rpb25faWQ9MA==");
    assert_eq!(encode(-7), "dHJhbnNhY3Rpb25faWQ9LTc=");
}

#[test]
fn payload_bytes_spell_the_id() {
    assert_eq!(payload_bytes(42), b"transaction_id=42".to_vec());
    assert_eq!(payload_bytes(-9223372036854775808), b"transaction_id=-9223372036854775808".to_vec());
}

#[test]
fn round_trip_on_edge_values() {
    for x in [0i64, 1, -1, 42, 9, 10, 99, 100, i64::MAX, i64::MIN, i64::MIN + 1, 1234567890123] {
        assert_eq!(decode(&encode(x)), Some(x));
    }
}

#[test]
fn extremes_encode_exactly() {
    assert_eq!(encode(i64::MAX), "dHJhbnNhY3Rpb25faWQ9OTIyMzM3MjAzNjg1NDc3NTgwNw==");
    assert_eq!(encode(i64::MIN), "dHJhbnNhY3Rpb25faWQ9LTkyMjMzNzIwMzY4NTQ3NzU4MDg=");
}

#[test]
fn decode_accepts_sign_and_leading_zeros_as_integer_parsing_does() {
    // "transaction_id=+42"
    assert_eq!(decode("dHJhbnNhY3Rpb25faWQ9KzQy"), Some(42));
}

#[test]
fn decode_rejects_garbage() {
    assert_eq!(decode(""), None);
    assert_eq!(decode("not base64 at all!"), None);
    assert_eq!(decode("%%%%"), None);
    assert_eq!(decode("dHJhbnNhY3Rpb25faWQ9NDI"), None); // padding missing
    assert_eq!(decode("dHJhbnNhY3Rpb25faWQ9NDJ="), None); // non-zero trailing bits
    assert_eq!(decode("dHJhbnNh"), None); // truncated
    assert_eq!(decode("Привет"), None);
}

#[test]
fn decode_rejects_foreign_payloads() {
    assert_eq!(decode("aGVsbG89NDI="), None); // "hello=42"
    assert_eq!(decode("dHJhbnNhY3Rpb25faWQ9YWJj"), None); // "transaction_id=abc"
    assert_eq!(decode("dHJhbnNhY3Rpb25faWQ9"), None); // "transaction_id="
    assert_eq!(decode("dHJhbnNhY3Rpb25faWQ9LQ=="), None); // "transaction_id=-"
    assert_eq!(decode("dHJhbnNhY3Rpb25faWQ9//4="), None); // not UTF-8
    // one past i64::MAX
    assert_eq!(decode("dHJhbnNhY3Rpb25faWQ9OTIyMzM3MjAzNjg1NDc3NTgwOA=="), None);
}

#[test]
fn payment_link_is_a_ton_transfer_uri() {
    let link = payment_link("EQAddr", "1.5", 42);
    assert_eq!(
        link,
        "ton://transfer/EQAddr?amount=1.5&payload=dHJhbnNhY3Rpb25faWQ9NDI=&text=Fee%20Split%20Transfer%20for%20Krypton%20transaction%2042"
    );
}

#[test]
fn payment_link_escapes_negative_sign_as_safe() {
    let link = payment_link("W", "2", -3);
    assert!(link.ends_with("&text=Fee%20Split%20Transfer%20for%20Krypton%20transaction%20-3"));
}

#[test]
fn parse_payload_reads_plain_payloads() {
    assert_eq!(parse_payload(b"transaction_id=-42"), Some(-42));
    assert_eq!(parse_payload(b"transaction_id=0042"), Some(42));
    assert_eq!(parse_payload(b"transaction_id= 42"), None);
    assert_eq!(parse_payload(b"transaction_id=42 "), None);
    assert_eq!(parse_payload(b"transaction_id"), None);
    assert_eq!(parse_payload(b"Transaction_id=42"), None);
    assert_eq!(parse_payload(b"transaction_id=+"), None);
    assert_eq!(parse_payload(b"transaction_id=-9223372036854775808"), Some(i64::MIN));
    assert_eq!(parse_payload(b"transaction_id=-9223372036854775809"), None);
    assert_eq!(parse_payload(b"transaction_id=99999999999999999999999999"), None);
}

#[test]
fn integer_texts() {
    assert_eq!(i64_to_string(0), "0");
    assert_eq!(i64_to_string(-10), "-10");
    assert_eq!(i64_to_string(i64::MAX), i64::MAX.to_string());
    assert_eq!(i64_to_string(i64::MIN), i64::MIN.to_string());
    assert_eq!(u64_to_string(u64::MAX), u64::MAX.to_string());
    assert_eq!(u64_to_string(7), "7");
}
