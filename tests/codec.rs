use bridgl::error::BridglError;
use bridgl::state::{UnwrapParams, WrapParams};

fn sample_wrap() -> WrapParams {
    WrapParams {
        name: String::from("NAME"),
        symbol: String::from("SYMBOL"),
        underlying_token: vec![0xAB; 32],
        to: vec![0x11; 32],
        amount: 1000,
    }
}

fn sample_unwrap() -> UnwrapParams {
    UnwrapParams { underlying_token: vec![0xAB; 32], to: vec![0x11; 32], amount: 500 }
}

fn same_wrap(a: &WrapParams, b: &WrapParams) -> bool {
    a.name == b.name
        && a.symbol == b.symbol
        && a.underlying_token == b.underlying_token
        && a.to == b.to
        && a.amount == b.amount
}

#[test]
fn wrap_params_round_trip() {
    let p = sample_wrap();
    let bytes = p.encode();
    let q = WrapParams::decode(&bytes).ok().unwrap();
    assert!(same_wrap(&p, &q));
}

#[test]
fn wrap_params_round_trip_empty_and_unicode_fields() {
    let p = WrapParams {
        name: String::new(),
        symbol: String::from("é✓"),
        underlying_token: vec![],
        to: vec![1, 2, 3],
        amount: u128::MAX,
    };
    let q = WrapParams::decode(&p.encode()).ok().unwrap();
    assert!(same_wrap(&p, &q));
}

#[test]
fn unwrap_params_round_trip() {
    let p = sample_unwrap();
    let q = UnwrapParams::decode(&p.encode()).ok().unwrap();
    assert_eq!(q.underlying_token, p.underlying_token);
    assert_eq!(q.to, p.to);
    assert_eq!(q.amount, p.amount);
}

#[test]
fn unwrap_params_encoding_layout() {
    // Head: two offsets and the amount word; then each byte array as a length
    // word followed by one word per element.
    let p = UnwrapParams { underlying_token: vec![7, 8], to: vec![9], amount: 0x0102 };
    let bytes = p.encode();
    assert_eq!(bytes.len(), 3 * 32 + (32 + 2 * 32) + (32 + 32));
    assert_eq!(bytes[31], 0x60);
    assert_eq!(bytes[63], 0x60 + 3 * 32);
    assert_eq!(bytes[94], 0x01);
    assert_eq!(bytes[95], 0x02);
    assert_eq!(bytes[96 + 31], 2);
    assert_eq!(bytes[128 + 31], 7);
    assert_eq!(bytes[160 + 31], 8);
    assert_eq!(bytes[192 + 31], 1);
    assert_eq!(bytes[224 + 31], 9);
}

#[test]
fn wrap_params_encoding_length() {
    let bytes = sample_wrap().encode();
    assert_eq!(bytes.len(), 5 * 32 + 64 + 64 + (32 + 32 * 32) + (32 + 32 * 32));
}

#[test]
fn decode_refuses_oversized_length_words() {
    let mut bytes = sample_unwrap().encode();
    // The first array's length word claims far more elements than there are bytes.
    for b in &mut bytes[96..128] {
        *b = 0xFF;
    }
    assert!(matches!(UnwrapParams::decode(&bytes), Err(BridglError::InvalidMessageData)));
    let mut bytes = sample_wrap().encode();
    let off = bytes[64 + 31] as usize + 256 * bytes[64 + 30] as usize;
    bytes[off + 24] = 0x7F;
    assert!(matches!(WrapParams::decode(&bytes), Err(BridglError::InvalidMessageData)));
}

#[test]
fn decode_rejects_trailing_bytes() {
    let mut bytes = sample_wrap().encode();
    bytes.push(0);
    assert!(matches!(WrapParams::decode(&bytes), Err(BridglError::InvalidMessageData)));
    let mut bytes = sample_unwrap().encode();
    bytes.extend_from_slice(&[0u8; 32]);
    assert!(matches!(UnwrapParams::decode(&bytes), Err(BridglError::InvalidMessageData)));
}

#[test]
fn decode_rejects_truncated_bytes() {
    let bytes = sample_wrap().encode();
    for cut in [0usize, 1, 31, 32, bytes.len() - 32, bytes.len() - 1] {
        assert!(matches!(
            WrapParams::decode(&bytes[..cut]),
            Err(BridglError::InvalidMessageData)
        ));
    }
    let bytes = sample_unwrap().encode();
    assert!(matches!(
        UnwrapParams::decode(&bytes[..bytes.len() - 1]),
        Err(BridglError::InvalidMessageData)
    ));
}

#[test]
fn decode_rejects_non_canonical_encoding() {
    // A byte array element word with a value above 255 is not a valid byte.
    let mut bytes = sample_unwrap().encode();
    let last = bytes.len() - 2;
    bytes[last] = 1;
    assert!(matches!(UnwrapParams::decode(&bytes), Err(BridglError::InvalidMessageData)));
}
