use polymarket_paper::{is_valid_market_id, Pubkey, MAX_MARKET_ID_LEN};

#[test]
fn keys_are_equal_when_their_bytes_are() {
    let a = Pubkey::new_from_array([7u8; 32]);
    let b = Pubkey { bytes: [7u8; 32] };
    assert_eq!(a, b);
    assert!(a == b);
}

#[test]
fn keys_differ_when_one_byte_differs() {
    let a = Pubkey::new_from_array([7u8; 32]);
    for i in 0..32 {
        let mut bytes = [7u8; 32];
        bytes[i] = 8;
        assert_ne!(a, Pubkey::new_from_array(bytes));
    }
}

#[test]
fn key_gives_its_bytes_back() {
    let mut bytes = [0u8; 32];
    for i in 0..32 {
        bytes[i] = (i * 3) as u8;
    }
    assert_eq!(Pubkey::new_from_array(bytes).to_bytes(), bytes);
}

#[test]
fn default_key_is_all_zero() {
    assert_eq!(Pubkey::default().to_bytes(), [0u8; 32]);
}

#[test]
fn market_id_of_32_characters_is_valid() {
    assert_eq!(MAX_MARKET_ID_LEN, 32);
    assert!(is_valid_market_id(""));
    assert!(is_valid_market_id("market-1"));
    assert!(is_valid_market_id("0123456789abcdef0123456789abcdef"));
}

#[test]
fn market_id_of_33_characters_is_not_valid() {
    assert!(!is_valid_market_id("0123456789abcdef0123456789abcdefg"));
}

#[test]
fn market_id_is_measured_in_characters() {
    let id = "é".repeat(32);
    assert_eq!(id.len(), 64);
    assert!(is_valid_market_id(&id));
    assert!(!is_valid_market_id(&"é".repeat(33)));
}
