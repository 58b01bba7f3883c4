use essentia_vpn_plugin::key_exchange::{
    erase, public_key_len, CIPHERTEXT_LEN, PUBLIC_KEY_LEN, SHARED_SECRET_LEN,
    X25519_PUBLIC_KEY_LEN,
};
use essentia_vpn_plugin::{KeyExchangeProtocol, PqcKeyExchange, VpnError};

#[test]
fn new_exchange_holds_no_secret() {
    let exchange = PqcKeyExchange::new(KeyExchangeProtocol::X25519);
    assert_eq!(exchange.protocol(), KeyExchangeProtocol::X25519);
    assert!(exchange.shared_secret().is_none());
}

#[test]
fn generated_public_key_has_the_length_of_its_protocol() {
    for (protocol, expected) in [
        (KeyExchangeProtocol::MlKem, 1184usize),
        (KeyExchangeProtocol::HybridMlKem, 1184usize),
        (KeyExchangeProtocol::X25519, 32usize),
    ] {
        let mut exchange = PqcKeyExchange::new(protocol);
        let public_key = exchange.generate_keypair().unwrap();
        assert_eq!(public_key.len(), expected);
        assert_eq!(public_key.len(), public_key_len(protocol));
        assert!(public_key.iter().all(|b| *b == 0));
        assert!(exchange.shared_secret().is_none());
        assert_eq!(exchange.protocol(), protocol);
    }
    assert_eq!(PUBLIC_KEY_LEN, 1184);
    assert_eq!(X25519_PUBLIC_KEY_LEN, 32);
}

#[test]
fn handshake_under_x25519_gives_both_parties_the_same_secret() {
    let mut a = PqcKeyExchange::new(KeyExchangeProtocol::X25519);
    let mut b = PqcKeyExchange::new(KeyExchangeProtocol::X25519);
    let public_key = a.generate_keypair().unwrap();
    assert_eq!(public_key.len(), 32);
    let (ciphertext, secret_b) = b.encapsulate(&public_key).unwrap();
    let secret_a = a.decapsulate(&ciphertext).unwrap();
    assert_eq!(secret_a, secret_b);
    assert_eq!(secret_a.len(), 32);
    assert_eq!(a.shared_secret(), b.shared_secret());
}

#[test]
fn generating_again_keeps_the_secret() {
    let mut exchange = PqcKeyExchange::new(KeyExchangeProtocol::MlKem);
    exchange.generate_keypair().unwrap();
    let secret = exchange.decapsulate(&[5u8; 1088]).unwrap();
    let again = exchange.generate_keypair().unwrap();
    assert_eq!(again.len(), 1184);
    assert_eq!(exchange.shared_secret(), Some(secret.as_slice()));
}

#[test]
fn encapsulate_gives_1088_byte_ciphertext_and_32_byte_secret() {
    let mut exchange = PqcKeyExchange::new(KeyExchangeProtocol::MlKem);
    let (ciphertext, secret) = exchange.encapsulate(&[7u8; 1184]).unwrap();
    assert_eq!(ciphertext.len(), 1088);
    assert_eq!(ciphertext.len(), CIPHERTEXT_LEN);
    assert_eq!(secret.len(), 32);
    assert_eq!(secret.len(), SHARED_SECRET_LEN);
    assert_eq!(exchange.shared_secret(), Some(secret.as_slice()));
}

#[test]
fn decapsulate_gives_32_byte_secret() {
    let mut exchange = PqcKeyExchange::new(KeyExchangeProtocol::MlKem);
    let secret = exchange.decapsulate(&[1u8, 2, 3]).unwrap();
    assert_eq!(secret.len(), 32);
    assert_eq!(exchange.shared_secret(), Some(secret.as_slice()));
}

#[test]
fn handshake_gives_both_parties_the_same_secret() {
    let mut a = PqcKeyExchange::new(KeyExchangeProtocol::HybridMlKem);
    let mut b = PqcKeyExchange::new(KeyExchangeProtocol::HybridMlKem);
    let public_key = a.generate_keypair().unwrap();
    let (ciphertext, secret_b) = b.encapsulate(&public_key).unwrap();
    let secret_a = a.decapsulate(&ciphertext).unwrap();
    assert_eq!(secret_a, secret_b);
    assert_eq!(secret_a.len(), 32);
    assert_eq!(secret_b.len(), 32);
    assert_eq!(a.shared_secret(), b.shared_secret());
    assert_eq!(a.shared_secret().unwrap().len(), 32);
}

#[test]
fn encapsulate_rejects_empty_key_and_keeps_the_secret() {
    let mut exchange = PqcKeyExchange::new(KeyExchangeProtocol::MlKem);
    match exchange.encapsulate(&[]) {
        Err(VpnError::KeyExchange(message)) => assert_eq!(message, "Empty server public key"),
        other => panic!("expected a key exchange error, got {other:?}"),
    }
    assert!(exchange.shared_secret().is_none());
    let secret = exchange.decapsulate(&[9u8; 1088]).unwrap();
    assert!(matches!(exchange.encapsulate(&[]), Err(VpnError::KeyExchange(_))));
    assert_eq!(exchange.shared_secret(), Some(secret.as_slice()));
}

#[test]
fn decapsulate_rejects_empty_ciphertext_and_keeps_the_secret() {
    let mut exchange = PqcKeyExchange::new(KeyExchangeProtocol::MlKem);
    match exchange.decapsulate(&[]) {
        Err(VpnError::KeyExchange(message)) => assert_eq!(message, "Empty ciphertext"),
        other => panic!("expected a key exchange error, got {other:?}"),
    }
    assert!(exchange.shared_secret().is_none());
    let (_, secret) = exchange.encapsulate(&[9u8; 1184]).unwrap();
    assert!(matches!(exchange.decapsulate(&[]), Err(VpnError::KeyExchange(_))));
    assert_eq!(exchange.shared_secret(), Some(secret.as_slice()));
}

#[test]
fn clear_discards_the_secret() {
    let mut exchange = PqcKeyExchange::new(KeyExchangeProtocol::MlKem);
    exchange.generate_keypair().unwrap();
    exchange.encapsulate(&[1u8; 4]).unwrap();
    assert!(exchange.shared_secret().is_some());
    exchange.clear();
    assert!(exchange.shared_secret().is_none());
    assert_eq!(exchange.protocol(), KeyExchangeProtocol::MlKem);
    exchange.clear();
    assert!(exchange.shared_secret().is_none());
}

#[test]
fn erase_overwrites_every_byte_with_zero() {
    let mut buffer: Vec<u8> = vec![0xAB, 0x01, 0xFF, 0x7F, 0x00];
    erase(&mut buffer);
    assert_eq!(buffer, vec![0u8, 0, 0, 0, 0]);
    let mut empty: Vec<u8> = Vec::new();
    erase(&mut empty);
    assert!(empty.is_empty());
}
