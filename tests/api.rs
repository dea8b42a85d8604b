use binance_pay::api::Api;
use binance_pay::client::{parse_merchant_id, ApiCred, Config, ConfigError, Signer};

fn cred() -> ApiCred {
    ApiCred { key: "key-1".to_string(), secret: "secret-1".to_string() }
}

fn some(s: &str) -> Option<String> {
    Some(s.to_string())
}

#[test]
fn default_client_identity() {
    let api = Api::new();
    assert_eq!(api.merchant_id(), 0);
    assert_eq!(api.merchant_id(), api.merchant_id());
    assert!(matches!(api.client.config.signer, Signer::Unsigned));
    assert_eq!(api.client.config.api_base, "https://bpay.binanceapi.com");
}

#[test]
fn credential_client_identity() {
    let api = Api::with_cred(cred());
    assert_eq!(api.merchant_id(), 0);
    assert_eq!(api.merchant_id(), api.merchant_id());
    match &api.client.config.signer {
        Signer::Cred(c) => {
            assert_eq!(c.key, "key-1");
            assert_eq!(c.secret, "secret-1");
        }
        _ => panic!("expected a credential signer"),
    }
    assert_eq!(api.client.config.signer.api_key(), Some("key-1"));
}

#[test]
fn closure_client_identity() {
    let api = Api::with_closure("key-1".to_string(), |payload: &[u8]| payload.to_vec());
    assert_eq!(api.merchant_id(), 0);
    assert_eq!(api.merchant_id(), api.merchant_id());
    match &api.client.config.signer {
        Signer::Closure(k) => {
            assert_eq!(k.api_key, "key-1");
            assert_eq!((k.closure)(b"abc"), b"abc".to_vec());
        }
        _ => panic!("expected a closure signer"),
    }
    assert_eq!(api.client.config.api_base, "https://bpay.binanceapi.com");
}

#[test]
fn credential_and_closure_share_api_key() {
    let by_cred = Api::with_cred(cred());
    let by_closure = Api::with_closure("key-1".to_string(), |payload: &[u8]| payload.to_vec());
    assert_eq!(by_cred.client.config.signer.api_key(), by_closure.client.config.signer.api_key());
}

#[test]
fn config_client_identity() {
    let mut config = Config::default();
    config.merchant_id = 98765;
    let api = Api::with_config(config);
    assert_eq!(api.merchant_id(), 98765);
    assert_eq!(api.merchant_id(), api.merchant_id());
}

#[test]
fn env_client_identity() {
    let api = Api::from_env(some("k"), some("s"), some("1234567")).unwrap();
    assert_eq!(api.merchant_id(), 1234567);
    assert_eq!(api.client.config.signer.api_key(), Some("k"));
}

#[test]
fn env_missing_values() {
    assert_eq!(Api::from_env(None, some("s"), some("1")).err(), Some(ConfigError::MissingApiKey));
    assert_eq!(Api::from_env(some("k"), None, some("1")).err(), Some(ConfigError::MissingApiSecret));
    assert_eq!(Api::from_env(some("k"), some("s"), None).err(), Some(ConfigError::MissingMerchantId));
}

#[test]
fn env_malformed_merchant_id() {
    for bad in ["", "12a", "-1", "+5", " 7", "18446744073709551616", "99999999999999999999999"] {
        assert_eq!(
            Api::from_env(some("k"), some("s"), some(bad)).err(),
            Some(ConfigError::MalformedMerchantId),
            "{}",
            bad
        );
    }
}

#[test]
fn merchant_id_parsing() {
    assert_eq!(parse_merchant_id("0"), Some(0));
    assert_eq!(parse_merchant_id("007"), Some(7));
    assert_eq!(parse_merchant_id("18446744073709551615"), Some(u64::MAX));
    assert_eq!(parse_merchant_id("18446744073709551616"), None);
    assert_eq!(parse_merchant_id("1x"), None);
    assert_eq!(parse_merchant_id(""), None);
}
