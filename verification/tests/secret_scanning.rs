use crates_io::secret_scanning::alert::{
    revocation_for, FeedbackLabel, SecretAlert, TokenExposedEmail,
};
use crates_io::secret_scanning::cache::{CacheStep, PublicKeyCache, SignatureError};
use crates_io::secret_scanning::deps_dev::{self, DepsDevSecretAlert};
use crates_io::secret_scanning::github::{self, GitHubSecretAlert};
use crates_io::secret_scanning::key::{GenericPublicKey, PublicKey};
use crates_io::secret_scanning::request::{read_signature_headers, request_signature_error};
use crates_io::time::MICROS_PER_HOUR;

const NOW: i64 = 1_700_000_000_000_000;
const DAY: i64 = 24 * MICROS_PER_HOUR;

static PAYLOAD: &[u8] = br#"{"payload": {"token": "foobar"}}"#;
static PUBLIC_KEY: &str = "-----BEGIN PUBLIC KEY-----\nMFkwEwYHKoZIzj0CAQYIKoZIzj0DAQcDQgAEmf+tV9dbD3UKGtwcwt/Hf8vtW7yz\nXjcibIg1lZcyVHj3/mZV8eju0hQZGzgttCi/74Jkw1+CK/bsmcn3Ts8jtA==\n-----END PUBLIC KEY-----";
static SIGNATURE: &[u8] = b"MEQCIAOvKzpbYFkSaXMvsTNNTem5isxxJHGMjqAyZC7yRi7pAiAiCrBjelYSXU/HhW6V4lLC9BeHsfasV0CXWgLsE2ch5Q==";
static OTHER_PUBLIC_KEY: &str = "-----BEGIN PUBLIC KEY-----\nMFkwEwYHKoZIzj0CAQYIKoZIzj0DAQcDQgAE6NgBg4e0x2I2xmnCMETeAtRq3nfWgcK61Qr8ID8Vg1MS3eGgz33jpJysUnykBPuvzUITnur9JmsG3fqN23ZBUA==\n-----END PUBLIC KEY-----";

fn key(id: &str, pem: &str, current: bool) -> GenericPublicKey {
    GenericPublicKey::new(id.to_string(), pem.to_string(), current)
}

fn filled(keys: Vec<GenericPublicKey>) -> PublicKeyCache<GenericPublicKey> {
    let mut cache = PublicKeyCache::new(DAY);
    cache.refresh_cache_at(keys, NOW);
    cache
}

#[test]
fn test_is_cache_valid() {
    let cache: PublicKeyCache<GenericPublicKey> = PublicKeyCache::new(DAY);
    assert!(!cache.is_cache_valid_at(NOW));
    assert!(!cache.is_cache_valid());

    let mut cache: PublicKeyCache<GenericPublicKey> = PublicKeyCache::new(DAY);
    cache.refresh_cache(Vec::new());
    assert!(cache.is_cache_valid());

    let mut cache: PublicKeyCache<GenericPublicKey> = PublicKeyCache::new(DAY);
    cache.refresh_cache_at(Vec::new(), NOW - 2 * DAY);
    assert!(!cache.is_cache_valid_at(NOW));

    let mut cache: PublicKeyCache<GenericPublicKey> = PublicKeyCache::new(DAY);
    cache.refresh_cache_at(Vec::new(), NOW + 2 * DAY);
    assert!(cache.is_cache_valid_at(NOW));
}

#[test]
fn cache_expires_exactly_at_its_time_to_live() {
    let cache = filled(Vec::new());
    assert!(cache.is_cache_valid_at(NOW + DAY - 1));
    assert!(!cache.is_cache_valid_at(NOW + DAY));
}

#[test]
fn test_find() {
    let cache: PublicKeyCache<GenericPublicKey> = PublicKeyCache::new(DAY);
    assert!(matches!(cache.find_at("id-active", NOW), CacheStep::Refresh));

    let cache = filled(vec![key("id-active", "keykeykey", true)]);
    match cache.find_at("id-not-found", NOW) {
        CacheStep::Ready(found) => assert!(found.is_none()),
        CacheStep::Refresh => panic!("fresh cache asked for a refresh"),
    }
    match cache.find_at("id-active", NOW) {
        CacheStep::Ready(Some(k)) => {
            assert_eq!(k.id(), "id-active");
            assert_eq!(k.key(), "keykeykey");
            assert!(k.is_current());
        }
        _ => panic!("key not found"),
    }
}

#[test]
fn find_gives_the_first_key_listed_under_an_id() {
    let cache = filled(vec![key("a", "one", false), key("b", "two", true), key("a", "three", true)]);
    let k = cache.find_loaded("a").unwrap();
    assert_eq!(k.key(), "one");
    assert!(cache.find_loaded("c").is_none());
}

#[test]
fn test_verify() {
    let cache = filled(vec![
        key("inactive", PUBLIC_KEY, false),
        key("active", PUBLIC_KEY, true),
        key("different", OTHER_PUBLIC_KEY, true),
    ]);

    assert!(matches!(cache.verify_at("active", SIGNATURE, PAYLOAD, NOW), Ok(CacheStep::Ready(()))));
    assert!(matches!(
        cache.verify_at("inactive", SIGNATURE, PAYLOAD, NOW),
        Err(SignatureError::KeyNotCurrent(_))
    ));
    assert!(cache.verify_at("different", SIGNATURE, PAYLOAD, NOW).is_err());
    assert!(matches!(
        cache.verify_at("not found", SIGNATURE, PAYLOAD, NOW),
        Err(SignatureError::UnknownKeyId(_))
    ));
    assert!(cache.verify_loaded("active", SIGNATURE, PAYLOAD).is_ok());
    assert!(cache.verify_loaded("active", SIGNATURE, b"another payload").is_err());
}

#[test]
fn verify_asks_for_refresh_only_after_decoding() {
    let cache: PublicKeyCache<GenericPublicKey> = PublicKeyCache::new(DAY);
    assert!(matches!(cache.verify_at("active", SIGNATURE, PAYLOAD, NOW), Ok(CacheStep::Refresh)));
    assert!(matches!(
        cache.verify_at("active", b"not base64!", PAYLOAD, NOW),
        Err(SignatureError::InvalidBase64(_))
    ));
    assert!(matches!(
        cache.verify_at("active", b"aGVsbG8=", PAYLOAD, NOW),
        Err(SignatureError::InvalidDer(_))
    ));
}

#[test]
fn refresh_then_verify_uses_the_fetched_keys() {
    let mut cache: PublicKeyCache<GenericPublicKey> = PublicKeyCache::new(DAY);
    assert!(matches!(cache.verify_at("active", SIGNATURE, PAYLOAD, NOW), Ok(CacheStep::Refresh)));
    let r = cache.refresh_then_verify_at(vec![key("active", PUBLIC_KEY, true)], NOW, "active", SIGNATURE, PAYLOAD);
    assert!(r.is_ok());
    assert!(cache.is_cache_valid_at(NOW));
    let r = cache.refresh_then_verify(vec![key("other", PUBLIC_KEY, true)], "active", SIGNATURE, PAYLOAD);
    assert!(matches!(r, Err(SignatureError::UnknownKeyId(_))));
}

#[test]
fn refusal_texts_carry_the_outside_errors() {
    let cache = filled(vec![key("different", OTHER_PUBLIC_KEY, true)]);
    match cache.verify_at("active", b"not base64!", PAYLOAD, NOW) {
        Err(SignatureError::InvalidBase64(t)) => assert!(t.starts_with("InvalidByte")),
        other => panic!("unexpected {other:?}"),
    }
    if let Err(SignatureError::InvalidSignature(t)) = cache.verify_at("different", SIGNATURE, PAYLOAD, NOW) {
        assert!(t.starts_with("signature::Error"));
    }
}

#[test]
fn unparsable_public_key_is_refused() {
    let cache = filled(vec![key("active", "keykeykey", true)]);
    assert!(matches!(
        cache.verify_at("active", SIGNATURE, PAYLOAD, NOW),
        Err(SignatureError::InvalidPublicKey)
    ));
}

#[test]
fn signature_error_messages() {
    assert_eq!(SignatureError::UnknownKeyId("k".to_string()).message(), "unknown key id k");
    assert_eq!(
        SignatureError::KeyNotCurrent("k".to_string()).message(),
        "key id k is not a current key"
    );
    assert_eq!(SignatureError::InvalidPublicKey.message(), "cannot parse public key");
    let e = SignatureError::MissingHeader("X".to_string()).into_request_error();
    assert_eq!(e.status(), 400);
    assert_eq!(
        e.message(),
        "failed to verify request signature: CustomApiError { status: 400, detail: Single(\"missing HTTP header: X\") }"
    );
    let refusal = SignatureError::UnknownKeyId("k\"1".to_string()).refusal();
    assert_eq!(refusal.message(), "unknown key id k\"1");
    assert_eq!(
        request_signature_error(&refusal).message(),
        "failed to verify request signature: CustomApiError { status: 400, detail: Single(\"unknown key id k\\\"1\") }"
    );
    let server = crates_io::errors::custom(500, "fetch failed");
    assert_eq!(
        request_signature_error(&server).message(),
        "failed to verify request signature: CustomApiError { status: 500, detail: Single(\"fetch failed\") }"
    );
}

#[test]
fn signature_headers_are_read_in_order() {
    let r = read_signature_headers("K", "S", None, None);
    assert!(matches!(r, Err(SignatureError::MissingHeader(n)) if n == "K"));
    let r = read_signature_headers("K", "S", Some(b"bad\x01"), None);
    assert!(matches!(r, Err(SignatureError::InvalidHeader(d)) if d == "ToStrError { _priv: () }"));
    let r = read_signature_headers("K", "S", Some(b"key-1"), None);
    assert!(matches!(r, Err(SignatureError::MissingHeader(n)) if n == "S"));
    let h = read_signature_headers("K", "S", Some(b"key\t1"), Some(b"c2ln")).unwrap();
    assert_eq!(h.key_id, "key\t1");
    assert_eq!(h.signature, b"c2ln".to_vec());
}

#[test]
fn revocation_decisions() {
    let unknown = revocation_for(None);
    assert_eq!(unknown.label, FeedbackLabel::FalsePositive);
    assert!(!unknown.revoke && !unknown.notify);
    let live = revocation_for(Some(false));
    assert_eq!(live.label, FeedbackLabel::TruePositive);
    assert!(live.revoke && live.notify);
    let revoked = revocation_for(Some(true));
    assert_eq!(revoked.label, FeedbackLabel::TruePositive);
    assert!(!revoked.revoke && !revoked.notify);
}

#[test]
fn test_revoke_token() {
    let alert = GitHubSecretAlert {
        token: "cio1234".to_string(),
        kind: "crates_io_token".to_string(),
        url: "https://github.com/".to_string(),
        source: "pull request".to_string(),
    };
    // A live token is revoked, its owner is told, and the report is a true positive.
    let first = revocation_for(Some(false));
    assert!(first.revoke && first.notify);
    assert_eq!(first.label, FeedbackLabel::TruePositive);
    let email = TokenExposedEmail::new("crates.io", &alert, "bar");
    assert_eq!(email.subject(), "crates.io: Your API token \"bar\" has been revoked");
    assert_eq!(
        email.body(),
        "GitHub has notified us that your crates.io API token bar has been exposed publicly. We have revoked this token as a precaution.\n\nPlease review your account at https://crates.io to confirm that no unexpected changes have been made to your settings or crates.\n\nSource type: pull request\n\nURL where the token was found: https://github.com/"
    );
    // Reporting it again changes nothing and is still a true positive.
    let second = revocation_for(Some(true));
    assert!(!second.revoke && !second.notify);
    assert_eq!(second.label, FeedbackLabel::TruePositive);
    // An unknown token is a false positive.
    assert_eq!(revocation_for(None).label, FeedbackLabel::FalsePositive);
}

#[test]
fn email_without_url_or_source() {
    let alert = DepsDevSecretAlert { token: "t".to_string(), url: String::new() };
    let email = TokenExposedEmail::new("example.com", &alert, "ci");
    assert_eq!(
        email.body(),
        "deps.dev has notified us that your crates.io API token ci has been exposed publicly. We have revoked this token as a precaution.\n\nPlease review your account at https://example.com to confirm that no unexpected changes have been made to your settings or crates.\n\nWe were not informed of the URL where the token was found."
    );
}

#[test]
fn alerts_read_empty_fields_as_absent() {
    let a = DepsDevSecretAlert { token: "t".to_string(), url: String::new() };
    assert_eq!(a.reporter(), "deps.dev");
    assert_eq!(a.source(), None);
    assert_eq!(a.url(), None);
    assert_eq!(a.token(), "t");
    let b = DepsDevSecretAlert { token: "t".to_string(), url: "u".to_string() };
    assert_eq!(b.url(), Some("u"));
    let g = GitHubSecretAlert {
        token: "t".to_string(),
        kind: "k".to_string(),
        url: String::new(),
        source: "commit".to_string(),
    };
    assert_eq!(g.reporter(), "GitHub");
    assert_eq!(g.source(), Some("commit"));
    assert_eq!(g.url(), None);
}

#[test]
fn feedback_pairs_tokens_with_labels() {
    let alerts = vec![
        DepsDevSecretAlert { token: "a".to_string(), url: String::new() },
        DepsDevSecretAlert { token: "b".to_string(), url: String::new() },
    ];
    let labels = vec![FeedbackLabel::TruePositive, FeedbackLabel::FalsePositive];
    let f = deps_dev::feedback(&alerts, &labels);
    assert_eq!(f.len(), 2);
    assert_eq!(f[0].token_raw, "a");
    assert_eq!(f[1].label, FeedbackLabel::FalsePositive);

    let g = vec![GitHubSecretAlert {
        token: "x".to_string(),
        kind: "crates_io_token".to_string(),
        url: String::new(),
        source: String::new(),
    }];
    let f = github::feedback(&g, &vec![FeedbackLabel::TruePositive]);
    assert_eq!(f[0].token_raw, "x");
    assert_eq!(f[0].token_type, "crates_io_token");
    assert_eq!(f[0].label, FeedbackLabel::TruePositive);
}
