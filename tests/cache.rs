use github_app::credential::{usable_value_of, Credential, Deadline};
use github_app::installation_token::{InstallationToken, TokenCache};
use github_app::GithubError;

fn credential(value: &str, expires_at: i64) -> Option<Credential> {
    Some(Credential { value: value.to_string(), expires_at })
}

#[test]
fn exclusive_deadline_ends_at_expiry() {
    let slot = credential("a", 100);
    assert_eq!(usable_value_of(&slot, 99, Deadline::Exclusive), Some("a".to_string()));
    assert_eq!(usable_value_of(&slot, 100, Deadline::Exclusive), None);
}

#[test]
fn inclusive_deadline_covers_expiry_second() {
    let slot = credential("a", 100);
    assert_eq!(usable_value_of(&slot, 100, Deadline::Inclusive), Some("a".to_string()));
    assert_eq!(usable_value_of(&slot, 101, Deadline::Inclusive), None);
}

#[test]
fn empty_slot_hands_out_nothing() {
    assert_eq!(usable_value_of(&None, 0, Deadline::Inclusive), None);
    let cache = TokenCache::new();
    assert_eq!(cache.usable_token(0), None);
    assert!(cache.needs_refresh(0));
}

#[test]
fn credential_usability_follows_deadline() {
    let c = Credential { value: "x".to_string(), expires_at: 10 };
    assert!(c.is_usable_at(9, Deadline::Exclusive));
    assert!(!c.is_usable_at(10, Deadline::Exclusive));
    assert!(c.is_usable_at(10, Deadline::Inclusive));
}

#[test]
fn repeated_reads_give_identical_tokens() {
    let mut cache = TokenCache::new();
    cache.store(InstallationToken { token: "tok".to_string(), expires_at: 500 });
    let a = cache.usable_token(100).unwrap();
    let b = cache.usable_token(300).unwrap();
    let c = cache.usable_token(500).unwrap();
    assert_eq!(a, b);
    assert_eq!(b, c);
    assert!(!cache.needs_refresh(500));
    assert!(cache.needs_refresh(501));
}

#[test]
fn response_with_bad_expiry_is_auth_error() {
    let r = InstallationToken::from_response("abc".to_string(), "tomorrow");
    assert_eq!(r.unwrap_err(), GithubError::AuthError);
    let mut cache = TokenCache::new();
    assert_eq!(cache.accept_exchange("abc".to_string(), "soon"), Err(GithubError::AuthError));
    assert_eq!(cache.usable_token(0), None);
}

#[test]
fn response_expiry_is_read_in_seconds() {
    let t = InstallationToken::from_response("abc".to_string(), "2016-07-11T22:14:10Z").unwrap();
    assert_eq!(t.token, "abc");
    assert_eq!(t.expires_at, 1_468_275_250);
}

#[test]
fn date_time_text_is_parsed() {
    let read = |text: &str| InstallationToken::from_response("t".to_string(), text).map(|t| t.expires_at);
    assert_eq!(read("1970-01-01T00:01:40Z"), Ok(100));
    assert_eq!(read("1970-01-01T01:00:00+01:00"), Ok(0));
    assert_eq!(read("not a date"), Err(GithubError::AuthError));
}
