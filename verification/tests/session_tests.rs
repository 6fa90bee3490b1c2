use std::collections::HashSet;

use jmap_proxy::account::Account;
use jmap_proxy::capabilities::core_capabilities;
use jmap_proxy::config::Config;
use jmap_proxy::config::IMAPConfig;
use jmap_proxy::config::JMAPConfig;
use jmap_proxy::server::ServerState;
use jmap_proxy::session::generate_session;
use jmap_proxy::session::JmapSession;
use jmap_proxy::urls::URLs;

fn test_config() -> Config {
    Config {
        imap: IMAPConfig {
            username: "mailbox-user".to_string(),
            password: "mailbox-pass".to_string(),
            email: "a@b.com".to_string(),
            host: "imap.example.com".to_string(),
            port: 993,
            tls: true,
        },
        jmap: JMAPConfig {
            username: "svc".to_string(),
            password: "secret".to_string(),
            host: Some("127.0.0.1".to_string()),
            port: Some(8080),
        },
    }
}

fn test_state() -> ServerState {
    ServerState::new(test_config(), "127.0.0.1:8080".to_string())
}

fn assert_hex_token(token: &str) {
    assert!(!token.is_empty());
    assert_eq!(token.len(), 64);
    for c in token.chars() {
        assert!(c.is_ascii_hexdigit());
        assert!(!c.is_ascii_uppercase());
    }
}

fn assert_sessions_identical(a: &JmapSession, b: &JmapSession) {
    assert_eq!(a.username, b.username);
    assert_eq!(a.api_url, b.api_url);
    assert_eq!(a.download_url, b.download_url);
    assert_eq!(a.upload_url, b.upload_url);
    assert_eq!(a.event_source_url, b.event_source_url);
    assert_eq!(a.state, b.state);
    assert_eq!(a.capabilities.len(), b.capabilities.len());
    for (ca, cb) in a.capabilities.iter().zip(b.capabilities.iter()) {
        assert_eq!(ca.0, cb.0);
        assert_eq!(ca.1.max_size_upload, cb.1.max_size_upload);
        assert_eq!(ca.1.max_concurrent_upload, cb.1.max_concurrent_upload);
        assert_eq!(ca.1.max_size_request, cb.1.max_size_request);
        assert_eq!(ca.1.max_concurrent_requests, cb.1.max_concurrent_requests);
        assert_eq!(ca.1.max_calls_in_request, cb.1.max_calls_in_request);
        assert_eq!(ca.1.max_objects_in_get, cb.1.max_objects_in_get);
        assert_eq!(ca.1.max_objects_in_set, cb.1.max_objects_in_set);
        assert_eq!(ca.1.collation_algorithms, cb.1.collation_algorithms);
    }
    assert_eq!(a.accounts.len(), b.accounts.len());
    for (aa, ab) in a.accounts.iter().zip(b.accounts.iter()) {
        assert_eq!(aa.0.value, ab.0.value);
        assert_eq!(aa.1.name, ab.1.name);
        assert_eq!(aa.1.is_personal, ab.1.is_personal);
        assert_eq!(aa.1.is_read_only, ab.1.is_read_only);
        assert_eq!(aa.1.account_capabilities.len(), ab.1.account_capabilities.len());
    }
    assert_eq!(a.primary_accounts.len(), b.primary_accounts.len());
    assert_eq!(a.extra_properties.len(), b.extra_properties.len());
}

#[test]
fn authenticate_accepts_exact_pair() {
    let st = test_state();
    assert!(st.authenticate("svc", "secret"));
}

#[test]
fn authenticate_rejects_wrong_password() {
    let st = test_state();
    assert!(!st.authenticate("svc", "wrong"));
}

#[test]
fn authenticate_rejects_single_character_deviations() {
    let st = test_state();
    assert!(!st.authenticate("svd", "secret"));
    assert!(!st.authenticate("sv", "secret"));
    assert!(!st.authenticate("svcc", "secret"));
    assert!(!st.authenticate("Svc", "secret"));
    assert!(!st.authenticate("svc", "Secret"));
    assert!(!st.authenticate("svc", "secre"));
    assert!(!st.authenticate("svc", "secrett"));
    assert!(!st.authenticate("svc", "secret "));
    assert!(!st.authenticate("", ""));
    assert!(!st.authenticate("secret", "svc"));
}

#[test]
fn url_templates_substitute_address_verbatim() {
    let urls = URLs::from_address("example.com:8080");
    assert_eq!(urls.api, "https://example.com:8080/api");
    assert_eq!(
        urls.download,
        "https://example.com:8080/download/{accountId}/{blobId}/{name}?accept={type}"
    );
    assert_eq!(urls.upload, "https://example.com:8080/upload/{accountId}/");
    assert_eq!(
        urls.event_source,
        "https://example.com:8080/eventsource?types={types}&closeafter={closeafter}&ping={ping}"
    );
}

#[test]
fn url_templates_empty_address() {
    let urls = URLs::from_address("");
    assert_eq!(urls.api, "https:///api");
    assert_eq!(urls.upload, "https:///upload/{accountId}/");
}

#[test]
fn core_capability_limits() {
    let caps = core_capabilities();
    assert_eq!(caps.max_size_upload, 50_000_000);
    assert_eq!(caps.max_concurrent_upload, 4);
    assert_eq!(caps.max_size_request, 10_000_000);
    assert_eq!(caps.max_concurrent_requests, 4);
    assert_eq!(caps.max_calls_in_request, 16);
    assert_eq!(caps.max_objects_in_get, 500);
    assert_eq!(caps.max_objects_in_set, 500);
    assert!(caps.collation_algorithms.is_empty());
}

#[test]
fn account_ids_are_tagged_and_distinct() {
    let mut seen = HashSet::new();
    for _ in 0..10_000 {
        let id = Account::generate_id();
        assert_eq!(id.value.chars().count(), 37);
        assert!(id.value.starts_with('A'));
        seen.insert(id.value);
    }
    assert_eq!(seen.len(), 10_000);
}

#[test]
fn session_document_shape() {
    let st = test_state();
    let session = generate_session(&st);
    assert_eq!(session.username, "a@b.com");
    assert_eq!(session.capabilities.len(), 1);
    assert_eq!(session.capabilities[0].0, "urn:ietf:params:jmap:core");
    assert_eq!(session.accounts.len(), 1);
    assert_eq!(session.accounts[0].0.value, st.account_id.value);
    assert_eq!(session.accounts[0].1.name, "a@b.com");
    assert!(session.accounts[0].1.is_personal);
    assert!(session.accounts[0].1.is_read_only);
    assert!(session.primary_accounts.is_empty());
    assert_eq!(session.api_url, "https://127.0.0.1:8080/api");
    assert_hex_token(&session.state);
}

#[test]
fn session_generation_is_deterministic() {
    let st = test_state();
    let first = generate_session(&st);
    let second = generate_session(&st);
    assert_sessions_identical(&first, &second);
}

#[test]
fn stamping_unchanged_content_is_stable() {
    let st = test_state();
    let session = generate_session(&st);
    let token = session.state.clone();
    let restamped = session.compute_state();
    assert_eq!(restamped.state, token);
}

#[test]
fn state_token_changes_with_username() {
    let st = test_state();
    let base = generate_session(&st);
    let token = base.state.clone();
    let mut changed = generate_session(&st);
    changed.username.push('x');
    let changed = changed.compute_state();
    assert_ne!(changed.state, token);
}

#[test]
fn state_token_changes_with_any_url() {
    let st = test_state();
    let base = generate_session(&st);
    let token = base.state.clone();

    let mut changed = generate_session(&st);
    changed.api_url.push('x');
    assert_ne!(changed.compute_state().state, token);

    let mut changed = generate_session(&st);
    changed.download_url.push('x');
    assert_ne!(changed.compute_state().state, token);

    let mut changed = generate_session(&st);
    changed.upload_url.push('x');
    assert_ne!(changed.compute_state().state, token);

    let mut changed = generate_session(&st);
    changed.event_source_url.push('x');
    assert_ne!(changed.compute_state().state, token);
}

#[test]
fn state_token_changes_with_capability_content() {
    let st = test_state();
    let base = generate_session(&st);
    let token = base.state.clone();

    let mut changed = generate_session(&st);
    changed.capabilities[0].1.max_size_upload += 1;
    assert_ne!(changed.compute_state().state, token);

    let mut changed = generate_session(&st);
    changed.capabilities[0].1.collation_algorithms.push("i;octet".to_string());
    assert_ne!(changed.compute_state().state, token);
}

#[test]
fn state_token_changes_with_account_content() {
    let st = test_state();
    let base = generate_session(&st);
    let token = base.state.clone();

    let mut changed = generate_session(&st);
    changed.accounts[0].1.name.push('x');
    assert_ne!(changed.compute_state().state, token);

    let mut changed = generate_session(&st);
    changed.accounts[0].1.is_read_only = false;
    assert_ne!(changed.compute_state().state, token);
}

#[test]
fn state_token_changes_with_primary_accounts() {
    let st = test_state();
    let base = generate_session(&st);
    let token = base.state.clone();

    let mut changed = generate_session(&st);
    let id = Account::generate_id();
    changed
        .primary_accounts
        .push(("urn:ietf:params:jmap:core".to_string(), id));
    assert_ne!(changed.compute_state().state, token);
}

#[test]
fn state_token_ignores_extension_properties() {
    let st = test_state();
    let base = generate_session(&st);
    let token = base.state.clone();

    let mut changed = generate_session(&st);
    changed
        .extra_properties
        .push(("vendor".to_string(), "value".to_string()));
    assert_eq!(changed.compute_state().state, token);
}

#[test]
fn account_new_without_capability_detail() {
    let account = Account::new("a@b.com".to_string(), true, true, None);
    assert_eq!(account.name, "a@b.com");
    assert!(account.is_personal);
    assert!(account.is_read_only);
    assert!(account.account_capabilities.is_empty());
}

#[test]
fn server_state_snapshot() {
    let st = test_state();
    assert_eq!(st.account.name, "a@b.com");
    assert!(st.account.is_personal);
    assert!(st.account.is_read_only);
    assert_eq!(st.account_id.value.chars().count(), 37);
    assert!(st.account_id.value.starts_with('A'));
    assert_eq!(st.address, "127.0.0.1:8080");
}
