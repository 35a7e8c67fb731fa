use dcprov::cmd::{
    accept_prompted_token, establish, init_provisioning, normalize_url, resolve_token, Bootstrap,
    Connection, DcProvError, TokenResolution,
};
use dcprov::cmd::session::{prompted_token, terminal_answer};
use dcprov::credentials::{credential_entry, get_dracoon_env, set_dracoon_env};
use dcprov::provisioning::{DRACOONErrorResponse, DRACOONProvisioningError, RequestFailure};

/// The tests keep their tokens in the in-memory store of `keyring`, so that
/// they leave the store of the machine alone.
fn use_mock_store() {
    keyring::set_default_credential_builder(keyring::mock::default_credential_builder());
}

fn transport_error() -> reqwest::Error {
    reqwest::Client::new().get("this is no address").build().unwrap_err()
}

#[test]
fn address_with_https_stays_as_it_is() {
    assert_eq!(normalize_url("https://dracoon.example.com"), "https://dracoon.example.com");
    assert_eq!(normalize_url("https://a/?u=http://b"), "https://a/?u=http://b");
}

#[test]
fn address_with_http_gets_https() {
    assert_eq!(normalize_url("http://dracoon.example.com"), "https://dracoon.example.com");
    assert_eq!(normalize_url("http://a/?u=http://b"), "https://a/?u=https://b");
}

#[test]
fn address_without_scheme_gets_https() {
    assert_eq!(normalize_url("dracoon.example.com"), "https://dracoon.example.com");
    assert_eq!(normalize_url(""), "https://");
    assert_eq!(normalize_url("ftp://x"), "https://ftp://x");
    assert_eq!(normalize_url("HTTP://x"), "https://HTTP://x");
}

#[test]
fn token_from_the_command_line_comes_first() {
    let r = resolve_token(Some("explicit".to_string()), Ok("stored".to_string()));
    assert_eq!(r, TokenResolution::Explicit("explicit".to_string()));
    assert!(!r.persist());
    let r = resolve_token(Some("explicit".to_string()), Err(DcProvError::InvalidAccount));
    assert_eq!(r, TokenResolution::Explicit("explicit".to_string()));
    assert!(!r.persist());
}

#[test]
fn stored_token_comes_second() {
    let r = resolve_token(None, Ok("stored".to_string()));
    assert_eq!(r, TokenResolution::Stored("stored".to_string()));
    assert!(!r.persist());
}

#[test]
fn terminal_is_asked_last_and_the_answer_is_stored() {
    let r = resolve_token(None, Err(DcProvError::InvalidAccount));
    assert_eq!(r, TokenResolution::Prompt);
    assert!(r.persist());
    let r = resolve_token(None, Err(DcProvError::CredentialStorageFailed));
    assert_eq!(r, TokenResolution::Prompt);
}

#[test]
fn token_that_was_asked_for_is_used_the_next_time_without_asking() {
    use_mock_store();
    let entry = credential_entry("https://reuse.example.com").unwrap();
    let first = resolve_token(None, get_dracoon_env(&entry));
    assert_eq!(first, TokenResolution::Prompt);
    assert!(first.persist());
    set_dracoon_env(&entry, "answer").unwrap();
    let second = resolve_token(None, get_dracoon_env(&entry));
    assert_eq!(second, TokenResolution::Stored("answer".to_string()));
    assert!(!second.persist());
}

#[test]
fn run_with_a_token_on_the_command_line_is_ready() {
    use_mock_store();
    let r = init_provisioning("http://dracoon.example.com", Some("explicit".to_string()));
    assert_eq!(
        r,
        Bootstrap::Ready(Connection {
            url: "https://dracoon.example.com".to_string(),
            token: "explicit".to_string()
        })
    );
}

#[test]
fn run_without_any_token_has_to_ask() {
    use_mock_store();
    let r = init_provisioning("unknown.example.com", None);
    assert_eq!(r, Bootstrap::Prompt { url: "https://unknown.example.com".to_string() });
}

#[test]
fn answer_that_could_not_be_read_is_an_input_failure() {
    use_mock_store();
    assert!(matches!(prompted_token(None), Err(DcProvError::Io)));
    assert!(matches!(terminal_answer::<bool>(None), Err(DcProvError::Io)));
    assert!(matches!(terminal_answer(Some(true)), Ok(true)));
    assert_eq!(prompted_token(Some("t".to_string())).unwrap(), "t");
    let r = accept_prompted_token("https://dracoon.example.com".to_string(), None);
    assert!(matches!(r, Err(DcProvError::Io)));
}

#[test]
fn answer_that_was_read_never_fails_as_input() {
    use_mock_store();
    for answer in ["", "answer", " "] {
        let r = accept_prompted_token("https://dracoon.example.com".to_string(), Some(answer.to_string()));
        assert!(!matches!(r, Err(DcProvError::Io)));
    }
}

#[test]
fn answer_is_stored_and_used() {
    use_mock_store();
    let r = accept_prompted_token("https://dracoon.example.com".to_string(), Some("answer".to_string()));
    assert_eq!(
        r.unwrap(),
        Connection { url: "https://dracoon.example.com".to_string(), token: "answer".to_string() }
    );
}

fn connection() -> Connection {
    Connection { url: "https://dracoon.example.com".to_string(), token: "t".to_string() }
}

#[test]
fn bootstrap_ends_in_a_client_when_the_token_holds() {
    let client = establish(connection(), Ok(200)).unwrap();
    assert_eq!(client.base_url(), "https://dracoon.example.com/");
}

#[test]
fn bootstrap_passes_the_failures_of_the_client_on() {
    assert!(matches!(establish(connection(), Ok(401)), Err(DcProvError::Unauthorized(None))));
    assert!(matches!(establish(connection(), Ok(500)), Err(DcProvError::Unauthorized(None))));
    assert!(matches!(
        establish(connection(), Err(transport_error())),
        Err(DcProvError::TransportFailure(RequestFailure::Transport(_)))
    ));
    let bad = Connection { url: "https://".to_string(), token: "t".to_string() };
    assert!(matches!(establish(bad, Ok(200)), Err(DcProvError::InvalidUrl(_))));
}

#[test]
fn failure_of_the_client_is_the_failure_of_the_run_of_the_same_kind() {
    let body = || DRACOONErrorResponse { code: 1, message: "m".to_string(), debug_info: None, error_code: None };
    assert!(matches!(DcProvError::from(DRACOONProvisioningError::BadRequest(body())), DcProvError::BadRequest(b) if b == body()));
    assert!(matches!(DcProvError::from(DRACOONProvisioningError::Unauthorized(Some(body()))), DcProvError::Unauthorized(Some(b)) if b == body()));
    assert!(matches!(DcProvError::from(DRACOONProvisioningError::Unauthorized(None)), DcProvError::Unauthorized(None)));
    assert!(matches!(DcProvError::from(DRACOONProvisioningError::Forbidden(body())), DcProvError::Forbidden(_)));
    assert!(matches!(DcProvError::from(DRACOONProvisioningError::NotFound(body())), DcProvError::NotFound(_)));
    assert!(matches!(DcProvError::from(DRACOONProvisioningError::PaymentRequired(body())), DcProvError::PaymentRequired(_)));
    assert!(matches!(DcProvError::from(DRACOONProvisioningError::NotAcceptable(body())), DcProvError::NotAcceptable(_)));
    assert!(matches!(DcProvError::from(DRACOONProvisioningError::Conflict(body())), DcProvError::Conflict(_)));
    assert!(matches!(DcProvError::from(DRACOONProvisioningError::Undocumented(body())), DcProvError::Undocumented(_)));
    assert!(matches!(DcProvError::from(DRACOONProvisioningError::InvalidAccount), DcProvError::InvalidAccount));
    assert!(matches!(
        DcProvError::from(DRACOONProvisioningError::RequestFailed(RequestFailure::Decode)),
        DcProvError::TransportFailure(RequestFailure::Decode)
    ));
    assert!(matches!(
        DcProvError::from(DRACOONProvisioningError::InvalidUrl(url::ParseError::EmptyHost)),
        DcProvError::InvalidUrl(url::ParseError::EmptyHost)
    ));
}

#[test]
fn failures_have_names() {
    assert_eq!(DcProvError::InvalidAccount.description(), "Invalid account");
    assert_eq!(DcProvError::CredentialStorageFailed.description(), "Credential storage failed");
    assert_eq!(DcProvError::CredentialDeletionFailed.description(), "Credential deletion failed");
    assert_eq!(DcProvError::Unauthorized(None).description(), "Unauthorized");
    assert_eq!(DcProvError::Io.description(), "IO error");
    assert_eq!(DcProvError::Other.description(), "Other error");
    assert_eq!(DcProvError::TransportFailure(RequestFailure::Decode).description(), "Request failed");
}
