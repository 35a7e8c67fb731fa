//! How a run of the client comes by its provisioning client: the address
//! is brought into form, the token is taken from the command line, from
//! the store or from the terminal, a token from the terminal is stored,
//! and the token is tried out.
//!
//! Asking at the terminal and trying the token out are left to the
//! caller; what is decided before, between and after stands here.

use crate::cmd::models::DcProvError;
use crate::credentials::{credential_entry, get_dracoon_env, set_dracoon_env};
use crate::provisioning::client::{parsed_url, DRACOONProvisioning};
use crate::provisioning::error::RequestFailure;
use crate::text::{replace_all, replaced, starts_with};
use vstd::prelude::*;
use vstd::string::*;

verus! {

/// The address of an endpoint as the client uses it: always with the
/// scheme `https`, which replaces `http` and is put before an address
/// without a scheme.
pub open spec fn normalized_url(url: Seq<char>) -> Seq<char> {
    if "https://"@.is_prefix_of(url) {
        url
    } else if "http://"@.is_prefix_of(url) {
        replaced(url, "http://"@, "https://"@)
    } else {
        "https://"@ + url
    }
}

/// Brings the address of an endpoint into the form that the client uses.
pub fn normalize_url(url: &str) -> (r: String)
    ensures
        r@ == normalized_url(url@),
{
    if starts_with(url, "https://") {
        String::from_str(url)
    } else if starts_with(url, "http://") {
        replace_all(url, "http://", "https://")
    } else {
        let mut r = String::from_str("https://");
        r.append(url);
        r
    }
}

/// Where the token of a run comes from.
#[derive(Debug, Clone, PartialEq, Eq)]
pub enum TokenResolution {
    /// From the command line. It is used for this run and not stored.
    Explicit(String),
    /// From the store, where it stays as it is.
    Stored(String),
    /// From the terminal: it has to be asked for, and is stored then.
    Prompt,
}

/// The content of a [`TokenResolution`].
pub enum TokenPlan {
    Explicit(Seq<char>),
    Stored(Seq<char>),
    Prompt,
}

impl View for TokenResolution {
    type V = TokenPlan;

    open spec fn view(&self) -> TokenPlan {
        match self {
            TokenResolution::Explicit(t) => TokenPlan::Explicit(t@),
            TokenResolution::Stored(t) => TokenPlan::Stored(t@),
            TokenResolution::Prompt => TokenPlan::Prompt,
        }
    }
}

/// Where the token comes from, given the token on the command line and
/// the token in the store, each if there is one: the command line comes
/// first, the store second, the terminal last.
pub open spec fn token_plan(explicit: Option<Seq<char>>, stored: Option<Seq<char>>) -> TokenPlan {
    match explicit {
        Some(t) => TokenPlan::Explicit(t),
        None => match stored {
            Some(t) => TokenPlan::Stored(t),
            None => TokenPlan::Prompt,
        },
    }
}

/// Whether the token that a plan leads to is written to the store: only
/// one from the terminal is.
pub open spec fn persists(plan: TokenPlan) -> bool {
    plan is Prompt
}

/// What a lookup in the store found, by its content.
pub open spec fn found_token(stored: Result<String, DcProvError>) -> Option<Seq<char>> {
    match stored {
        Ok(t) => Some(t@),
        Err(_) => None,
    }
}

/// Decides where the token comes from.
pub fn resolve_token(explicit: Option<String>, stored: Result<String, DcProvError>) -> (r:
    TokenResolution)
    ensures
        r@ == token_plan(explicit.deep_view(), found_token(stored)),
{
    match explicit {
        Some(t) => TokenResolution::Explicit(t),
        None => match stored {
            Ok(t) => TokenResolution::Stored(t),
            Err(_) => TokenResolution::Prompt,
        },
    }
}

impl TokenResolution {
    /// Whether the token is written to the store once it is known.
    pub fn persist(&self) -> (r: bool)
        ensures
            r == persists(self@),
    {
        match self {
            TokenResolution::Prompt => true,
            _ => false,
        }
    }
}

/// A store of tokens as the resolution sees it: at most one token for an
/// address.
pub type TokenStore = Map<Seq<char>, Seq<char>>;

/// What a lookup finds in a store.
pub open spec fn stored_token(store: TokenStore, url: Seq<char>) -> Option<Seq<char>> {
    if store.contains_key(url) {
        Some(store[url])
    } else {
        None
    }
}

/// The store after a run without a token on the command line, in which
/// `answer` is given where the terminal is asked.
pub open spec fn store_after_run(
    store: TokenStore,
    url: Seq<char>,
    answer: Seq<char>,
) -> TokenStore {
    if persists(token_plan(None, stored_token(store, url))) {
        store.insert(url, answer)
    } else {
        store
    }
}

/// With no token on the command line and none in the store, the terminal
/// is asked and the answer is stored; the next run for the same address
/// finds it there and uses it without asking.
pub proof fn lemma_prompted_token_is_reused(store: TokenStore, url: Seq<char>, answer: Seq<char>)
    requires
        !store.contains_key(url),
    ensures
        token_plan(None, stored_token(store, url)) == TokenPlan::Prompt,
        stored_token(store_after_run(store, url, answer), url) == Some(answer),
        token_plan(None, stored_token(store_after_run(store, url, answer), url))
            == TokenPlan::Stored(answer),
        store_after_run(store_after_run(store, url, answer), url, answer) == store_after_run(
            store,
            url,
            answer,
        ),
{
}

/// A token on the command line is used whatever the store holds, and
/// leaves the store as it is.
pub proof fn lemma_explicit_token_wins(
    explicit: Seq<char>,
    stored: Option<Seq<char>>,
)
    ensures
        token_plan(Some(explicit), stored) == TokenPlan::Explicit(explicit),
        !persists(token_plan(Some(explicit), stored)),
{
}

/// An endpoint and the token to try on it.
#[derive(Debug, Clone, PartialEq, Eq)]
pub struct Connection {
    pub url: String,
    pub token: String,
}

/// How far a run got towards its provisioning client without the
/// terminal.
#[derive(Debug, Clone, PartialEq, Eq)]
pub enum Bootstrap {
    /// The token is known.
    Ready(Connection),
    /// The token has to be asked for at the terminal.
    Prompt { url: String },
}

impl Bootstrap {
    /// The address of the endpoint.
    pub open spec fn url_text(self) -> Seq<char> {
        match self {
            Bootstrap::Ready(connection) => connection.url@,
            Bootstrap::Prompt { url } => url@,
        }
    }
}

/// Starts a run: brings the address into form and finds the token, on the
/// command line or else in the store. The store is not looked at where
/// the command line has a token, and an address that the store cannot
/// hold a token for counts as one without a token.
pub fn init_provisioning(url: &str, token: Option<String>) -> (r: Bootstrap)
    ensures
        r.url_text() == normalized_url(url@),
        token matches Some(t) ==> r matches Bootstrap::Ready(connection) && connection.token@
            == t@,
{
    let url = normalize_url(url);
    let stored = match &token {
        Some(_) => Err(DcProvError::InvalidAccount),
        None => match credential_entry(url.as_str()) {
            Ok(entry) => get_dracoon_env(&entry),
            Err(e) => Err(e),
        },
    };
    match resolve_token(token, stored) {
        TokenResolution::Explicit(token) => Bootstrap::Ready(Connection { url, token }),
        TokenResolution::Stored(token) => Bootstrap::Ready(Connection { url, token }),
        TokenResolution::Prompt => Bootstrap::Prompt { url },
    }
}

/// What became of a question at the terminal: the answer, or the failure
/// to read one, which fails the run as input that cannot be read.
pub fn terminal_answer<T>(answer: Option<T>) -> (r: Result<T, DcProvError>)
    ensures
        match answer {
            Some(t) => r == Ok::<T, DcProvError>(t),
            None => r matches Err(DcProvError::Io),
        },
{
    match answer {
        Some(t) => Ok(t),
        None => Err(DcProvError::Io),
    }
}

/// What the answer to the question for the token amounts to: the token,
/// or the failure to read one.
pub fn prompted_token(answer: Option<String>) -> (r: Result<String, DcProvError>)
    ensures
        match answer {
            Some(t) => r == Ok::<String, DcProvError>(t),
            None => r matches Err(DcProvError::Io),
        },
{
    terminal_answer(answer)
}

/// Takes the answer from the terminal and stores it for the address. An
/// answer that could not be read fails the run as input, and only that
/// does. A token that cannot be stored fails the run, though the token is
/// there: else the next run would ask again without a word. Where the
/// store takes the token, the run goes on with it and with the address as
/// it was given.
pub fn accept_prompted_token(url: String, answer: Option<String>) -> (r: Result<
    Connection,
    DcProvError,
>)
    ensures
        match answer {
            None => r matches Err(DcProvError::Io),
            Some(t) => match r {
                Ok(connection) => connection.token == t && connection.url == url,
                Err(e) => e is CredentialStorageFailed,
            },
        },
{
    let token = match prompted_token(answer) {
        Ok(t) => t,
        Err(e) => {
            return Err(e);
        },
    };
    let entry = match credential_entry(url.as_str()) {
        Ok(entry) => entry,
        Err(e) => {
            return Err(e);
        },
    };
    match set_dracoon_env(&entry, token.as_str()) {
        Ok(_) => Ok(Connection { url, token }),
        Err(e) => Err(e),
    }
}

/// Whether `r` is what becomes of a connection once its token was tried
/// out: what the making of the provisioning client comes to, a failure of
/// the client being the failure of the run of the same kind.
pub open spec fn established(
    r: Result<DRACOONProvisioning, DcProvError>,
    url: Seq<char>,
    token: Seq<char>,
    check: Result<u16, reqwest::Error>,
) -> bool {
    match parsed_url(url) {
        None => r matches Err(DcProvError::InvalidUrl(_)),
        Some(address) => match check {
            Ok(status) => if status == 200 {
                r matches Ok(client) && client.base_url_text() == address && client.token_text()
                    == token
            } else {
                r matches Err(DcProvError::Unauthorized(None))
            },
            Err(e) => r matches Err(DcProvError::TransportFailure(RequestFailure::Transport(x)))
                && x == e,
        },
    }
}

/// Ends the bootstrap: makes the provisioning client, given how the trial
/// of the token went.
pub fn establish(connection: Connection, check: Result<u16, reqwest::Error>) -> (r: Result<
    DRACOONProvisioning,
    DcProvError,
>)
    ensures
        established(r, connection.url@, connection.token@, check),
{
    match DRACOONProvisioning::new(connection.url, connection.token, check) {
        Ok(client) => Ok(client),
        Err(e) => Err(DcProvError::from(e)),
    }
}

} // verus!
