//! The authenticator: one password attempt per connection, and the
//! classification of what came of it as a credential failure or as any other
//! failure.
//!
//! The transport's errors are carried as text: an `ErrorReport` holds an
//! error's own message and the messages of its chain of causes.

use vstd::prelude::*;
use crate::channel::SHORT_LIMIT_SECS;
use crate::text::{chars_of, contains_chars, contains_text, lowercase_of, texts, to_lowercase};

verus! {

/// The password tried when none is remembered.
pub const DEFAULT_PASSWORD: &'static str = "12345";

/// The user every session authenticates as.
pub const USER: &'static str = "root";

/// How many causes of an error are inspected, outermost first.
pub const CAUSE_DEPTH: usize = 6;

/// The message that stands for a declined password.
pub const DECLINED_MESSAGE: &'static str = "Authentication failed: invalid credentials";

/// An error as text: its own message and those of its causes, outermost
/// first.
#[derive(Debug, Clone, PartialEq, Eq)]
pub struct ErrorReport {
    pub message: String,
    pub causes: Vec<String>,
}

/// Mathematical model of an `ErrorReport`.
pub ghost struct ErrorReportView {
    pub message: Seq<char>,
    pub causes: Seq<Seq<char>>,
}

impl View for ErrorReport {
    type V = ErrorReportView;

    open spec fn view(&self) -> ErrorReportView {
        ErrorReportView { message: self.message@, causes: texts(self.causes@) }
    }
}

impl ErrorReport {
    /// An error with the given message and no cause.
    pub fn plain(message: &str) -> (r: ErrorReport)
        ensures
            r@ == (ErrorReportView { message: message@, causes: Seq::empty() }),
    {
        let r = ErrorReport { message: String::from_str(message), causes: Vec::new() };
        proof {
            assert(texts(r.causes@) =~= Seq::<Seq<char>>::empty());
        }
        r
    }
}

/// Why no session was established.
#[derive(Debug, Clone, PartialEq, Eq)]
pub enum ConnectionError {
    /// The credential was not accepted.
    AuthFailure(ErrorReport),
    /// Anything else went wrong.
    Other(ErrorReport),
}

/// Mathematical model of a `ConnectionError`.
pub ghost enum ConnectionErrorView {
    AuthFailure(ErrorReportView),
    Other(ErrorReportView),
}

impl View for ConnectionError {
    type V = ConnectionErrorView;

    open spec fn view(&self) -> ConnectionErrorView {
        match self {
            ConnectionError::AuthFailure(e) => ConnectionErrorView::AuthFailure(e@),
            ConnectionError::Other(e) => ConnectionErrorView::Other(e@),
        }
    }
}

/// The user-visible text of a connection error.
pub open spec fn connection_error_text(e: ConnectionErrorView) -> Seq<char> {
    match e {
        ConnectionErrorView::AuthFailure(r) => "Authentication failed: "@ + r.message,
        ConnectionErrorView::Other(r) => r.message,
    }
}

impl ConnectionError {
    /// Renders the error as user-visible text.
    pub fn to_text(&self) -> (r: String)
        ensures
            r@ == connection_error_text(self@),
    {
        match self {
            ConnectionError::AuthFailure(e) => {
                let mut r = String::from_str("Authentication failed: ");
                r.append(e.message.as_str());
                r
            },
            ConnectionError::Other(e) => e.message.clone(),
        }
    }

    /// Whether the error is a credential failure.
    pub fn is_auth_failure(&self) -> (r: bool)
        ensures
            r == (self@ is AuthFailure),
    {
        match self {
            ConnectionError::AuthFailure(_) => true,
            ConnectionError::Other(_) => false,
        }
    }
}

/// A text in lower case holds one of the phrases that speak of
/// authentication.
pub open spec fn mentions_authentication(lowered: Seq<char>) -> bool {
    ||| contains_text(lowered, "authentication failed: invalid credentials"@)
    ||| contains_text(lowered, "authentication"@)
    ||| contains_text(lowered, "auth"@)
    ||| contains_text(lowered, "password"@)
    ||| contains_text(lowered, "login"@)
    ||| contains_text(lowered, "permission denied"@)
    ||| contains_text(lowered, "access denied"@)
    ||| contains_text(lowered, "authentication failed"@)
    ||| contains_text(lowered, "userauth"@)
    ||| contains_text(lowered, "no such user"@)
    ||| contains_text(lowered, "user unknown"@)
}

/// An error counts as a credential failure when its message, or the message
/// of one of its first `CAUSE_DEPTH` causes, speaks of authentication once
/// put in lower case.
pub open spec fn is_auth_failure(e: ErrorReportView) -> bool {
    ||| mentions_authentication(lowercase_of(e.message))
    ||| exists|k: int|
        0 <= k < e.causes.len() && k < CAUSE_DEPTH && mentions_authentication(
            lowercase_of(#[trigger] e.causes[k]),
        )
}

fn holds(text: &Vec<char>, phrase: &str) -> (r: bool)
    ensures
        r == contains_text(text@, phrase@),
{
    let pattern = chars_of(phrase);
    contains_chars(text, &pattern)
}

/// Whether `lowered`, a text already in lower case, holds one of the phrases
/// that speak of authentication.
pub fn names_authentication(lowered: &str) -> (r: bool)
    ensures
        r == mentions_authentication(lowered@),
{
    let text = chars_of(lowered);
    holds(&text, "authentication failed: invalid credentials") || holds(&text, "authentication")
        || holds(&text, "auth") || holds(&text, "password") || holds(&text, "login") || holds(
        &text,
        "permission denied",
    ) || holds(&text, "access denied") || holds(&text, "authentication failed") || holds(
        &text,
        "userauth",
    ) || holds(&text, "no such user") || holds(&text, "user unknown")
}

/// Whether `error` is a credential failure.
pub fn is_auth_error(error: &ErrorReport) -> (r: bool)
    ensures
        r == is_auth_failure(error@),
{
    let lowered = to_lowercase(error.message.as_str());
    if names_authentication(lowered.as_str()) {
        return true;
    }
    let mut k: usize = 0;
    while k < error.causes.len() && k < CAUSE_DEPTH
        invariant
            k <= error.causes.len(),
            k <= CAUSE_DEPTH,
            !mentions_authentication(lowercase_of(error@.message)),
            forall|j: int|
                0 <= j < k ==> !mentions_authentication(
                    lowercase_of(#[trigger] error@.causes[j]),
                ),
        decreases error.causes.len() - k,
    {
        let cause = to_lowercase(error.causes[k].as_str());
        proof {
            assert(error@.causes[k as int] == error.causes@[k as int]@);
        }
        if names_authentication(cause.as_str()) {
            return true;
        }
        k += 1;
    }
    false
}

/// What came of one connection attempt.
#[derive(Debug, Clone, PartialEq, Eq)]
pub enum ConnectOutcome {
    /// The session is established and authenticated.
    Authenticated,
    /// The remote end declined the password.
    Declined,
    /// Connecting or authenticating raised an error, a timeout included.
    Failed(ErrorReport),
}

/// Mathematical model of a `ConnectOutcome`.
pub ghost enum ConnectOutcomeView {
    Authenticated,
    Declined,
    Failed(ErrorReportView),
}

impl View for ConnectOutcome {
    type V = ConnectOutcomeView;

    open spec fn view(&self) -> ConnectOutcomeView {
        match self {
            ConnectOutcome::Authenticated => ConnectOutcomeView::Authenticated,
            ConnectOutcome::Declined => ConnectOutcomeView::Declined,
            ConnectOutcome::Failed(e) => ConnectOutcomeView::Failed(e@),
        }
    }
}

/// The error, if any, that an outcome stands for: a declined password is
/// reported under a fixed message, an error as it came.
pub open spec fn connect_error(outcome: ConnectOutcomeView) -> Option<ErrorReportView> {
    match outcome {
        ConnectOutcomeView::Authenticated => None,
        ConnectOutcomeView::Declined => Some(
            ErrorReportView { message: DECLINED_MESSAGE@, causes: Seq::empty() },
        ),
        ConnectOutcomeView::Failed(e) => Some(e),
    }
}

/// The classified result of an outcome.
pub open spec fn connect_verdict(outcome: ConnectOutcomeView) -> Option<ConnectionErrorView> {
    match connect_error(outcome) {
        None => None,
        Some(e) => if is_auth_failure(e) {
            Some(ConnectionErrorView::AuthFailure(e))
        } else {
            Some(ConnectionErrorView::Other(e))
        },
    }
}

/// Turns the outcome of a connection attempt into success or an error.
pub fn connect(outcome: ConnectOutcome) -> (r: Result<(), ErrorReport>)
    ensures
        match r {
            Ok(_) => connect_error(outcome@) is None,
            Err(e) => connect_error(outcome@) == Some(e@),
        },
{
    match outcome {
        ConnectOutcome::Authenticated => Ok(()),
        ConnectOutcome::Declined => Err(ErrorReport::plain(DECLINED_MESSAGE)),
        ConnectOutcome::Failed(e) => Err(e),
    }
}

/// Sorts an error into credential failures and all others.
pub fn classify(error: ErrorReport) -> (r: ConnectionError)
    ensures
        r@ == (if is_auth_failure(error@) {
            ConnectionErrorView::AuthFailure(error@)
        } else {
            ConnectionErrorView::Other(error@)
        }),
{
    if is_auth_error(&error) {
        ConnectionError::AuthFailure(error)
    } else {
        ConnectionError::Other(error)
    }
}

/// Turns the outcome of a connection attempt into success or a classified
/// error.
pub fn try_connect(outcome: ConnectOutcome) -> (r: Result<(), ConnectionError>)
    ensures
        match r {
            Ok(_) => connect_verdict(outcome@) is None,
            Err(e) => connect_verdict(outcome@) == Some(e@),
        },
{
    match connect(outcome) {
        Ok(_) => Ok(()),
        Err(e) => Err(classify(e)),
    }
}

/// One connection attempt: whom to authenticate as, with what, and within
/// how many seconds the connection must stand.
#[derive(Debug, Clone, PartialEq, Eq)]
pub struct ConnectAttempt {
    pub user: String,
    pub password: String,
    pub limit_secs: u64,
}

/// The password to try: the remembered one, else the factory default.
pub open spec fn chosen_password(remembered: Option<Seq<char>>) -> Seq<char> {
    match remembered {
        Some(p) => p,
        None => DEFAULT_PASSWORD@,
    }
}

/// The view of an optional text.
pub open spec fn text_of(t: Option<&str>) -> Option<Seq<char>> {
    match t {
        Some(s) => Some(s@),
        None => None,
    }
}

/// Plans the single connection attempt of one operation: with the
/// remembered password if there is one, else with the factory default.
pub fn smart_connect(custom_password: Option<&str>) -> (r: ConnectAttempt)
    ensures
        r.user@ == USER@,
        r.password@ == chosen_password(text_of(custom_password)),
        r.limit_secs == SHORT_LIMIT_SECS,
{
    let password = match custom_password {
        Some(p) => String::from_str(p),
        None => String::from_str(DEFAULT_PASSWORD),
    };
    ConnectAttempt { user: String::from_str(USER), password, limit_secs: SHORT_LIMIT_SECS }
}

/// A text names a credential failure outright: in lower case it speaks of a
/// denied permission, a failed authentication or an unknown user.
pub open spec fn names_credential_failure(t: Seq<char>) -> bool {
    ||| contains_text(lowercase_of(t), "permission denied"@)
    ||| contains_text(lowercase_of(t), "authentication failed"@)
    ||| contains_text(lowercase_of(t), "no such user"@)
}

/// An error whose message names a credential failure outright is a credential
/// failure, and so is one with such a cause among its first `CAUSE_DEPTH`,
/// whatever else the error says.
pub proof fn law_named_failures_are_auth_failures(e: ErrorReportView, k: int)
    ensures
        names_credential_failure(e.message) ==> is_auth_failure(e),
        0 <= k < e.causes.len() && k < CAUSE_DEPTH && names_credential_failure(e.causes[k])
            ==> is_auth_failure(e),
{
}

} // verus!
