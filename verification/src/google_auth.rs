//! The authorisation bootstrap: which step comes next, and which failure each
//! step's failure amounts to.
//!
//! The steps themselves (reading the client secret, the consent flow in the
//! browser, the token request) are the caller's: it performs the action that
//! `AuthFlow::action` names, and reports with `AuthFlow::advance` whether it
//! succeeded.

use crate::error::AuthOperation;
use crate::error::ErrorView;
use crate::error::GsheetError;
use vstd::prelude::*;

verus! {

/// The file, in the working directory, in which obtained tokens are kept.
pub const TOKEN_CACHE_FILE: &'static str = "token_cache.json";

/// Read access to the files of the Drive.
pub const SCOPE_DRIVE_READONLY: &'static str = "https://www.googleapis.com/auth/drive.readonly";

/// Read access to the Meet recordings of the Drive.
pub const SCOPE_DRIVE_MEET_READONLY: &'static str =
    "https://www.googleapis.com/auth/drive.meet.readonly";

/// Read access to spreadsheets.
pub const SCOPE_SPREADSHEETS_READONLY: &'static str =
    "https://www.googleapis.com/auth/spreadsheets.readonly";

/// The scopes asked for, the same at every bootstrap, so that a cached token
/// granted for them is found again. All are read-only.
pub open spec fn scope_set() -> Seq<Seq<char>> {
    seq![SCOPE_DRIVE_READONLY@, SCOPE_DRIVE_MEET_READONLY@, SCOPE_SPREADSHEETS_READONLY@]
}

/// The scopes to ask a token for.
pub fn scopes() -> (list: Vec<String>)
    ensures
        list.deep_view() == scope_set(),
{
    let mut list: Vec<String> = Vec::new();
    list.push(String::from_str(SCOPE_DRIVE_READONLY));
    list.push(String::from_str(SCOPE_DRIVE_MEET_READONLY));
    list.push(String::from_str(SCOPE_SPREADSHEETS_READONLY));
    list
}

/// How the consent flow hands the authorisation code back.
#[derive(Debug, Clone, Copy, PartialEq, Eq, Structural)]
pub enum ReturnMethod {
    /// Through a redirect to a listener on this machine.
    HttpRedirect,
    /// By the user, who copies the code from the browser.
    Interactive,
}

/// How far the bootstrap has come.
#[derive(Debug, Clone, Copy, PartialEq, Eq, Structural)]
pub enum AuthStage {
    /// The client secret is to be read.
    AwaitSecret,
    /// The consent flow is to be set up.
    AwaitFlow,
    /// A token for the scopes is to be obtained.
    AwaitToken,
    /// The session is authorised.
    Ready,
    /// The client secret could not be read.
    Unreadable,
    /// The consent flow could not be set up.
    FlowFailed,
    /// No token for the scopes was obtained.
    TokenRefused,
}

/// A bootstrap under way.
#[derive(Debug, Clone, PartialEq, Eq)]
pub struct AuthFlow {
    pub secret_path: String,
    pub stage: AuthStage,
}

/// The mathematical value of an `AuthFlow`.
pub struct AuthFlowView {
    pub secret_path: Seq<char>,
    pub stage: AuthStage,
}

impl View for AuthFlow {
    type V = AuthFlowView;

    open spec fn view(&self) -> AuthFlowView {
        AuthFlowView { secret_path: self.secret_path@, stage: self.stage }
    }
}

/// What the caller is to do next.
#[derive(Debug, Clone, PartialEq, Eq)]
pub enum AuthAction {
    /// Read the client secret from the file at `path`.
    ReadSecret { path: String },
    /// Set up the consent flow, with tokens kept in the file `token_cache`.
    BuildFlow { token_cache: String, method: ReturnMethod },
    /// Obtain a token for `scopes`, from the cache or by asking the user.
    RequestToken { scopes: Vec<String> },
    /// Nothing more: the session is authorised.
    Finish,
    /// Nothing more: the bootstrap failed.
    Fail(GsheetError),
}

/// The mathematical value of an `AuthAction`.
pub enum AuthActionView {
    ReadSecret { path: Seq<char> },
    BuildFlow { token_cache: Seq<char>, method: ReturnMethod },
    RequestToken { scopes: Seq<Seq<char>> },
    Finish,
    Fail(ErrorView),
}

impl View for AuthAction {
    type V = AuthActionView;

    open spec fn view(&self) -> AuthActionView {
        match *self {
            AuthAction::ReadSecret { path } => AuthActionView::ReadSecret { path: path@ },
            AuthAction::BuildFlow { token_cache, method } => AuthActionView::BuildFlow {
                token_cache: token_cache@,
                method,
            },
            AuthAction::RequestToken { scopes } => AuthActionView::RequestToken {
                scopes: scopes.deep_view(),
            },
            AuthAction::Finish => AuthActionView::Finish,
            AuthAction::Fail(error) => AuthActionView::Fail(error@),
        }
    }
}

impl AuthFlowView {
    /// The bootstrap from the client secret at `secret_path`, before any step.
    pub open spec fn start(secret_path: Seq<char>) -> AuthFlowView {
        AuthFlowView { secret_path, stage: AuthStage::AwaitSecret }
    }

    /// The action that the stage calls for.
    pub open spec fn action(self) -> AuthActionView {
        match self.stage {
            AuthStage::AwaitSecret => AuthActionView::ReadSecret { path: self.secret_path },
            AuthStage::AwaitFlow => AuthActionView::BuildFlow {
                token_cache: TOKEN_CACHE_FILE@,
                method: ReturnMethod::HttpRedirect,
            },
            AuthStage::AwaitToken => AuthActionView::RequestToken { scopes: scope_set() },
            AuthStage::Ready => AuthActionView::Finish,
            AuthStage::Unreadable => AuthActionView::Fail(
                ErrorView::CredentialUnreadable { path: self.secret_path },
            ),
            AuthStage::FlowFailed => AuthActionView::Fail(
                ErrorView::AuthorizationDenied { operation: AuthOperation::BuildFlow },
            ),
            AuthStage::TokenRefused => AuthActionView::Fail(
                ErrorView::AuthorizationDenied { operation: AuthOperation::RequestToken },
            ),
        }
    }

    /// The bootstrap after the action of its stage succeeded or failed. A
    /// success leads to the next step. A failure ends the bootstrap, and the
    /// stage keeps which step it was; so does the last success. From there
    /// nothing changes any more.
    pub open spec fn advance(self, succeeded: bool) -> AuthFlowView {
        let stage = match self.stage {
            AuthStage::AwaitSecret => if succeeded {
                AuthStage::AwaitFlow
            } else {
                AuthStage::Unreadable
            },
            AuthStage::AwaitFlow => if succeeded {
                AuthStage::AwaitToken
            } else {
                AuthStage::FlowFailed
            },
            AuthStage::AwaitToken => if succeeded {
                AuthStage::Ready
            } else {
                AuthStage::TokenRefused
            },
            AuthStage::Ready => AuthStage::Ready,
            AuthStage::Unreadable => AuthStage::Unreadable,
            AuthStage::FlowFailed => AuthStage::FlowFailed,
            AuthStage::TokenRefused => AuthStage::TokenRefused,
        };
        AuthFlowView { secret_path: self.secret_path, stage }
    }

    /// Whether the bootstrap has ended, well or badly.
    pub open spec fn is_over(self) -> bool {
        self.stage is Ready || self.stage is Unreadable || self.stage is FlowFailed
            || self.stage is TokenRefused
    }
}

impl AuthFlow {
    /// Begins a bootstrap from the client secret at `secret_path`.
    pub fn new(secret_path: &str) -> (flow: AuthFlow)
        ensures
            flow@ == AuthFlowView::start(secret_path@),
    {
        AuthFlow { secret_path: String::from_str(secret_path), stage: AuthStage::AwaitSecret }
    }

    /// The action to perform now.
    pub fn action(&self) -> (action: AuthAction)
        ensures
            action@ == self@.action(),
    {
        match self.stage {
            AuthStage::AwaitSecret => AuthAction::ReadSecret { path: self.secret_path.clone() },
            AuthStage::AwaitFlow => AuthAction::BuildFlow {
                token_cache: String::from_str(TOKEN_CACHE_FILE),
                method: ReturnMethod::HttpRedirect,
            },
            AuthStage::AwaitToken => AuthAction::RequestToken { scopes: scopes() },
            AuthStage::Ready => AuthAction::Finish,
            AuthStage::Unreadable => AuthAction::Fail(
                GsheetError::CredentialUnreadable { path: self.secret_path.clone() },
            ),
            AuthStage::FlowFailed => AuthAction::Fail(
                GsheetError::AuthorizationDenied { operation: AuthOperation::BuildFlow },
            ),
            AuthStage::TokenRefused => AuthAction::Fail(
                GsheetError::AuthorizationDenied { operation: AuthOperation::RequestToken },
            ),
        }
    }

    /// Takes note of how the action went.
    pub fn advance(self, succeeded: bool) -> (next: AuthFlow)
        ensures
            next@ == self@.advance(succeeded),
    {
        let stage = match self.stage {
            AuthStage::AwaitSecret => if succeeded {
                AuthStage::AwaitFlow
            } else {
                AuthStage::Unreadable
            },
            AuthStage::AwaitFlow => if succeeded {
                AuthStage::AwaitToken
            } else {
                AuthStage::FlowFailed
            },
            AuthStage::AwaitToken => if succeeded {
                AuthStage::Ready
            } else {
                AuthStage::TokenRefused
            },
            AuthStage::Ready => AuthStage::Ready,
            AuthStage::Unreadable => AuthStage::Unreadable,
            AuthStage::FlowFailed => AuthStage::FlowFailed,
            AuthStage::TokenRefused => AuthStage::TokenRefused,
        };
        AuthFlow { secret_path: self.secret_path, stage }
    }

    /// Whether the bootstrap has ended.
    pub fn is_over(&self) -> (over: bool)
        ensures
            over == self@.is_over(),
    {
        match self.stage {
            AuthStage::Ready | AuthStage::Unreadable | AuthStage::FlowFailed
            | AuthStage::TokenRefused => true,
            _ => false,
        }
    }
}

/// Every bootstrap whose steps succeed asks for the same scopes: after the
/// secret was read and the flow set up, the token is requested for the fixed
/// set, whatever the path of the secret, and a success there ends the
/// bootstrap with an authorised session.
pub proof fn lemma_bootstrap_requests_fixed_scopes(secret_path: Seq<char>)
    ensures
        ({
            let read = AuthFlowView::start(secret_path);
            let built = read.advance(true).advance(true);
            &&& read.action() == AuthActionView::ReadSecret { path: secret_path }
            &&& built.action() == AuthActionView::RequestToken { scopes: scope_set() }
            &&& built.advance(true).action() == AuthActionView::Finish
        }),
{
}

/// A bootstrap ends in a failure exactly when one of its steps failed, and
/// the failure names the first step that did: an unreadable secret where the
/// secret could not be read, a denial at the set-up of the flow or at the
/// token request where that step failed.
pub proof fn lemma_bootstrap_failures(secret_path: Seq<char>, first: bool, second: bool, third: bool)
    ensures
        ({
            let end = AuthFlowView::start(secret_path).advance(first).advance(second).advance(
                third,
            );
            &&& end.is_over()
            &&& end.action() == if !first {
                AuthActionView::Fail(ErrorView::CredentialUnreadable { path: secret_path })
            } else if !second {
                AuthActionView::Fail(
                    ErrorView::AuthorizationDenied { operation: AuthOperation::BuildFlow },
                )
            } else if !third {
                AuthActionView::Fail(
                    ErrorView::AuthorizationDenied { operation: AuthOperation::RequestToken },
                )
            } else {
                AuthActionView::Finish
            }
        }),
{
}

} // verus!
