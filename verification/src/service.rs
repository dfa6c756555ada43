//! The authentication service: its state, its transitions, and the methods that carry
//! them out.

use crate::callback::parse_callback;
use crate::callback::parse_callback_spec;
use crate::config::Auth0Config;
use crate::config::Auth0ConfigView;
use crate::error::outcome_view;
use crate::error::AuthError;
use crate::error::AuthErrorView;
use crate::pkce::code_challenge;
use crate::pkce::PkceSession;
use crate::pkce::PkceSessionView;
use crate::request::authorize_url;
use crate::request::build_authorize_url;
use crate::request::build_logout_url;
use crate::request::build_token_request;
use crate::request::logout_url;
use crate::request::token_request;
use crate::request::TokenRequest;
use crate::request::TokenRequestView;
use crate::request::REDIRECT_URI;
use crate::session::AuthState;
use crate::session::AuthStateView;
use crate::text::str_eq;
use crate::token::exchange_outcome;
use crate::token::exchange_outcome_spec;
use crate::token::ExchangeReply;
use crate::token::ExchangeReplyView;
use vstd::prelude::*;

verus! {

/// The provider configuration and the session, held together.
#[derive(Debug, PartialEq, Eq)]
pub struct AuthStateStore {
    pub config: Auth0Config,
    pub state: AuthState,
}

impl Default for AuthStateStore {
    fn default() -> (store: Self)
        ensures
            store.config@ == Auth0ConfigView::initial(),
            store.state@ == AuthStateView::unauthenticated(),
    {
        AuthStateStore { config: Auth0Config::default(), state: AuthState::default() }
    }
}

/// Where a login stands.
pub ghost enum Phase {
    /// Nobody is signed in and no login is under way.
    Unauthenticated,
    /// A login was started and its redirect has not been accepted yet.
    LoginPending,
    /// A user is signed in.
    Authenticated,
}

/// The mathematical value of an [`AuthService`]: the configuration, the session, and the
/// secrets of the one login that may be awaiting its redirect.
pub ghost struct AuthServiceView {
    pub config: Auth0ConfigView,
    pub state: AuthStateView,
    pub pending: Option<PkceSessionView>,
}

impl AuthServiceView {
    /// The service before anything happened.
    pub open spec fn initial() -> AuthServiceView {
        AuthServiceView {
            config: Auth0ConfigView::initial(),
            state: AuthStateView::unauthenticated(),
            pending: None,
        }
    }

    /// The service's invariant: its session is consistent.
    pub open spec fn wf(self) -> bool {
        self.state.wf()
    }

    /// Where the login stands: signed in; else awaiting a redirect; else neither.
    pub open spec fn phase(self) -> Phase {
        if self.state.authenticated {
            Phase::Authenticated
        } else if self.pending is Some {
            Phase::LoginPending
        } else {
            Phase::Unauthenticated
        }
    }

    /// The service with another configuration.
    pub open spec fn configured(self, config: Auth0ConfigView) -> AuthServiceView {
        AuthServiceView { config, ..self }
    }

    /// What starting a login with the given secrets returns: the authorize URL to open,
    /// or `ConfigMissing` where the domain or the client id is empty.
    pub open spec fn login_outcome(self, session: PkceSessionView) -> Result<
        Seq<char>,
        AuthErrorView,
    > {
        if self.config.is_complete() {
            Ok(authorize_url(self.config, session.state, code_challenge(session.code_verifier)))
        } else {
            Err(AuthErrorView::ConfigMissing)
        }
    }

    /// The service after starting a login with the given secrets: they take the place of
    /// those of any earlier login. Without a complete configuration nothing changes.
    pub open spec fn after_login(self, session: PkceSessionView) -> AuthServiceView {
        if self.config.is_complete() {
            AuthServiceView { pending: Some(session), ..self }
        } else {
            self
        }
    }

    /// The service after a login attempt failed: nobody is signed in, nothing is pending.
    pub open spec fn failed(self) -> AuthServiceView {
        AuthServiceView { state: AuthStateView::unauthenticated(), pending: None, ..self }
    }

    /// What a redirect returns: the error of reading it; `CsrfMismatch` where no login is
    /// pending or the redirect's state is not the pending one; otherwise the token
    /// request that exchanges the redirect's code.
    pub open spec fn callback_outcome(self, raw_url: Seq<char>) -> Result<
        TokenRequestView,
        AuthErrorView,
    > {
        match parse_callback_spec(raw_url) {
            Err(e) => Err(e),
            Ok(params) => match self.pending {
                Some(session) => if session.state == params.state {
                    Ok(token_request(self.config, params.code, session.code_verifier))
                } else {
                    Err(AuthErrorView::CsrfMismatch)
                },
                None => Err(AuthErrorView::CsrfMismatch),
            },
        }
    }

    /// The service after a redirect: an accepted redirect uses up the pending login, a
    /// rejected one ends the attempt.
    pub open spec fn after_callback(self, raw_url: Seq<char>) -> AuthServiceView {
        if self.callback_outcome(raw_url) is Ok {
            AuthServiceView { pending: None, ..self }
        } else {
            self.failed()
        }
    }

    /// What the token endpoint's reply returns.
    pub open spec fn reply_outcome(self, reply: ExchangeReplyView, now: u64) -> Result<
        (),
        AuthErrorView,
    > {
        match exchange_outcome_spec(reply, now) {
            Ok(_) => Ok(()),
            Err(e) => Err(e),
        }
    }

    /// The service after the token endpoint's reply: signed in with the session that the
    /// reply gives, or failed.
    pub open spec fn after_reply(self, reply: ExchangeReplyView, now: u64) -> AuthServiceView {
        match exchange_outcome_spec(reply, now) {
            Ok(state) => AuthServiceView { state, ..self },
            Err(_) => self.failed(),
        }
    }

    /// The service after a logout: nobody is signed in.
    pub open spec fn after_logout(self) -> AuthServiceView {
        AuthServiceView { state: AuthStateView::unauthenticated(), ..self }
    }

    /// The service with the given pending login.
    pub open spec fn with_pending(self, session: PkceSessionView) -> AuthServiceView {
        AuthServiceView { pending: Some(session), ..self }
    }
}

/// The redirect URL that stands for a code and a state entered by hand.
pub open spec fn manual_callback_url(code: Seq<char>, state: Seq<char>) -> Seq<char> {
    REDIRECT_URI@ + "?code="@ + code + "&state="@ + state
}

/// The authentication core: it owns the configuration, the session and the pending
/// login, and decides each step of the flow. It performs no I/O: where a step calls for
/// the browser or the network, the method returns what is to be opened or sent.
pub struct AuthService {
    store: AuthStateStore,
    pending: Option<PkceSession>,
}

impl View for AuthService {
    type V = AuthServiceView;

    closed spec fn view(&self) -> AuthServiceView {
        AuthServiceView {
            config: self.store.config@,
            state: self.store.state@,
            pending: match self.pending {
                Some(session) => Some(session@),
                None => None,
            },
        }
    }
}

/// Calls `SystemTime::now` and counts the seconds since the Unix epoch; zero where the
/// clock stands before it. Nothing is promised of the result.
#[verifier::external_body]
fn current_time() -> u64 {
    std::time::SystemTime::now().duration_since(
        std::time::UNIX_EPOCH,
    ).unwrap_or_default().as_secs()
}

impl AuthService {
    #[verifier::type_invariant]
    spec fn consistent(self) -> bool {
        self.store.state@.wf()
    }

    /// A service with the default configuration, nobody signed in and no login pending.
    pub fn new() -> (service: Self)
        ensures
            service@ == AuthServiceView::initial(),
            service@.wf(),
    {
        AuthService { store: AuthStateStore::default(), pending: None }
    }

    /// Replaces the provider configuration. Allowed at any time.
    pub fn initialize_config(&mut self, config: Auth0Config)
        ensures
            final(self)@ == old(self)@.configured(config@),
            final(self)@.wf(),
    {
        proof {
            use_type_invariant(&*self);
        }
        self.store.config = config;
    }

    /// A copy of the provider configuration.
    pub fn config(&self) -> (config: Auth0Config)
        ensures
            config@ == self@.config,
    {
        self.store.config.clone()
    }

    /// Starts a login with the given secrets and returns the authorize URL that the
    /// browser is to open.
    pub fn begin_login(&mut self, session: PkceSession) -> (r: Result<String, AuthError>)
        ensures
            outcome_view(r) == old(self)@.login_outcome(session@),
            final(self)@ == old(self)@.after_login(session@),
            final(self)@.wf(),
    {
        proof {
            use_type_invariant(&*self);
        }
        if !self.store.config.is_complete() {
            return Err(AuthError::ConfigMissing);
        }
        let challenge = session.challenge();
        let url = build_authorize_url(
            &self.store.config,
            session.state.as_str(),
            challenge.as_str(),
        );
        self.pending = Some(session);
        Ok(url)
    }

    /// Starts a login with fresh random secrets and returns the authorize URL that the
    /// browser is to open. Fails with `ConfigMissing`, and changes nothing, where the
    /// domain or the client id is empty.
    pub fn login(&mut self) -> (r: Result<String, AuthError>)
        ensures
            exists|session: PkceSessionView|
                {
                    &&& session.is_fresh()
                    &&& outcome_view(r) == old(self)@.login_outcome(session)
                    &&& final(self)@ == old(self)@.after_login(session)
                },
            r is Ok <==> old(self)@.config.is_complete(),
            final(self)@.wf(),
    {
        let session = PkceSession::generate();
        let ghost drawn = session@;
        let r = self.begin_login(session);
        assert(drawn.is_fresh() && outcome_view(r) == old(self)@.login_outcome(drawn));
        r
    }

    fn fail(&mut self)
        ensures
            final(self)@ == old(self)@.failed(),
            final(self)@.wf(),
    {
        self.store.state = AuthState::default();
        self.pending = None;
    }

    /// Handles the redirect from the provider. An accepted redirect uses up the pending
    /// login and returns the token request to send; its reply goes to
    /// [`AuthService::complete_exchange`]. A rejected one ends the login attempt.
    pub fn handle_callback(&mut self, callback_url: &str) -> (r: Result<TokenRequest, AuthError>)
        ensures
            outcome_view(r) == old(self)@.callback_outcome(callback_url@),
            final(self)@ == old(self)@.after_callback(callback_url@),
            final(self)@.wf(),
    {
        proof {
            use_type_invariant(&*self);
        }
        let params = match parse_callback(callback_url) {
            Ok(params) => params,
            Err(e) => {
                self.fail();
                return Err(e);
            },
        };
        let request = match &self.pending {
            Some(session) => {
                if str_eq(session.state.as_str(), params.state.as_str()) {
                    Some(
                        build_token_request(
                            &self.store.config,
                            params.code.as_str(),
                            session.code_verifier.as_str(),
                        ),
                    )
                } else {
                    None
                }
            },
            None => None,
        };
        match request {
            Some(request) => {
                self.pending = None;
                Ok(request)
            },
            None => {
                self.fail();
                Err(AuthError::CsrfMismatch)
            },
        }
    }

    /// Takes the token endpoint's reply, received at Unix time `now`: on success the
    /// session is replaced by the one that the reply gives; any failure ends the login
    /// attempt and leaves nobody signed in.
    pub fn complete_exchange(&mut self, reply: ExchangeReply, now: u64) -> (r: Result<
        (),
        AuthError,
    >)
        ensures
            outcome_view(r) == old(self)@.reply_outcome(reply@, now),
            final(self)@ == old(self)@.after_reply(reply@, now),
            final(self)@.wf(),
    {
        match exchange_outcome(reply, now) {
            Ok(state) => {
                self.store.state = state;
                Ok(())
            },
            Err(e) => {
                self.fail();
                Err(e)
            },
        }
    }

    /// Takes the token endpoint's reply at the present time.
    pub fn complete_exchange_now(&mut self, reply: ExchangeReply) -> (r: Result<(), AuthError>)
        ensures
            exists|now: u64|
                {
                    &&& outcome_view(r) == old(self)@.reply_outcome(reply@, now)
                    &&& final(self)@ == old(self)@.after_reply(reply@, now)
                },
            final(self)@.wf(),
    {
        let now = current_time();
        let r = self.complete_exchange(reply, now);
        assert(outcome_view(r) == old(self)@.reply_outcome(reply@, now));
        r
    }

    /// Signs the user out, whoever was signed in, and returns the provider's logout URL
    /// that the browser is to open.
    pub fn logout(&mut self) -> (url: String)
        ensures
            final(self)@ == old(self)@.after_logout(),
            final(self)@.state == AuthStateView::unauthenticated(),
            url@ == logout_url(old(self)@.config),
            final(self)@.wf(),
    {
        self.store.state = AuthState::default();
        build_logout_url(&self.store.config)
    }

    /// A copy of the session.
    pub fn get_auth_state(&self) -> (state: AuthState)
        ensures
            state@ == self@.state,
            state@.wf(),
    {
        proof {
            use_type_invariant(self);
        }
        self.store.state.clone()
    }

    /// Whether a user is signed in.
    pub fn is_authenticated(&self) -> (authenticated: bool)
        ensures
            authenticated == self@.state.authenticated,
    {
        self.store.state.authenticated
    }

    /// Puts the given secrets in the place of those of any pending login.
    pub fn store_pkce_params(&mut self, state: &str, code_verifier: &str)
        ensures
            final(self)@ == old(self)@.with_pending(
                PkceSessionView { state: state@, code_verifier: code_verifier@ },
            ),
            final(self)@.wf(),
    {
        proof {
            use_type_invariant(&*self);
        }
        self.pending = Some(
            PkceSession {
                state: String::from_str(state),
                code_verifier: String::from_str(code_verifier),
            },
        );
    }

    /// The state and the code verifier of the pending login; `CsrfMismatch` where none
    /// is pending.
    pub fn get_pkce_params(&self) -> (r: Result<(String, String), AuthError>)
        ensures
            match r {
                Ok(pair) => self@.pending == Some(
                    PkceSessionView { state: pair.0@, code_verifier: pair.1@ },
                ),
                Err(e) => self@.pending is None && e@ == AuthErrorView::CsrfMismatch,
            },
    {
        match &self.pending {
            Some(session) => Ok((session.state.clone(), session.code_verifier.clone())),
            None => Err(AuthError::CsrfMismatch),
        }
    }

    /// Completes a login from a code, a state and a code verifier entered by hand: the
    /// secrets are stored as the pending login, and the redirect URL made of the code
    /// and the state is handled as if the provider had sent it.
    pub fn manual_authenticate(&mut self, code: &str, state: &str, code_verifier: &str) -> (r:
        Result<TokenRequest, AuthError>)
        ensures
            ({
                let stored = old(self)@.with_pending(
                    PkceSessionView { state: state@, code_verifier: code_verifier@ },
                );
                let url = manual_callback_url(code@, state@);
                &&& outcome_view(r) == stored.callback_outcome(url)
                &&& final(self)@ == stored.after_callback(url)
            }),
            final(self)@.wf(),
    {
        self.store_pkce_params(state, code_verifier);
        let url = String::from_str(REDIRECT_URI).concat("?code=").concat(code).concat(
            "&state=",
        ).concat(state);
        self.handle_callback(url.as_str())
    }
}

} // verus!
