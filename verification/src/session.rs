//! The authentication session and the signed-in user.

use crate::text::copy_text;
use crate::text::text_view;
use vstd::prelude::*;

verus! {

/// Who the signed-in user is, as the identity token says.
#[derive(Debug, PartialEq, Eq)]
pub struct UserInfo {
    /// The provider's stable identifier of the user.
    pub sub: String,
    pub name: Option<String>,
    pub email: Option<String>,
    pub picture: Option<String>,
}

/// The mathematical value of a [`UserInfo`].
pub ghost struct UserInfoView {
    pub sub: Seq<char>,
    pub name: Option<Seq<char>>,
    pub email: Option<Seq<char>>,
    pub picture: Option<Seq<char>>,
}

impl View for UserInfo {
    type V = UserInfoView;

    open spec fn view(&self) -> UserInfoView {
        UserInfoView {
            sub: self.sub@,
            name: text_view(self.name),
            email: text_view(self.email),
            picture: text_view(self.picture),
        }
    }
}

impl Clone for UserInfo {
    fn clone(&self) -> (copy: Self)
        ensures
            copy == *self,
    {
        UserInfo {
            sub: self.sub.clone(),
            name: copy_text(&self.name),
            email: copy_text(&self.email),
            picture: copy_text(&self.picture),
        }
    }
}

impl Default for UserInfo {
    fn default() -> (user: Self)
        ensures
            user@ == (UserInfoView { sub: seq![], name: None, email: None, picture: None }),
    {
        UserInfo { sub: String::new(), name: None, email: None, picture: None }
    }
}

/// The authentication session: whether a user is signed in, and with which tokens.
#[derive(Debug, PartialEq, Eq)]
pub struct AuthState {
    pub authenticated: bool,
    pub access_token: Option<String>,
    pub id_token: Option<String>,
    /// Unix time in seconds at which the access token expires.
    pub expires_at: Option<u64>,
    pub user_info: Option<UserInfo>,
}

/// The mathematical value of an [`AuthState`].
pub ghost struct AuthStateView {
    pub authenticated: bool,
    pub access_token: Option<Seq<char>>,
    pub id_token: Option<Seq<char>>,
    pub expires_at: Option<u64>,
    pub user_info: Option<UserInfoView>,
}

impl AuthStateView {
    /// The session in which nobody is signed in.
    pub open spec fn unauthenticated() -> AuthStateView {
        AuthStateView {
            authenticated: false,
            access_token: None,
            id_token: None,
            expires_at: None,
            user_info: None,
        }
    }

    /// A session is consistent when it is marked authenticated exactly if both tokens, the
    /// expiry and the user are present.
    pub open spec fn wf(self) -> bool {
        self.authenticated <==> (self.access_token is Some && self.id_token is Some
            && self.expires_at is Some && self.user_info is Some)
    }
}

impl View for AuthState {
    type V = AuthStateView;

    open spec fn view(&self) -> AuthStateView {
        AuthStateView {
            authenticated: self.authenticated,
            access_token: text_view(self.access_token),
            id_token: text_view(self.id_token),
            expires_at: self.expires_at,
            user_info: match self.user_info {
                Some(user) => Some(user@),
                None => None,
            },
        }
    }
}

impl Clone for AuthState {
    fn clone(&self) -> (copy: Self)
        ensures
            copy == *self,
    {
        AuthState {
            authenticated: self.authenticated,
            access_token: copy_text(&self.access_token),
            id_token: copy_text(&self.id_token),
            expires_at: self.expires_at,
            user_info: match &self.user_info {
                Some(user) => Some(user.clone()),
                None => None,
            },
        }
    }
}

impl Default for AuthState {
    fn default() -> (state: Self)
        ensures
            state@ == AuthStateView::unauthenticated(),
    {
        AuthState {
            authenticated: false,
            access_token: None,
            id_token: None,
            expires_at: None,
            user_info: None,
        }
    }
}

} // verus!
