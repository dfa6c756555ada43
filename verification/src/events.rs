//! The events by which the user interface learns how a login or a logout ended.

use crate::error::AuthError;
use crate::text::text_view;
use vstd::prelude::*;

verus! {

/// The name of the event that reports a completed login.
pub const LOGIN_COMPLETE: &'static str = "auth:login-complete";

/// The name of the event that reports a failed login.
pub const LOGIN_ERROR: &'static str = "auth:login-error";

/// The name of the event that reports a completed logout.
pub const LOGOUT_COMPLETE: &'static str = "auth:logout-complete";

/// What the user interface is told.
#[derive(Debug, PartialEq, Eq)]
pub enum Notification {
    LoginComplete,
    /// A login failed; the string is the error's message.
    LoginError(String),
    LogoutComplete,
}

/// The mathematical value of a [`Notification`].
pub ghost enum NotificationView {
    LoginComplete,
    LoginError(Seq<char>),
    LogoutComplete,
}

impl View for Notification {
    type V = NotificationView;

    open spec fn view(&self) -> NotificationView {
        match *self {
            Notification::LoginComplete => NotificationView::LoginComplete,
            Notification::LoginError(message) => NotificationView::LoginError(message@),
            Notification::LogoutComplete => NotificationView::LogoutComplete,
        }
    }
}

impl NotificationView {
    /// The name under which the event is delivered.
    pub open spec fn event_name(self) -> Seq<char> {
        match self {
            NotificationView::LoginComplete => LOGIN_COMPLETE@,
            NotificationView::LoginError(_) => LOGIN_ERROR@,
            NotificationView::LogoutComplete => LOGOUT_COMPLETE@,
        }
    }

    /// What the event carries: the message of a failed login, and nothing otherwise.
    pub open spec fn payload(self) -> Option<Seq<char>> {
        match self {
            NotificationView::LoginError(message) => Some(message),
            _ => None,
        }
    }
}

impl Notification {
    /// The name under which the event is delivered.
    pub fn event_name(&self) -> (name: &'static str)
        ensures
            name@ == self@.event_name(),
    {
        match self {
            Notification::LoginComplete => LOGIN_COMPLETE,
            Notification::LoginError(_) => LOGIN_ERROR,
            Notification::LogoutComplete => LOGOUT_COMPLETE,
        }
    }

    /// What the event carries.
    pub fn payload(&self) -> (payload: Option<String>)
        ensures
            text_view(payload) == self@.payload(),
    {
        match self {
            Notification::LoginError(message) => Some(message.clone()),
            _ => None,
        }
    }
}

/// The event that follows a failed step of a login: it carries the error's message.
pub fn login_failed(error: &AuthError) -> (event: Notification)
    ensures
        event@ == NotificationView::LoginError(error@.message()),
{
    Notification::LoginError(error.message())
}

/// The event that follows the end of the token exchange: completion on success, the
/// error's message on failure.
pub fn login_finished(outcome: &Result<(), AuthError>) -> (event: Notification)
    ensures
        event@ == match *outcome {
            Ok(_) => NotificationView::LoginComplete,
            Err(error) => NotificationView::LoginError(error@.message()),
        },
{
    match outcome {
        Ok(_) => Notification::LoginComplete,
        Err(error) => login_failed(error),
    }
}

} // verus!
