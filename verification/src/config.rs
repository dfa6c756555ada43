//! The identity provider's configuration and the forms of its domain.

use crate::text::copy_text;
use crate::text::text_view;
use crate::text::chars_of;
use crate::text::find_text;
use crate::text::first_occurrence;
use crate::text::starts_with;
use crate::text::trimmed_len;
use crate::text::without_trailing;
use vstd::prelude::*;

verus! {

/// Where the provider sends the user back to unless the configuration says otherwise.
pub const DEFAULT_CALLBACK_URL: &'static str = "vibede://callback";

/// The scopes asked for unless the configuration says otherwise.
pub const DEFAULT_SCOPE: &'static str = "openid profile email";

/// The identity provider's settings.
#[derive(Debug, PartialEq, Eq)]
pub struct Auth0Config {
    /// The provider's host, or its full origin with the scheme.
    pub domain: String,
    pub client_id: String,
    pub callback_url: String,
    pub audience: Option<String>,
    /// OAuth scopes, separated by spaces.
    pub scope: String,
}

/// The mathematical value of an [`Auth0Config`].
pub ghost struct Auth0ConfigView {
    pub domain: Seq<char>,
    pub client_id: Seq<char>,
    pub callback_url: Seq<char>,
    pub audience: Option<Seq<char>>,
    pub scope: Seq<char>,
}

impl Auth0ConfigView {
    /// The configuration before any is given: no domain, no client, the default callback
    /// and scopes.
    pub open spec fn initial() -> Auth0ConfigView {
        Auth0ConfigView {
            domain: seq![],
            client_id: seq![],
            callback_url: DEFAULT_CALLBACK_URL@,
            audience: None,
            scope: DEFAULT_SCOPE@,
        }
    }

    /// A login can start only with a domain and a client id.
    pub open spec fn is_complete(self) -> bool {
        self.domain.len() > 0 && self.client_id.len() > 0
    }
}

impl View for Auth0Config {
    type V = Auth0ConfigView;

    open spec fn view(&self) -> Auth0ConfigView {
        Auth0ConfigView {
            domain: self.domain@,
            client_id: self.client_id@,
            callback_url: self.callback_url@,
            audience: text_view(self.audience),
            scope: self.scope@,
        }
    }
}

impl Clone for Auth0Config {
    fn clone(&self) -> (copy: Self)
        ensures
            copy == *self,
    {
        Auth0Config {
            domain: self.domain.clone(),
            client_id: self.client_id.clone(),
            callback_url: self.callback_url.clone(),
            audience: copy_text(&self.audience),
            scope: self.scope.clone(),
        }
    }
}

impl Default for Auth0Config {
    fn default() -> (config: Self)
        ensures
            config@ == Auth0ConfigView::initial(),
    {
        Auth0Config {
            domain: String::new(),
            client_id: String::new(),
            callback_url: String::from_str(DEFAULT_CALLBACK_URL),
            audience: None,
            scope: String::from_str(DEFAULT_SCOPE),
        }
    }
}

impl Auth0Config {
    /// A configuration from what the caller supplies: the callback URL and the scopes
    /// fall back to their defaults.
    pub fn with_defaults(
        domain: String,
        client_id: String,
        callback_url: Option<String>,
        audience: Option<String>,
        scope: Option<String>,
    ) -> (config: Self)
        ensures
            config@ == (Auth0ConfigView {
                domain: domain@,
                client_id: client_id@,
                callback_url: match callback_url {
                    Some(url) => url@,
                    None => DEFAULT_CALLBACK_URL@,
                },
                audience: text_view(audience),
                scope: match scope {
                    Some(s) => s@,
                    None => DEFAULT_SCOPE@,
                },
            }),
    {
        Auth0Config {
            domain,
            client_id,
            callback_url: match callback_url {
                Some(url) => url,
                None => String::from_str(DEFAULT_CALLBACK_URL),
            },
            audience,
            scope: match scope {
                Some(s) => s,
                None => String::from_str(DEFAULT_SCOPE),
            },
        }
    }

    /// True where both the domain and the client id are set.
    pub fn is_complete(&self) -> (complete: bool)
        ensures
            complete == self@.is_complete(),
    {
        !self.domain.as_str().is_empty() && !self.client_id.as_str().is_empty()
    }
}

/// The provider's origin: the domain without trailing slashes, with `https://` before
/// it unless it begins with `http`.
pub open spec fn normalized_domain(domain: Seq<char>) -> Seq<char> {
    if "http"@.is_prefix_of(domain) {
        without_trailing(domain, '/')
    } else {
        "https://"@ + without_trailing(domain, '/')
    }
}

/// The root under which the provider's authorize endpoint lives: the origin, cut before
/// its first `/api/` where it has one.
pub open spec fn authorize_root(domain: Seq<char>) -> Seq<char> {
    let origin = normalized_domain(domain);
    origin.take(first_occurrence(origin, "/api/"@, 0))
}

/// The provider's origin for a configured domain.
pub fn normalize_domain(domain: &str) -> (origin: String)
    ensures
        origin@ == normalized_domain(domain@),
{
    let chars = chars_of(domain);
    let scheme = chars_of("http");
    let end = trimmed_len(&chars, '/');
    let trimmed = domain.substring_char(0, end);
    assert(trimmed@ == without_trailing(domain@, '/'));
    if starts_with(&chars, &scheme) {
        String::from_str(trimmed)
    } else {
        String::from_str("https://").concat(trimmed)
    }
}

/// The root of the authorize endpoint for a configured domain.
pub fn authorize_root_of(domain: &str) -> (root: String)
    ensures
        root@ == authorize_root(domain@),
{
    let origin = normalize_domain(domain);
    let chars = chars_of(origin.as_str());
    let marker = chars_of("/api/");
    let at = find_text(&chars, &marker);
    String::from_str(origin.as_str().substring_char(0, at))
}

} // verus!
