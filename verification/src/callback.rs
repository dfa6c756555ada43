//! Reading the redirect that the provider sends after a login.

use crate::error::outcome_view;
use crate::error::AuthError;
use crate::error::AuthErrorView;
use crate::config::DEFAULT_CALLBACK_URL;
use crate::text::chars_of;
use crate::text::starts_with;
use crate::text::str_eq;
use vstd::prelude::*;

verus! {

/// What a redirect from the provider carries.
#[derive(Debug, PartialEq, Eq)]
pub struct CallbackParams {
    /// The authorization code to exchange for tokens.
    pub code: String,
    /// The CSRF token, to be held against the one of the pending login.
    pub state: String,
}

/// The mathematical value of a [`CallbackParams`].
pub ghost struct CallbackParamsView {
    pub code: Seq<char>,
    pub state: Seq<char>,
}

impl View for CallbackParams {
    type V = CallbackParamsView;

    open spec fn view(&self) -> CallbackParamsView {
        CallbackParamsView { code: self.code@, state: self.state@ }
    }
}

/// The characters of a list of key-value pairs.
pub open spec fn pairs_view(pairs: Seq<(String, String)>) -> Seq<(Seq<char>, Seq<char>)> {
    pairs.map_values(|p: (String, String)| (p.0@, p.1@))
}

/// The name of the decoded query pairs of a URL, in the order in which they stand in it;
/// `None` where the text is no URL.
pub uninterp spec fn url_query_pairs(raw_url: Seq<char>) -> Option<Seq<(Seq<char>, Seq<char>)>>;

/// Calls `Url::parse` of the url crate and collects the `query_pairs` of the parsed URL.
/// Trusted: whether the text parses, and which pairs its query holds, depends on the
/// text alone.
#[verifier::external_body]
pub(crate) fn query_pairs(raw_url: &str) -> (pairs: Option<Vec<(String, String)>>)
    ensures
        match pairs {
            Some(list) => url_query_pairs(raw_url@) == Some(pairs_view(list@)),
            None => url_query_pairs(raw_url@) is None,
        },
{
    match url::Url::parse(raw_url) {
        Ok(parsed) => Some(parsed.query_pairs().into_owned().collect()),
        Err(_) => None,
    }
}

/// The value of the last pair with the given key.
pub open spec fn param(pairs: Seq<(Seq<char>, Seq<char>)>, key: Seq<char>) -> Option<Seq<char>>
    decreases pairs.len(),
{
    if pairs.len() == 0 {
        None
    } else if pairs.last().0 == key {
        Some(pairs.last().1)
    } else {
        param(pairs.drop_last(), key)
    }
}

/// What a list of query pairs yields: the `code` and the `state`, each the value of the
/// last pair of that name; without a `code` the error is `MissingCode`, with a `code`
/// and without a `state` it is `MissingState`.
pub open spec fn callback_params_spec(pairs: Seq<(Seq<char>, Seq<char>)>) -> Result<
    CallbackParamsView,
    AuthErrorView,
> {
    match param(pairs, "code"@) {
        None => Err(AuthErrorView::MissingCode),
        Some(code) => match param(pairs, "state"@) {
            None => Err(AuthErrorView::MissingState),
            Some(state) => Ok(CallbackParamsView { code, state }),
        },
    }
}

/// What a redirect URL yields: `MalformedUrl` where it is no URL, and else what its
/// query pairs yield.
pub open spec fn parse_callback_spec(raw_url: Seq<char>) -> Result<
    CallbackParamsView,
    AuthErrorView,
> {
    match url_query_pairs(raw_url) {
        None => Err(AuthErrorView::MalformedUrl),
        Some(pairs) => callback_params_spec(pairs),
    }
}

/// Looks up the value of the last pair with the given key.
pub fn find_param(pairs: &Vec<(String, String)>, key: &str) -> (value: Option<String>)
    ensures
        crate::text::text_view(value) == param(pairs_view(pairs@), key@),
{
    let ghost all = pairs_view(pairs@);
    let mut i: usize = pairs.len();
    assert(all.take(i as int) == all);
    while i > 0
        invariant
            i <= pairs@.len(),
            all == pairs_view(pairs@),
            param(all, key@) == param(all.take(i as int), key@),
        decreases i,
    {
        let ghost prefix = all.take(i as int);
        assert(prefix.last() == (pairs@[i - 1].0@, pairs@[i - 1].1@));
        assert(prefix.drop_last() == all.take(i - 1));
        if str_eq(pairs[i - 1].0.as_str(), key) {
            return Some(pairs[i - 1].1.clone());
        }
        i -= 1;
    }
    None
}

/// Takes the authorization code and the state out of a redirect's query pairs.
pub fn callback_params(pairs: &Vec<(String, String)>) -> (r: Result<CallbackParams, AuthError>)
    ensures
        outcome_view(r) == callback_params_spec(pairs_view(pairs@)),
{
    let code = match find_param(pairs, "code") {
        Some(code) => code,
        None => {
            return Err(AuthError::MissingCode);
        },
    };
    let state = match find_param(pairs, "state") {
        Some(state) => state,
        None => {
            return Err(AuthError::MissingState);
        },
    };
    Ok(CallbackParams { code, state })
}

/// Reads a redirect URL. Whether its state is the expected one is not examined here.
pub fn parse_callback(raw_url: &str) -> (r: Result<CallbackParams, AuthError>)
    ensures
        outcome_view(r) == parse_callback_spec(raw_url@),
{
    match query_pairs(raw_url) {
        None => Err(AuthError::MalformedUrl),
        Some(pairs) => callback_params(&pairs),
    }
}

/// True where a link handed to the application is a redirect from the provider: it
/// begins with the application's callback address.
pub fn is_callback_link(link: &str) -> (yes: bool)
    ensures
        yes == DEFAULT_CALLBACK_URL@.is_prefix_of(link@),
{
    let chars = chars_of(link);
    let prefix = chars_of(DEFAULT_CALLBACK_URL);
    starts_with(&chars, &prefix)
}

} // verus!
