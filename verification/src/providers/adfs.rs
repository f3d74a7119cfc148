//! The form-scraping adapter's logic.
//!
//! The legacy protocol has no structured status field, so the adapter fills
//! the scraped login form and then classifies the answer page into a weaker
//! three-state machine — success, a prompt-style second factor, or a
//! wait-style second factor — by inspecting a follow-up hidden field.

use crate::errors::BrokerError;
use crate::saml::{
    extract_outcome, extract_saml_assertion, find_input_value, input_field_value,
    spec_extraction_succeeds, Response,
};
use crate::text::{has_prefix, starts_with, str_eq};
use vstd::prelude::*;

verus! {

/// The URL path the sign-on request is sent to, appended to the profile URL.
pub const ADFS_URL_SUFFIX: &'static str =
    "/adfs/ls/IdpInitiatedSignOn.aspx?loginToRp=urn:amazon:webservices";

/// The three states the answer page can mean.
#[derive(Debug, Clone, Copy, PartialEq, Eq, Structural)]
pub enum ResponseState {
    Success,
    MfaPrompt,
    MfaWait,
    Error,
}

/// A classified answer page: its state, and on success the assertion.
#[derive(Debug, PartialEq)]
pub struct AdfsResponse {
    pub state: ResponseState,
    pub assertion: Option<Response>,
}

impl Default for AdfsResponse {
    /// The state before anything is known: an error without an assertion.
    fn default() -> (r: AdfsResponse)
        ensures
            r.state is Error,
            r.assertion is None,
    {
        AdfsResponse { state: ResponseState::Error, assertion: None }
    }
}

/// The name and value attributes of each input element that carries a name,
/// in document order; a function of the page text.
pub uninterp spec fn html_input_fields(html: Seq<char>) -> Seq<(Seq<char>, Option<Seq<char>>)>;

/// Relies on the select crate (Document::from and find with a name
/// predicate): the name and value attributes of the page's input elements,
/// in document order.
#[verifier::external_body]
fn find_input_fields(html: &str) -> (r: Vec<(String, Option<String>)>)
    ensures
        r.deep_view() == html_input_fields(html@),
{
    let document = select::document::Document::from(html);
    let mut out: Vec<(String, Option<String>)> = Vec::new();
    for element in document.find(select::predicate::Name("input")) {
        if let Some(name) = element.attr("name") {
            let value = match element.attr("value") {
                Some(v) => Some(v.to_owned()),
                None => None,
            };
            out.push((name.to_owned(), value));
        }
    }
    out
}

/// The action attribute of each form element, in document order; a function
/// of the page text.
pub uninterp spec fn html_form_actions(html: Seq<char>) -> Seq<Option<Seq<char>>>;

/// Relies on the select crate (Document::from and find with a name
/// predicate): the action attribute of each form element, in document order.
#[verifier::external_body]
fn find_form_actions(html: &str) -> (r: Vec<Option<String>>)
    ensures
        r.deep_view() == html_form_actions(html@),
{
    let document = select::document::Document::from(html);
    let mut out: Vec<Option<String>> = Vec::new();
    for form in document.find(select::predicate::Name("form")) {
        out.push(match form.attr("action") {
            Some(a) => Some(a.to_owned()),
            None => None,
        });
    }
    out
}

/// A field the username belongs into: its name starts with `email`, `user`
/// or `User`.
pub open spec fn is_username_field(name: Seq<char>) -> bool {
    has_prefix(name, "email"@) || has_prefix(name, "user"@) || has_prefix(name, "User"@)
}

/// A field the password belongs into: its name starts with `pass` or `Pass`.
pub open spec fn is_password_field(name: Seq<char>) -> bool {
    has_prefix(name, "pass"@) || has_prefix(name, "Pass"@)
}

/// What one input field contributes to the login form: the username or the
/// password where the name says so, otherwise the field's own value, if any.
pub open spec fn classify_field(
    name: Seq<char>,
    value: Option<Seq<char>>,
    username: Seq<char>,
    password: Seq<char>,
) -> Option<Seq<char>> {
    if is_username_field(name) {
        Some(username)
    } else if is_password_field(name) {
        Some(password)
    } else {
        value
    }
}

/// The form entries a page's input fields give rise to, in page order.
pub open spec fn spec_form_elements(
    fields: Seq<(Seq<char>, Option<Seq<char>>)>,
    username: Seq<char>,
    password: Seq<char>,
) -> Seq<(Seq<char>, Seq<char>)>
    decreases fields.len(),
{
    if fields.len() == 0 {
        Seq::empty()
    } else {
        (match classify_field(fields[0].0, fields[0].1, username, password) {
            Some(v) => seq![(fields[0].0, v)],
            None => Seq::empty(),
        }) + spec_form_elements(fields.drop_first(), username, password)
    }
}

/// Builds the login form to post back: every input field of the page, with
/// the username-like and password-like fields overwritten and valueless
/// fields dropped. Later fields of the same name win when the list is read
/// as a map, as the page order is kept.
pub fn build_login_form_elements(username: &str, password: &str, html: &str) -> (r: Vec<
    (String, String),
>)
    ensures
        r.deep_view() == spec_form_elements(html_input_fields(html@), username@, password@),
{
    let fields = find_input_fields(html);
    let ghost all = fields.deep_view();
    let n = fields.len();
    let mut out: Vec<(String, String)> = Vec::new();
    let mut i: usize = 0;
    proof {
        assert(all.skip(0) =~= all);
        assert(fields.deep_view().len() == fields@.len());
    }
    while i < n
        invariant
            n == fields@.len(),
            all == fields.deep_view(),
            all.len() == n,
            0 <= i <= n,
            out.deep_view() + spec_form_elements(all.skip(i as int), username@, password@)
                == spec_form_elements(all, username@, password@),
        decreases n - i,
    {
        let entry = &fields[i];
        proof {
            assert(all[i as int] == fields@[i as int].deep_view());
            assert(all.skip(i as int)[0] == all[i as int]);
            assert(all.skip(i as int).drop_first() =~= all.skip(i + 1));
        }
        let ghost before = out.deep_view();
        if starts_with(entry.0.as_str(), "email") || starts_with(entry.0.as_str(), "user")
            || starts_with(entry.0.as_str(), "User") {
            out.push((entry.0.clone(), username.to_owned()));
        } else if starts_with(entry.0.as_str(), "pass") || starts_with(entry.0.as_str(), "Pass") {
            out.push((entry.0.clone(), password.to_owned()));
        } else {
            match &entry.1 {
                Some(v) => {
                    out.push((entry.0.clone(), v.clone()));
                },
                None => {},
            }
        }
        proof {
            let step = match classify_field(all[i as int].0, all[i as int].1, username@, password@) {
                Some(v) => seq![(all[i as int].0, v)],
                None => Seq::<(Seq<char>, Seq<char>)>::empty(),
            };
            assert(out.deep_view() =~= before + step);
            assert((before + step) + spec_form_elements(all.skip(i + 1), username@, password@)
                =~= before + (step + spec_form_elements(all.skip(i + 1), username@, password@)));
        }
        i = i + 1;
    }
    proof {
        assert(all.skip(n as int) =~= Seq::<(Seq<char>, Option<Seq<char>>)>::empty());
        assert(out.deep_view() + Seq::<(Seq<char>, Seq<char>)>::empty() =~= out.deep_view());
    }
    out
}

/// The URL the filled form is posted to: the action of the page's last form.
/// A page without forms, or whose last form names no action, has none.
pub fn fetch_submit_url(html: &str) -> (r: Result<String, BrokerError>)
    ensures
        ({
            let actions = html_form_actions(html@);
            if actions.len() == 0 {
                r matches Err(e) && e is MissingSubmitUrl
            } else {
                match actions.last() {
                    Some(u) => r matches Ok(s) && s@ == u,
                    None => r matches Err(e) && e is MissingSubmitUrl,
                }
            }
        }),
{
    let mut actions = find_form_actions(html);
    let ghost all = actions.deep_view();
    if actions.len() == 0 {
        proof {
            assert(all.len() == actions@.len());
        }
        return Err(BrokerError::MissingSubmitUrl);
    }
    let ghost orig_actions = actions@;
    let last = actions.remove(actions.len() - 1);
    proof {
        assert(last == orig_actions[orig_actions.len() - 1]);
        assert(all[all.len() - 1] == orig_actions[orig_actions.len() - 1].deep_view());
    }
    match last {
        Some(u) => Ok(u),
        None => Err(BrokerError::MissingSubmitUrl),
    }
}

/// The state a recognized second-factor marker names: the prompt-style
/// provider asks for a code, the wait-style providers push a challenge.
pub open spec fn spec_auth_method_state(value: Seq<char>) -> ResponseState {
    if value == "VIPAuthenticationProviderWindowsAccountName"@ {
        ResponseState::MfaPrompt
    } else if value == "AzureMfaAuthentication"@ || value == "AzureMfaServerAuthentication"@ {
        ResponseState::MfaWait
    } else {
        ResponseState::Error
    }
}

/// The state a page without an assertion means, from its hidden fields: a
/// recognized authentication-method marker decides; with no marker element
/// at all, a verification-code field still means a prompt.
pub open spec fn spec_adfs_state_no_saml(
    auth_method: Option<Option<Seq<char>>>,
    has_verification_code: bool,
) -> ResponseState {
    match auth_method {
        Some(Some(v)) => spec_auth_method_state(v),
        Some(None) => ResponseState::Error,
        None => if has_verification_code {
            ResponseState::MfaPrompt
        } else {
            ResponseState::Error
        },
    }
}

/// Classifies the page that came back from posting the login form: a page
/// with a parseable assertion is a success; otherwise the hidden fields tell
/// a prompt-style from a wait-style second factor, and anything else is an
/// error.
pub fn evaluate_response_state(response: &str) -> (r: Result<AdfsResponse, BrokerError>)
    ensures
        r is Ok,
        r matches Ok(a) ==> (a.state is Success <==> a.assertion is Some),
        r matches Ok(a) ==> (a.state is Success <==> spec_extraction_succeeds(
            input_field_value(response@, "SAMLResponse"@),
        )),
        match r {
            Ok(a) => a.assertion matches Some(x) ==> extract_outcome(
                input_field_value(response@, "SAMLResponse"@),
                Ok(x),
            ),
            Err(_) => true,
        },
        match r {
            Ok(a) => a.assertion is None ==> a.state == spec_adfs_state_no_saml(
                input_field_value(response@, "AuthMethod"@),
                input_field_value(response@, "VerificationCode"@) is Some,
            ),
            Err(_) => true,
        },
        r matches Ok(a) ==> (a.assertion matches Some(resp) ==> resp.roles@.len() > 0),
    {
    match extract_saml_assertion(response) {
        Ok(assertion) => Ok(
            AdfsResponse { state: ResponseState::Success, assertion: Some(assertion) },
        ),
        Err(_) => {
            let state = match find_input_value(response, "AuthMethod") {
                Some(Some(v)) => {
                    if str_eq(v.as_str(), "VIPAuthenticationProviderWindowsAccountName") {
                        ResponseState::MfaPrompt
                    } else if str_eq(v.as_str(), "AzureMfaAuthentication") || str_eq(
                        v.as_str(),
                        "AzureMfaServerAuthentication",
                    ) {
                        ResponseState::MfaWait
                    } else {
                        ResponseState::Error
                    }
                },
                Some(None) => ResponseState::Error,
                None => {
                    if find_input_value(response, "VerificationCode").is_some() {
                        ResponseState::MfaPrompt
                    } else {
                        ResponseState::Error
                    }
                },
            };
            Ok(AdfsResponse { state, assertion: None })
        },
    }
}

} // verus!
