//! The jumpcloud adapter's protocol pieces: the login body, the responses,
//! and the retry rule for a one-time-code challenge.

use crate::errors::BrokerError;
use vstd::prelude::*;

verus! {

/// Where the login form is posted.
pub const AUTH_SUBMIT_URL: &'static str = "https://console.jumpcloud.com/userconsole/auth";

/// Where the request-forgery token is fetched.
pub const XSRF_URL: &'static str = "https://console.jumpcloud.com/userconsole/xsrf";

/// The body of one login request. The one-time code starts empty and is
/// filled in only when the first attempt is refused for the lack of one.
#[derive(Debug, Clone, PartialEq)]
pub struct LoginRequest {
    pub context: String,
    pub username: String,
    pub password: String,
    pub redirect_to: String,
    pub otp: String,
}

impl LoginRequest {
    /// A first login: credentials and the in-console path to come back to,
    /// in the single-sign-on context, without a one-time code yet.
    pub fn from_credentials(username: String, password: String, redirect_to: String) -> (r:
        LoginRequest)
        ensures
            r.context@ == "sso"@,
            r.username == username,
            r.password == password,
            r.redirect_to == redirect_to,
            r.otp@ == Seq::<char>::empty(),
    {
        LoginRequest {
            context: "sso".to_owned(),
            username,
            password,
            redirect_to,
            otp: String::new(),
        }
    }
}

/// What a successful login answers: where to pick the assertion up.
#[derive(Debug, Clone, PartialEq)]
pub struct LoginResponse {
    pub redirect_to: String,
}

/// What the token endpoint answers.
#[derive(Debug, Clone, PartialEq)]
pub struct XsrfResponse {
    pub xsrf: String,
}

/// Whether a refused login should be retried once with a one-time code: only
/// an unauthorized answer to a request that carried no code yet.
pub fn should_retry_with_otp(status_code: u16, otp_empty: bool) -> (r: bool)
    ensures
        r == (status_code == 401 && otp_empty),
{
    status_code == 401 && otp_empty
}

/// The in-console path a profile URL redirects back to: the URL's path with
/// its leading slash removed.
pub fn create_redirect_to(s: &str) -> (r: Result<String, BrokerError>)
    ensures
        match url_path(s@) {
            Some(p) => {
                &&& p.len() == 0 ==> (r matches Err(e) && e is InvalidUrl)
                &&& p.len() >= 1 ==> (r matches Ok(path) && path@ == p.skip(1))
            },
            None => r matches Err(e) && e is InvalidUrl,
        },
{
    match parse_url_path(s) {
        Some(path) => {
            let len = path.unicode_len();
            if len >= 1 {
                let rest = path.as_str().substring_char(1, len);
                proof {
                    assert(rest@ =~= path@.skip(1));
                }
                Ok(rest.to_owned())
            } else {
                Err(BrokerError::InvalidUrl)
            }
        },
        None => Err(BrokerError::InvalidUrl),
    }
}

/// The path component of a URL string; a function of the string alone.
pub uninterp spec fn url_path(s: Seq<char>) -> Option<Seq<char>>;

/// Relies on url::Url::parse and Url::path: the path component of a URL
/// string, a function of the string alone.
#[verifier::external_body]
fn parse_url_path(s: &str) -> (r: Option<String>)
    ensures
        r matches Some(p) ==> url_path(s@) == Some(p@),
        r is None ==> url_path(s@) is None,
{
    match url::Url::parse(s) {
        Ok(u) => Some(u.path().to_owned()),
        Err(_) => None,
    }
}

} // verus!
