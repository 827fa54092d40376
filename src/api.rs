//! The school platform's endpoints, the answers of its JSON API, the OAuth
//! authorization-code flow's decisions, and the host's CPU count.
use crate::text::{push_signed_decimal, signed_decimal};
use vstd::prelude::*;

verus! {

/// Where the platform sends the browser back after authorization.
pub const REDIRECT_URI: &'static str = "http://localhost:3000/callback";

/// How long, in seconds, the flow waits for the authorization callback.
pub const OAUTH_WAIT_SECS: u32 = 300;

/// The list of schools, which needs no school domain.
pub const SCHOOLS_URL: &'static str = "https://job3.posedu.cn/school/public_api/schools";

/// The root of the platform's API for the school at `domain`.
pub open spec fn school_base(domain: Seq<char>) -> Seq<char> {
    "https://"@ + domain + ".job3.posedu.cn/school"@
}

fn school_url(domain: &str, path: &str) -> (r: String)
    ensures
        r@ == school_base(domain@) + path@,
{
    let mut r = String::new();
    r.append("https://");
    r.append(domain);
    r.append(".job3.posedu.cn/school");
    r.append(path);
    r
}

pub fn authorize_url(domain: &str) -> (r: String)
    ensures
        r@ == school_base(domain@) + "/oauth/authorize"@,
{
    school_url(domain, "/oauth/authorize")
}

pub fn token_url(domain: &str) -> (r: String)
    ensures
        r@ == school_base(domain@) + "/oauth/token"@,
{
    school_url(domain, "/oauth/token")
}

pub fn userinfo_url(domain: &str) -> (r: String)
    ensures
        r@ == school_base(domain@) + "/oauth/userinfo"@,
{
    school_url(domain, "/oauth/userinfo")
}

pub fn matches_url(domain: &str) -> (r: String)
    ensures
        r@ == school_base(domain@) + "/match_api/matches"@,
{
    school_url(domain, "/match_api/matches")
}

pub fn stages_url(domain: &str, match_id: i32) -> (r: String)
    ensures
        r@ == school_base(domain@) + "/match_api/stages?match_id="@ + signed_decimal(
            match_id as int,
        ),
{
    let mut r = school_url(domain, "/match_api/stages?match_id=");
    push_signed_decimal(&mut r, match_id);
    r
}

pub fn works_url(domain: &str, match_id: i32, stage_id: i32) -> (r: String)
    ensures
        r@ == school_base(domain@) + "/match_api/works?match_id="@ + signed_decimal(
            match_id as int,
        ) + "&stage_id="@ + signed_decimal(stage_id as int),
{
    let mut r = school_url(domain, "/match_api/works?match_id=");
    push_signed_decimal(&mut r, match_id);
    r.append("&stage_id=");
    push_signed_decimal(&mut r, stage_id);
    r
}

/// What `urlencoding::encode` makes of a string.
pub uninterp spec fn url_encoded(s: Seq<char>) -> Seq<char>;

/// Relies on `urlencoding::encode`: percent-encodes every byte of the UTF-8
/// form but ASCII letters, digits and `-_.~`.
#[verifier::external_body]
fn url_encode(s: &str) -> (r: String)
    ensures
        r@ == url_encoded(s@),
{
    urlencoding::encode(s).into_owned()
}

pub open spec fn authorization_request(
    domain: Seq<char>,
    state: Seq<char>,
    encoded_redirect: Seq<char>,
) -> Seq<char> {
    school_base(domain) + "/oauth/authorize"@ + "?redirect_uri="@ + encoded_redirect
        + "&state="@ + state
}

/// The authorization page for the school at `domain`, carrying the
/// already-encoded redirect URI and the anti-forgery `state`.
pub fn authorization_url_with(domain: &str, state: &str, encoded_redirect: &str) -> (r: String)
    ensures
        r@ == authorization_request(domain@, state@, encoded_redirect@),
{
    let mut r = authorize_url(domain);
    r.append("?redirect_uri=");
    r.append(encoded_redirect);
    r.append("&state=");
    r.append(state);
    r
}

/// The authorization page for the school at `domain`, sending the browser
/// back to `REDIRECT_URI` with `state`.
pub fn authorization_url(domain: &str, state: &str) -> (r: String)
    ensures
        r@ == authorization_request(domain@, state@, url_encoded(REDIRECT_URI@)),
{
    let encoded = url_encode(REDIRECT_URI);
    authorization_url_with(domain, state, encoded.as_str())
}

/// The message given when the platform reports an error without one.
pub const UNKNOWN_ERROR: &'static str = "未知错误";

/// The platform wraps each answer as `{code, msg, data}`; `code` 0 means
/// success, anything else (or none) an error described by `msg`.
pub fn check_api_code(code: Option<i64>, msg: Option<String>) -> (r: Result<(), String>)
    ensures
        r is Ok <==> code == Some(0i64),
        r matches Err(e) ==> e@ == match msg {
            Some(m) => m@,
            None => UNKNOWN_ERROR@,
        },
{
    match code {
        Some(c) if c == 0 => Ok(()),
        _ => match msg {
            Some(m) => Err(m),
            None => Err(String::from_str(UNKNOWN_ERROR)),
        },
    }
}

/// What a single look at the authorization callback decides.
#[derive(Debug)]
pub enum OauthPoll {
    /// Nothing yet: wait one more second.
    Wait,
    /// The flow is over: the authorization code, or why there is none.
    Done(Result<String, String>),
}

pub open spec fn oauth_error(e: Seq<char>) -> Seq<char> {
    "OAuth error: "@ + e
}

/// The decision after `elapsed` seconds of waiting (counting the one just
/// waited), given what the callback delivered so far: a code wins, then an
/// error; with neither, the flow waits until `OAUTH_WAIT_SECS` have passed
/// and then gives up.
pub fn oauth_poll(elapsed: u32, code: Option<String>, error: Option<String>) -> (r: OauthPoll)
    ensures
        match code {
            Some(c) => r matches OauthPoll::Done(Ok(k)) && k@ == c@,
            None => match error {
                Some(e) => r matches OauthPoll::Done(Err(m)) && m@ == oauth_error(e@),
                None => if elapsed >= OAUTH_WAIT_SECS {
                    r matches OauthPoll::Done(Err(m)) && m@ == "OAuth timeout"@
                } else {
                    r is Wait
                },
            },
        },
{
    match code {
        Some(c) => OauthPoll::Done(Ok(c)),
        None => match error {
            Some(e) => {
                let mut m = String::from_str("OAuth error: ");
                m.append(e.as_str());
                OauthPoll::Done(Err(m))
            },
            None => if elapsed >= OAUTH_WAIT_SECS {
                OauthPoll::Done(Err(String::from_str("OAuth timeout")))
            } else {
                OauthPoll::Wait
            },
        },
    }
}

/// Concurrency advice derived from the number of CPUs.
#[derive(Clone, Copy, Debug, PartialEq, Eq, Structural)]
pub struct SystemInfo {
    pub cpu_cores: usize,
    pub recommended_concurrency: usize,
    pub max_concurrency: usize,
}

impl SystemInfo {
    /// One transfer per core is recommended and two per core allowed (at
    /// most `usize::MAX`).
    pub fn for_cpus(cpu_cores: usize) -> (r: SystemInfo)
        ensures
            r.cpu_cores == cpu_cores,
            r.recommended_concurrency == cpu_cores,
            r.max_concurrency == if 2 * cpu_cores <= usize::MAX {
                2 * cpu_cores
            } else {
                usize::MAX as int
            },
    {
        SystemInfo {
            cpu_cores,
            recommended_concurrency: cpu_cores,
            max_concurrency: if cpu_cores <= usize::MAX / 2 {
                cpu_cores * 2
            } else {
                usize::MAX
            },
        }
    }

    /// The advice for this machine.
    pub fn current() -> (r: SystemInfo)
        ensures
            r.cpu_cores >= 1,
            r == SystemInfo::for_cpus_spec(r.cpu_cores),
    {
        SystemInfo::for_cpus(cpu_count())
    }

    pub open spec fn for_cpus_spec(cpu_cores: usize) -> SystemInfo {
        SystemInfo {
            cpu_cores,
            recommended_concurrency: cpu_cores,
            max_concurrency: if 2 * cpu_cores <= usize::MAX {
                (2 * cpu_cores) as usize
            } else {
                usize::MAX
            },
        }
    }
}

/// Relies on `num_cpus::get`: the number of CPUs available to this process,
/// at least 1.
#[verifier::external_body]
fn cpu_count() -> (r: usize)
    ensures
        r >= 1,
{
    num_cpus::get()
}

} // verus!
