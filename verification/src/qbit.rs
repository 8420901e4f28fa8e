use vstd::prelude::*;

use crate::text::{
    concat2, debug_quoted, same_text, spec_debug_str, spec_trim, take_chars, trim,
    trim_end_char, trim_end_matching,
};

verus! {

// ── Base URL ──────────────────────────────────────────────────────────────────

/// The Web UI base URL as requests use it: without trailing slashes.
pub fn api_base(base_url: &str) -> (r: String)
    ensures
        r@ == trim_end_char(base_url@, '/'),
{
    trim_end_matching(base_url, '/')
}

// ── Login answers ─────────────────────────────────────────────────────────────

pub open spec fn html_page_message() -> Seq<char> {
    "Got an HTML page instead of the qBittorrent API — check the URL points to the Web UI (e.g. http://127.0.0.1:8080). Make sure the Web UI is enabled in qBittorrent → Tools → Options → Web UI."@
}

pub open spec fn empty_response_message() -> Seq<char> {
    "Empty response from server — is the qBittorrent Web UI enabled and reachable?"@
}

/// The message for an answer of the login endpoint that is neither `Ok.` nor `Fails.`.
pub open spec fn spec_diagnose(body: Seq<char>) -> Seq<char> {
    let t = spec_trim(body);
    if t.len() > 0 && t[0] == '<' {
        html_page_message()
    } else if t.len() == 0 {
        empty_response_message()
    } else {
        "Unexpected response from qBittorrent: "@ + spec_debug_str(t.take(if 120 < t.len() { 120 } else { t.len() as int }))
    }
}

/// A human-readable diagnosis of an unexpected login answer: an HTML page, an
/// empty body, or the first 120 characters of the body, quoted.
pub fn diagnose_unexpected(body: &str) -> (r: String)
    ensures
        r@ == spec_diagnose(body@),
{
    let trimmed = trim(body);
    let n = trimmed.as_str().unicode_len();
    if n > 0 && trimmed.as_str().get_char(0) == '<' {
        return String::from_str(
            "Got an HTML page instead of the qBittorrent API — check the URL points to the Web UI (e.g. http://127.0.0.1:8080). Make sure the Web UI is enabled in qBittorrent → Tools → Options → Web UI.",
        );
    }
    if n == 0 {
        return String::from_str("Empty response from server — is the qBittorrent Web UI enabled and reachable?");
    }
    let snippet = take_chars(&trimmed, 120);
    let quoted = debug_quoted(snippet.as_str());
    concat2("Unexpected response from qBittorrent: ", quoted.as_str())
}

/// An HTTP answer: its status code and its body as text.
#[derive(Debug)]
pub struct LoginResponse {
    pub status: u16,
    pub body: String,
}

pub open spec fn login_response_view(r: Option<LoginResponse>) -> Option<(u16, Seq<char>)> {
    match r {
        Some(resp) => Some((resp.status, resp.body@)),
        None => None,
    }
}

pub open spec fn invalid_credentials_message() -> Seq<char> {
    "Invalid credentials — check your username and password"@
}

/// The verdict on a login answer, given the messages for a failed send and for a
/// 403 status: `Ok` exactly when the trimmed body is `Ok.`.
pub open spec fn spec_login_verdict(
    response: Option<(u16, Seq<char>)>,
    send_failed: Seq<char>,
    banned: Seq<char>,
) -> Result<(), Seq<char>> {
    match response {
        None => Err(send_failed),
        Some((status, body)) => if status == 403 {
            Err(banned)
        } else if spec_trim(body) == "Fails."@ {
            Err(invalid_credentials_message())
        } else if spec_trim(body) != "Ok."@ {
            Err(spec_diagnose(body))
        } else {
            Ok(())
        },
    }
}

pub open spec fn result_view(r: Result<(), String>) -> Result<(), Seq<char>> {
    match r {
        Ok(()) => Ok(()),
        Err(e) => Err(e@),
    }
}

fn login_verdict(response: Option<LoginResponse>, send_failed: &str, banned: &str) -> (r: Result<(), String>)
    ensures
        result_view(r) == spec_login_verdict(login_response_view(response), send_failed@, banned@),
{
    match response {
        None => Err(String::from_str(send_failed)),
        Some(resp) => {
            if resp.status == 403 {
                return Err(String::from_str(banned));
            }
            let t = trim(resp.body.as_str());
            if same_text(&t, "Fails.") {
                return Err(String::from_str("Invalid credentials — check your username and password"));
            }
            if !same_text(&t, "Ok.") {
                return Err(diagnose_unexpected(resp.body.as_str()));
            }
            Ok(())
        },
    }
}

/// The outcome of `POST /api/v2/auth/login` for the monitor's client. `response` is
/// the status and body text (empty when it could not be read), or `None` when the
/// request could not be sent.
pub fn login_outcome(response: Option<LoginResponse>) -> (r: Result<(), String>)
    ensures
        result_view(r) == spec_login_verdict(
            login_response_view(response),
            "Login request failed"@,
            "IP banned by qBittorrent (403)"@,
        ),
{
    login_verdict(response, "Login request failed", "IP banned by qBittorrent (403)")
}

/// The outcome of the settings panel's connection test, from the same answer.
pub fn connection_test_outcome(response: Option<LoginResponse>) -> (r: Result<(), String>)
    ensures
        result_view(r) == spec_login_verdict(
            login_response_view(response),
            "Connection failed — check the URL and that qBittorrent is running"@,
            "IP banned by qBittorrent — restart qBittorrent to clear the ban"@,
        ),
{
    login_verdict(
        response,
        "Connection failed — check the URL and that qBittorrent is running",
        "IP banned by qBittorrent — restart qBittorrent to clear the ban",
    )
}

// ── Torrent control with one re-login on 403 ─────────────────────────────────

/// An HTTP status: its code and its text as reqwest displays it (e.g. `404 Not Found`).
#[derive(Debug)]
pub struct HttpStatus {
    pub code: u16,
    pub text: String,
}

pub open spec fn status_view(s: Option<HttpStatus>) -> Option<(u16, Seq<char>)> {
    match s {
        Some(st) => Some((st.code, st.text@)),
        None => None,
    }
}

pub open spec fn is_success(code: u16) -> bool {
    200 <= code <= 299
}

#[derive(Debug, Clone, Copy, PartialEq, Eq, Structural)]
pub enum PostStage {
    /// The first attempt is under way.
    First,
    /// The first attempt got 403: logging in again.
    Relogin,
    /// The attempt after the re-login is under way.
    Retry,
}

/// A form POST to the Web UI that logs in again once after a 403 and retries.
#[derive(Debug)]
pub struct PostFlow {
    pub path: String,
    pub stage: PostStage,
}

/// What a POST flow needs next, or how it ended.
#[derive(Debug)]
pub enum PostNext {
    /// Send the POST; answer `Sent`.
    Send(PostFlow),
    /// Log in again; answer `LoggedIn`.
    Login(PostFlow),
    Finished(Result<(), String>),
}

#[derive(Debug)]
pub enum PostEvent {
    /// The request's status, or `None` when it could not be sent.
    Sent(Option<HttpStatus>),
    LoggedIn(Result<(), String>),
}

pub enum PostEventView {
    Sent(Option<(u16, Seq<char>)>),
    LoggedIn(bool),
}

impl View for PostEvent {
    type V = PostEventView;

    open spec fn view(&self) -> PostEventView {
        match self {
            PostEvent::Sent(s) => PostEventView::Sent(status_view(*s)),
            PostEvent::LoggedIn(r) => PostEventView::LoggedIn(r is Ok),
        }
    }
}

pub enum PostNextView {
    Send(Seq<char>, PostStage),
    Login(Seq<char>, PostStage),
    Finished(Result<(), Seq<char>>),
}

impl View for PostFlow {
    type V = (Seq<char>, PostStage);

    open spec fn view(&self) -> (Seq<char>, PostStage) {
        (self.path@, self.stage)
    }
}

impl View for PostNext {
    type V = PostNextView;

    open spec fn view(&self) -> PostNextView {
        match self {
            PostNext::Send(f) => PostNextView::Send(f.path@, f.stage),
            PostNext::Login(f) => PostNextView::Login(f.path@, f.stage),
            PostNext::Finished(r) => PostNextView::Finished(result_view(*r)),
        }
    }
}

/// The transitions of a POST flow for `path`.
pub open spec fn spec_post_step(path: Seq<char>, stage: PostStage, e: PostEventView) -> PostNextView {
    match (stage, e) {
        (PostStage::First, PostEventView::Sent(None)) => PostNextView::Finished(
            Err("POST "@ + path + " failed"@),
        ),
        (PostStage::First, PostEventView::Sent(Some((code, text)))) => if code == 403 {
            PostNextView::Login(path, PostStage::Relogin)
        } else if is_success(code) {
            PostNextView::Finished(Ok(()))
        } else {
            PostNextView::Finished(Err("POST "@ + path + " failed: HTTP "@ + text))
        },
        (PostStage::Relogin, PostEventView::LoggedIn(ok)) => if ok {
            PostNextView::Send(path, PostStage::Retry)
        } else {
            PostNextView::Finished(Err("Re-login after 403 failed"@))
        },
        (PostStage::Retry, PostEventView::Sent(None)) => PostNextView::Finished(
            Err("POST "@ + path + " retry after re-login failed"@),
        ),
        (PostStage::Retry, PostEventView::Sent(Some((code, text)))) => if is_success(code) {
            PostNextView::Finished(Ok(()))
        } else {
            PostNextView::Finished(Err("POST "@ + path + " failed after re-login: HTTP "@ + text))
        },
        (PostStage::Relogin, PostEventView::Sent(_)) => PostNextView::Login(path, stage),
        (_, PostEventView::LoggedIn(_)) => PostNextView::Send(path, stage),
    }
}

fn post_message1(path: &String, tail: &str) -> (r: String)
    ensures
        r@ == "POST "@ + path@ + tail@,
{
    let mut m = String::from_str("POST ");
    m.append(path.as_str());
    m.append(tail);
    m
}

fn post_message(path: &String, middle: &str, tail: &str) -> (r: String)
    ensures
        r@ == "POST "@ + path@ + middle@ + tail@,
{
    let mut m = String::from_str("POST ");
    m.append(path.as_str());
    m.append(middle);
    m.append(tail);
    m
}

impl PostFlow {
    /// Starts a POST to `path` (e.g. `/api/v2/torrents/pause`): send it first.
    pub fn start(path: &str) -> (r: PostNext)
        ensures
            r@ == PostNextView::Send(path@, PostStage::First),
    {
        PostNext::Send(PostFlow { path: String::from_str(path), stage: PostStage::First })
    }

    pub fn path(&self) -> (r: &String)
        ensures
            r@ == self.path@,
    {
        &self.path
    }

    /// Feeds the outcome of the work last asked for.
    pub fn step(self, event: PostEvent) -> (r: PostNext)
        ensures
            r@ == spec_post_step(self.path@, self.stage, event@),
    {
        match (self.stage, event) {
            (PostStage::First, PostEvent::Sent(None)) => PostNext::Finished(
                Err(post_message1(&self.path, " failed")),
            ),
            (PostStage::First, PostEvent::Sent(Some(st))) => {
                if st.code == 403 {
                    PostNext::Login(PostFlow { path: self.path, stage: PostStage::Relogin })
                } else if 200 <= st.code && st.code <= 299 {
                    PostNext::Finished(Ok(()))
                } else {
                    PostNext::Finished(Err(post_message(&self.path, " failed: HTTP ", st.text.as_str())))
                }
            },
            (PostStage::Relogin, PostEvent::LoggedIn(r)) => match r {
                Ok(()) => PostNext::Send(PostFlow { path: self.path, stage: PostStage::Retry }),
                Err(_) => PostNext::Finished(Err(String::from_str("Re-login after 403 failed"))),
            },
            (PostStage::Retry, PostEvent::Sent(None)) => PostNext::Finished(
                Err(post_message1(&self.path, " retry after re-login failed")),
            ),
            (PostStage::Retry, PostEvent::Sent(Some(st))) => {
                if 200 <= st.code && st.code <= 299 {
                    PostNext::Finished(Ok(()))
                } else {
                    PostNext::Finished(
                        Err(post_message(&self.path, " failed after re-login: HTTP ", st.text.as_str())),
                    )
                }
            },
            (PostStage::Relogin, PostEvent::Sent(_)) => PostNext::Login(self),
            (_, PostEvent::LoggedIn(_)) => PostNext::Send(self),
        }
    }
}

// ── Counting downloading torrents ─────────────────────────────────────────────

#[verifier::external_type_specification]
#[verifier::external_body]
pub struct ExJsonValue(serde_json::Value);

#[verifier::external_type_specification]
#[verifier::external_body]
pub struct ExJsonError(serde_json::Error);

/// The length of the JSON array in `body`, or `None` when `body` is not a JSON
/// array (as `serde_json::from_slice::<Vec<serde_json::Value>>` decides).
pub uninterp spec fn spec_json_array_len(body: Seq<u8>) -> Option<usize>;

/// `serde_json::from_slice::<Vec<serde_json::Value>>`. Trusted: it succeeds exactly
/// when the bytes hold a JSON array, and the list has the named length; both depend
/// on the bytes alone. Nothing is stated of the elements or of the error.
#[verifier::external_body]
fn parse_json_list(body: &[u8]) -> (r: Result<Vec<serde_json::Value>, serde_json::Error>)
    ensures
        r is Ok <==> spec_json_array_len(body@) is Some,
        r matches Ok(list) ==> spec_json_array_len(body@) == Some(list.len()),
{
    serde_json::from_slice::<Vec<serde_json::Value>>(body)
}

pub open spec fn parse_failed_message() -> Seq<char> {
    "torrents/info JSON parse failed"@
}

/// The count, from the length of the JSON array that the body held (`None` when
/// it held none).
pub fn count_outcome(list_len: Option<usize>) -> (r: Result<usize, String>)
    ensures
        match list_len {
            Some(n) => r == Ok::<usize, String>(n),
            None => r matches Err(e) && e@ == parse_failed_message(),
        },
{
    match list_len {
        Some(n) => Ok(n),
        None => Err(String::from_str("torrents/info JSON parse failed")),
    }
}

/// An answer of `GET /api/v2/torrents/info`: status and body bytes (`None` when
/// the body could not be read).
#[derive(Debug)]
pub struct ListResponse {
    pub status: u16,
    pub body: Option<Vec<u8>>,
}

pub open spec fn list_response_view(r: Option<ListResponse>) -> Option<(u16, Option<Seq<u8>>)> {
    match r {
        Some(resp) => Some((
            resp.status,
            match resp.body {
                Some(b) => Some(b@),
                None => None,
            },
        )),
        None => None,
    }
}

/// The count read from a body: the length of its JSON array.
pub open spec fn spec_count_from(body: Option<Seq<u8>>) -> Result<usize, Seq<char>> {
    match body {
        Some(b) => match spec_json_array_len(b) {
            Some(n) => Ok(n),
            None => Err(parse_failed_message()),
        },
        None => Err(parse_failed_message()),
    }
}

fn count_from(body: Option<Vec<u8>>) -> (r: Result<usize, String>)
    ensures
        match (r, spec_count_from(
            match body {
                Some(b) => Some(b@),
                None => None,
            },
        )) {
            (Ok(n), Ok(m)) => n == m,
            (Err(e), Err(f)) => e@ == f,
            _ => false,
        },
{
    match body {
        Some(b) => match parse_json_list(b.as_slice()) {
            Ok(list) => count_outcome(Some(list.len())),
            Err(_) => count_outcome(None),
        },
        None => count_outcome(None),
    }
}

#[derive(Debug, Clone, Copy, PartialEq, Eq, Structural)]
pub enum CountStage {
    First,
    Relogin,
    Retry,
}

/// `GET /api/v2/torrents/info?filter=downloading`, logging in again once after a 403.
#[derive(Debug)]
pub struct CountFlow {
    pub stage: CountStage,
}

#[derive(Debug)]
pub enum CountNext {
    /// Send the GET; answer `Sent`.
    Send(CountFlow),
    /// Log in again; answer `LoggedIn`.
    Login(CountFlow),
    Finished(Result<usize, String>),
}

#[derive(Debug)]
pub enum CountEvent {
    /// The answer, or `None` when the request could not be sent.
    Sent(Option<ListResponse>),
    LoggedIn(Result<(), String>),
}

pub enum CountEventView {
    Sent(Option<(u16, Option<Seq<u8>>)>),
    LoggedIn(Result<(), Seq<char>>),
}

impl View for CountEvent {
    type V = CountEventView;

    open spec fn view(&self) -> CountEventView {
        match self {
            CountEvent::Sent(r) => CountEventView::Sent(list_response_view(*r)),
            CountEvent::LoggedIn(r) => CountEventView::LoggedIn(result_view(*r)),
        }
    }
}

pub enum CountNextView {
    Send(CountStage),
    Login(CountStage),
    Finished(Result<usize, Seq<char>>),
}

impl View for CountNext {
    type V = CountNextView;

    open spec fn view(&self) -> CountNextView {
        match self {
            CountNext::Send(f) => CountNextView::Send(f.stage),
            CountNext::Login(f) => CountNextView::Login(f.stage),
            CountNext::Finished(r) => CountNextView::Finished(
                match r {
                    Ok(n) => Ok(*n),
                    Err(e) => Err(e@),
                },
            ),
        }
    }
}

/// The transitions of a count flow.
pub open spec fn spec_count_step(stage: CountStage, e: CountEventView) -> CountNextView {
    match (stage, e) {
        (CountStage::First, CountEventView::Sent(None)) => CountNextView::Finished(
            Err("torrents/info request failed"@),
        ),
        (CountStage::First, CountEventView::Sent(Some((code, body)))) => if code == 403 {
            CountNextView::Login(CountStage::Relogin)
        } else {
            CountNextView::Finished(spec_count_from(body))
        },
        (CountStage::Relogin, CountEventView::LoggedIn(r)) => match r {
            Ok(()) => CountNextView::Send(CountStage::Retry),
            Err(e) => CountNextView::Finished(Err(e)),
        },
        (CountStage::Retry, CountEventView::Sent(None)) => CountNextView::Finished(
            Err("torrents/info retry failed"@),
        ),
        (CountStage::Retry, CountEventView::Sent(Some((_, body)))) => CountNextView::Finished(
            spec_count_from(body),
        ),
        (CountStage::Relogin, CountEventView::Sent(_)) => CountNextView::Login(stage),
        (_, CountEventView::LoggedIn(_)) => CountNextView::Send(stage),
    }
}

impl CountFlow {
    /// Starts counting: send the request first.
    pub fn start() -> (r: CountNext)
        ensures
            r@ == CountNextView::Send(CountStage::First),
    {
        CountNext::Send(CountFlow { stage: CountStage::First })
    }

    /// Feeds the outcome of the work last asked for.
    pub fn step(self, event: CountEvent) -> (r: CountNext)
        ensures
            r@ == spec_count_step(self.stage, event@),
    {
        match (self.stage, event) {
            (CountStage::First, CountEvent::Sent(None)) => CountNext::Finished(
                Err(String::from_str("torrents/info request failed")),
            ),
            (CountStage::First, CountEvent::Sent(Some(resp))) => {
                if resp.status == 403 {
                    CountNext::Login(CountFlow { stage: CountStage::Relogin })
                } else {
                    CountNext::Finished(count_from(resp.body))
                }
            },
            (CountStage::Relogin, CountEvent::LoggedIn(r)) => match r {
                Ok(()) => CountNext::Send(CountFlow { stage: CountStage::Retry }),
                Err(e) => CountNext::Finished(Err(e)),
            },
            (CountStage::Retry, CountEvent::Sent(None)) => CountNext::Finished(
                Err(String::from_str("torrents/info retry failed")),
            ),
            (CountStage::Retry, CountEvent::Sent(Some(resp))) => CountNext::Finished(count_from(resp.body)),
            (CountStage::Relogin, CountEvent::Sent(_)) => CountNext::Login(self),
            (_, CountEvent::LoggedIn(_)) => CountNext::Send(self),
        }
    }
}

// ── Laws ──────────────────────────────────────────────────────────────────────

/// A POST logs in again at most once: only a 403 to the first attempt leads to a
/// re-login, and every answer to the retry ends the flow.
pub proof fn lemma_post_relogin_once(path: Seq<char>, e: PostEventView)
    ensures
        spec_post_step(path, PostStage::First, e) is Login ==> (e matches PostEventView::Sent(Some((code, _))) && code == 403),
        e is Sent ==> spec_post_step(path, PostStage::Retry, e) is Finished,
        spec_post_step(path, PostStage::Retry, e) !is Login,
{
}

/// A POST succeeds only on a 2xx answer.
pub proof fn lemma_post_success_needs_2xx(path: Seq<char>, stage: PostStage, e: PostEventView)
    ensures
        spec_post_step(path, stage, e) == PostNextView::Finished(Ok(()))
            ==> (e matches PostEventView::Sent(Some((code, _))) && is_success(code)),
{
}

/// Counting logs in again at most once: only a 403 to the first attempt leads to
/// a re-login, and every answer to the retry ends the flow.
pub proof fn lemma_count_relogin_once(e: CountEventView)
    ensures
        spec_count_step(CountStage::First, e) is Login ==> (e matches CountEventView::Sent(Some((code, _))) && code == 403),
        e is Sent ==> spec_count_step(CountStage::Retry, e) is Finished,
        spec_count_step(CountStage::Retry, e) !is Login,
{
}

} // verus!
