use vstd::prelude::*;
use crate::error::TempestError;
use crate::uri::pairs_view;
use crate::text::{
    chars_of, decimal, u32_decimal, contains, find, is_white_space, is_whitespace, occurs_at, owned, push_str,
    str_eq, string_of_range,
};

verus! {

/// What a login attempt yields: a session, or a second factor to ask for.
#[derive(Debug, PartialEq, Eq)]
pub enum LoginStep {
    Session(String),
    Needs2fa { pending_token: String },
}

/// The `session_token` cookie among `cookies` (name, value): the last one
/// set wins.
pub open spec fn session_cookie(cookies: Seq<(String, String)>) -> Option<Seq<char>>
    decreases cookies.len(),
{
    if cookies.len() == 0 {
        None
    } else if cookies.last().0@ == "session_token"@ {
        Some(cookies.last().1@)
    } else {
        session_cookie(cookies.drop_last())
    }
}

/// The session token that a response set, from its cookies in order.
pub fn session_token_from(cookies: &Vec<(String, String)>) -> (r: Option<String>)
    ensures
        match r {
            Some(t) => session_cookie(cookies@) == Some(t@),
            None => session_cookie(cookies@) is None,
        },
{
    let mut r: Option<String> = None;
    let mut i: usize = 0;
    while i < cookies.len()
        invariant
            0 <= i <= cookies.len(),
            match r {
                Some(t) => session_cookie(cookies@.take(i as int)) == Some(t@),
                None => session_cookie(cookies@.take(i as int)) is None,
            },
        decreases cookies.len() - i,
    {
        assert(cookies@.take(i + 1).drop_last() =~= cookies@.take(i as int));
        if str_eq(&cookies[i].0, "session_token") {
            r = Some(cookies[i].1.clone());
        }
        i = i + 1;
    }
    assert(cookies@.take(i as int) =~= cookies@);
    r
}

// ---------------------------------------------------------------------------
// The requests to the Vortex site
// ---------------------------------------------------------------------------

fn joined(a: &str, b: &str) -> (r: String)
    ensures
        r@ == a@ + b@,
{
    let mut r = owned(a);
    push_str(&mut r, b);
    r
}

fn pair(k: &str, v: &str) -> (r: (String, String))
    ensures
        r.0@ == k@,
        r.1@ == v@,
{
    (owned(k), owned(v))
}

/// The fields that every login form carries after its own.
pub open spec fn fingerprint_fields() -> Seq<(Seq<char>, Seq<char>)> {
    seq![("fingerprint"@, Seq::<char>::empty()), ("fp_token"@, Seq::<char>::empty())]
}

/// The username/password request: the URL to POST to and its form fields.
pub fn login_request(username: &str, password: &str) -> (r: (String, Vec<(String, String)>))
    ensures
        r.0@ == "https://playvortex.io/login"@,
        pairs_view(r.1@) == seq![("username"@, username@), ("password"@, password@)]
            + fingerprint_fields(),
{
    let mut form: Vec<(String, String)> = Vec::new();
    form.push(pair("username", username));
    form.push(pair("password", password));
    form.push(pair("fingerprint", ""));
    form.push(pair("fp_token", ""));
    proof {
        reveal_strlit("");
        assert(""@ =~= Seq::<char>::empty());
    }
    assert(pairs_view(form@) =~= seq![("username"@, username@), ("password"@, password@)]
        + fingerprint_fields());
    (owned("https://playvortex.io/login"), form)
}

/// The second-factor request: the URL to POST to and its form fields.
pub fn second_factor_request(pending_token: &str, code: &str) -> (r: (
    String,
    Vec<(String, String)>,
))
    ensures
        r.0@ == "https://playvortex.io/login/2fa"@,
        pairs_view(r.1@) == seq![("code"@, code@), ("pending_token"@, pending_token@)]
            + fingerprint_fields(),
{
    let mut form: Vec<(String, String)> = Vec::new();
    form.push(pair("code", code));
    form.push(pair("pending_token", pending_token));
    form.push(pair("fingerprint", ""));
    form.push(pair("fp_token", ""));
    proof {
        reveal_strlit("");
        assert(""@ =~= Seq::<char>::empty());
    }
    assert(pairs_view(form@) =~= seq![("code"@, code@), ("pending_token"@, pending_token@)]
        + fingerprint_fields());
    (owned("https://playvortex.io/login/2fa"), form)
}

/// The play-page request for a game: the URL to GET and the `Cookie`
/// header that carries the session.
pub fn play_page_request(session_token: &str, game_id: u32) -> (r: (String, String))
    ensures
        r.0@ == "https://playvortex.io/games/"@ + decimal(game_id as nat) + "/play"@,
        r.1@ == "session_token="@ + session_token@,
{
    let id = u32_decimal(game_id);
    let mut url = joined("https://playvortex.io/games/", &id);
    push_str(&mut url, "/play");
    (url, joined("session_token=", session_token))
}

// ---------------------------------------------------------------------------
// JSON fields of a response body
// ---------------------------------------------------------------------------

/// `serde_json::from_str::<Value>(body)` then `get(key)` and `as_bool`.
pub uninterp spec fn json_bool_at(body: Seq<char>, key: Seq<char>) -> Option<bool>;

/// `serde_json::from_str::<Value>(body)` then `get(key)` and `as_str`.
pub uninterp spec fn json_str_at(body: Seq<char>, key: Seq<char>) -> Option<Seq<char>>;

/// The boolean field `key` of the JSON object in `body` (`serde_json`).
/// The result is the name `json_bool_at`; the JSON grammar is not stated.
#[verifier::external_body]
fn json_bool_field(body: &str, key: &str) -> (r: Option<bool>)
    ensures
        r == json_bool_at(body@, key@),
{
    serde_json::from_str::<serde_json::Value>(body).ok().and_then(|v| v.get(key).and_then(|x| x.as_bool()))
}

/// The string field `key` of the JSON object in `body` (`serde_json`).
/// The result is the name `json_str_at`; the JSON grammar is not stated.
#[verifier::external_body]
pub(crate) fn json_str_field(body: &str, key: &str) -> (r: Option<String>)
    ensures
        match r {
            Some(s) => json_str_at(body@, key@) == Some(s@),
            None => json_str_at(body@, key@) is None,
        },
{
    serde_json::from_str::<serde_json::Value>(body).ok().and_then(
        |v| v.get(key).and_then(|x| x.as_str()).map(|s| s.to_string()),
    )
}

/// The `detail` message of an error body, else `fallback`.
pub open spec fn detail_or(body: Seq<char>, fallback: Seq<char>) -> Seq<char> {
    match json_str_at(body, "detail"@) {
        Some(d) => d,
        None => fallback,
    }
}

fn detail_or_exec(body: &str, fallback: &str) -> (r: String)
    ensures
        r@ == detail_or(body@, fallback@),
{
    match json_str_field(body, "detail") {
        Some(d) => d,
        None => owned(fallback),
    }
}

/// Both credentials were entered.
pub fn credentials_given(username: &str, password: &str) -> (r: bool)
    ensures
        r == (username@.len() > 0 && password@.len() > 0),
{
    !username.is_empty() && !password.is_empty()
}

/// The outcome of the username/password request, from its status, the
/// session cookie it set and its body: a session when it succeeded with a
/// cookie; a second factor when it succeeded and the body asks for one with
/// a pending token; else an authentication error, with the server's
/// `detail` when it failed.
pub fn login_direct_outcome(success: bool, session: Option<String>, body: &str) -> (r: Result<
    LoginStep,
    TempestError,
>)
    ensures
        success && session is Some ==> r == Ok::<LoginStep, TempestError>(
            LoginStep::Session(session.unwrap()),
        ),
        success && session is None ==> match r {
            Ok(LoginStep::Needs2fa { pending_token }) => json_bool_at(body@, "requires_2fa"@)
                == Some(true) && json_str_at(body@, "pending_token"@) == Some(pending_token@),
            Err(TempestError::AuthError(m)) => !(json_bool_at(body@, "requires_2fa"@) == Some(
                true) && json_str_at(body@, "pending_token"@) is Some) && m@
                == "server accepted login but set no session_token cookie"@,
            _ => false,
        },
        !success ==> (r matches Err(TempestError::AuthError(m)) && m@ == detail_or(
            body@,
            "invalid username or password"@,
        )),
{
    if success {
        if let Some(token) = session {
            return Ok(LoginStep::Session(token));
        }
        if json_bool_field(body, "requires_2fa") == Some(true) {
            if let Some(pending_token) = json_str_field(body, "pending_token") {
                return Ok(LoginStep::Needs2fa { pending_token });
            }
        }
        return Err(
            TempestError::AuthError(owned("server accepted login but set no session_token cookie")),
        );
    }
    Err(TempestError::AuthError(detail_or_exec(body, "invalid username or password")))
}

/// The outcome of the second-factor request: the session token when the
/// request succeeded (or redirected) and set the cookie, else an
/// authentication error with the server's `detail`.
pub fn login_2fa_outcome(success_or_redirect: bool, session: Option<String>, body: &str) -> (r:
    Result<String, TempestError>)
    ensures
        success_or_redirect && session is Some ==> r == Ok::<String, TempestError>(
            session.unwrap(),
        ),
        !(success_or_redirect && session is Some) ==> (r matches Err(TempestError::AuthError(m))
            && m@ == detail_or(body@, "invalid or expired code"@)),
{
    if success_or_redirect {
        if let Some(token) = session {
            return Ok(token);
        }
    }
    Err(TempestError::AuthError(detail_or_exec(body, "invalid or expired code")))
}

// ---------------------------------------------------------------------------
// The play page
// ---------------------------------------------------------------------------

/// A character that ends the URI in the play page.
pub open spec fn uri_stop(c: char) -> bool {
    c == '"' || c == '\'' || is_white_space(c)
}

/// The first position in `s` at or after `from` holding a stop character,
/// or the length.
pub open spec fn first_stop(s: Seq<char>, from: int) -> int
    decreases s.len() - from,
{
    if from >= s.len() {
        s.len() as int
    } else if uri_stop(s[from]) {
        from
    } else {
        first_stop(s, from + 1)
    }
}

/// The first `vortex://` URI in the page: from the first `vortex://` up to
/// the next quote, apostrophe or white space.
pub open spec fn page_uri(html: Seq<char>) -> Option<Seq<char>> {
    if contains(html, "vortex://"@) {
        let i = choose|i: int|
            occurs_at(html, "vortex://"@, i) && forall|j: int|
                0 <= j < i ==> !occurs_at(html, "vortex://"@, j);
        Some(html.subrange(i, first_stop(html, i)))
    } else {
        None
    }
}

proof fn lemma_first_stop(s: Seq<char>, from: int)
    requires
        0 <= from <= s.len(),
    ensures
        from <= first_stop(s, from) <= s.len(),
    decreases s.len() - from,
{
    if from < s.len() && !uri_stop(s[from]) {
        lemma_first_stop(s, from + 1);
    }
}

/// Extracts the play URI from the play page.
pub fn extract_play_uri(html: &str) -> (r: Option<String>)
    ensures
        match r {
            Some(u) => page_uri(html@) == Some(u@),
            None => page_uri(html@) is None,
        },
{
    let v = chars_of(html);
    let pat = chars_of("vortex://");
    match find(&v, &pat) {
        Some(i) => {
            let ghost k = choose|k: int|
                occurs_at(html@, "vortex://"@, k) && forall|j: int|
                    0 <= j < k ==> !occurs_at(html@, "vortex://"@, j);
            proof {
                if k < i {
                } else if k > i {
                    assert(!occurs_at(html@, "vortex://"@, i as int));
                }
                assert(k == i);
            }
            let vlen = v.len();
            assert(i <= vlen);
            let mut e = i;
            while e < v.len() && !(v[e] == '"' || v[e] == '\'' || is_whitespace(v[e]))
                invariant
                    i <= e <= v.len(),
                    v@ == html@,
                    first_stop(html@, i as int) == first_stop(html@, e as int),
                decreases v.len() - e,
            {
                e = e + 1;
            }
            proof {
                lemma_first_stop(html@, e as int);
            }
            Some(string_of_range(&v, i, e))
        },
        None => None,
    }
}

/// The play URI from the play page's response: a redirect or a failure is
/// an authentication error naming the status; otherwise the page must hold
/// a `vortex://` URI.
pub fn play_uri_from_page(redirect: bool, success: bool, status: &str, html: &str) -> (r: Result<
    String,
    TempestError,
>)
    ensures
        redirect ==> (r matches Err(TempestError::AuthError(m)) && m@
            == "Play page redirected (HTTP "@ + status@
            + ") - session may be expired. Run tempest login."@),
        !redirect && !success ==> (r matches Err(TempestError::AuthError(m)) && m@
            == "Failed to fetch play page: "@ + status@),
        !redirect && success ==> match r {
            Ok(u) => page_uri(html@) == Some(u@),
            Err(TempestError::AuthError(m)) => page_uri(html@) is None && m@
                == "Could not find vortex:// URI in play page. Is the session token valid?"@,
            _ => false,
        },
{
    if redirect {
        let mut m = owned("Play page redirected (HTTP ");
        push_str(&mut m, status);
        push_str(&mut m, ") - session may be expired. Run tempest login.");
        return Err(TempestError::AuthError(m));
    }
    if !success {
        let mut m = owned("Failed to fetch play page: ");
        push_str(&mut m, status);
        return Err(TempestError::AuthError(m));
    }
    match extract_play_uri(html) {
        Some(u) => Ok(u),
        None => Err(
            TempestError::AuthError(
                owned("Could not find vortex:// URI in play page. Is the session token valid?"),
            ),
        ),
    }
}


// ---------------------------------------------------------------------------
// The login conversation
// ---------------------------------------------------------------------------

/// Where the login conversation stands.
#[derive(Debug, PartialEq, Eq)]
pub enum LoginState {
    /// Waiting for the username and password.
    Start,
    /// The username/password request is out.
    AwaitLogin { username: String },
    /// Waiting for the second-factor code.
    AwaitCode { username: String, pending_token: String },
    /// The second-factor request is out.
    AwaitSecondFactor { username: String },
    /// The session is being saved.
    Saving { username: String },
    /// The conversation is over.
    Finished,
}

/// What the terminal or the server answered.
#[derive(Debug, PartialEq, Eq)]
pub enum LoginEvent {
    Credentials { username: String, password: String },
    LoginReply { success: bool, session: Option<String>, body: String },
    Code { code: String },
    SecondFactorReply { success_or_redirect: bool, session: Option<String>, body: String },
    Saved { error: Option<String> },
}

/// What to do next.
#[derive(Debug, PartialEq, Eq)]
pub enum LoginAction {
    /// Send the username/password request.
    SendLogin { username: String, password: String },
    /// Announce the second factor and prompt for the code.
    AskCode,
    /// Send the second-factor request.
    SendSecondFactor { pending_token: String, code: String },
    /// Store the session in the configuration.
    SaveSession { username: String, token: String },
    /// Report success.
    Done { username: String },
    /// Report a failure; `logged` failures also go to the log.
    Fail { message: String, logged: bool },
    /// The event does not fit the state; nothing to do.
    Ignore,
}

pub open spec fn error_text(e: TempestError) -> Seq<char> {
    match e {
        TempestError::AuthError(m) => m@,
        TempestError::ConfigError(m) => m@,
        TempestError::NetworkError(m) => m@,
        TempestError::IoError(m) => m@,
        TempestError::Other(m) => m@,
    }
}

pub open spec fn fail_is(a: LoginAction, message: Seq<char>, logged: bool) -> bool {
    a matches LoginAction::Fail { message: m, logged: l } && m@ == message && l == logged
}

/// One step of the login conversation: the next state and action for an
/// event in a state.
pub open spec fn login_step_is(
    s: LoginState,
    e: LoginEvent,
    next: LoginState,
    a: LoginAction,
) -> bool {
    match (s, e) {
        (LoginState::Start, LoginEvent::Credentials { username, password }) => {
            if username@.len() > 0 && password@.len() > 0 {
                next == LoginState::AwaitLogin { username } && a == LoginAction::SendLogin {
                    username,
                    password,
                }
            } else {
                next == LoginState::Finished && fail_is(a, "Username and password required."@, false)
            }
        },
        (LoginState::AwaitLogin { username }, LoginEvent::LoginReply { success, session, body }) => {
            if success && session is Some {
                next == LoginState::Saving { username } && a == LoginAction::SaveSession {
                    username,
                    token: session.unwrap(),
                }
            } else if success && json_bool_at(body@, "requires_2fa"@) == Some(true) && json_str_at(
                body@,
                "pending_token"@,
            ) is Some {
                next matches LoginState::AwaitCode { username: u, pending_token: p } && u == username
                    && p@ == json_str_at(body@, "pending_token"@).unwrap() && a == LoginAction::AskCode
            } else {
                next == LoginState::Finished && fail_is(
                    a,
                    "Login failed: "@ + if success {
                        "server accepted login but set no session_token cookie"@
                    } else {
                        detail_or(body@, "invalid username or password"@)
                    },
                    true,
                )
            }
        },
        (LoginState::AwaitCode { username, pending_token }, LoginEvent::Code { code }) => {
            if code@.len() > 0 {
                next == LoginState::AwaitSecondFactor { username } && a
                    == LoginAction::SendSecondFactor { pending_token, code }
            } else {
                next == LoginState::Finished && fail_is(a, "Code required."@, false)
            }
        },
        (
            LoginState::AwaitSecondFactor { username },
            LoginEvent::SecondFactorReply { success_or_redirect, session, body },
        ) => {
            if success_or_redirect && session is Some {
                next == LoginState::Saving { username } && a == LoginAction::SaveSession {
                    username,
                    token: session.unwrap(),
                }
            } else {
                next == LoginState::Finished && fail_is(
                    a,
                    "2FA login failed: "@ + detail_or(body@, "invalid or expired code"@),
                    true,
                )
            }
        },
        (LoginState::Saving { username }, LoginEvent::Saved { error }) => {
            next == LoginState::Finished && match error {
                None => a == LoginAction::Done { username },
                Some(err) => fail_is(a, "Failed to save config: "@ + err@, true),
            }
        },
        (s, _) => next == s && a == LoginAction::Ignore,
    }
}

fn prefixed(prefix: &str, rest: &str) -> (r: String)
    ensures
        r@ == prefix@ + rest@,
{
    let mut r = owned(prefix);
    push_str(&mut r, rest);
    r
}

/// The next state and action of the login conversation.
pub fn login_step(s: LoginState, e: LoginEvent) -> (r: (LoginState, LoginAction))
    ensures
        login_step_is(s, e, r.0, r.1),
{
    match (s, e) {
        (LoginState::Start, LoginEvent::Credentials { username, password }) => {
            if credentials_given(&username, &password) {
                (LoginState::AwaitLogin { username: username.clone() }, LoginAction::SendLogin {
                    username,
                    password,
                })
            } else {
                (
                    LoginState::Finished,
                    LoginAction::Fail {
                        message: owned("Username and password required."),
                        logged: false,
                    },
                )
            }
        },
        (LoginState::AwaitLogin { username }, LoginEvent::LoginReply { success, session, body }) => {
            match login_direct_outcome(success, session, &body) {
                Ok(LoginStep::Session(token)) => (
                    LoginState::Saving { username: username.clone() },
                    LoginAction::SaveSession { username, token },
                ),
                Ok(LoginStep::Needs2fa { pending_token }) => (
                    LoginState::AwaitCode { username, pending_token },
                    LoginAction::AskCode,
                ),
                Err(e) => {
                    let m = e.message();
                    (
                        LoginState::Finished,
                        LoginAction::Fail { message: prefixed("Login failed: ", &m), logged: true },
                    )
                },
            }
        },
        (LoginState::AwaitCode { username, pending_token }, LoginEvent::Code { code }) => {
            if !code.as_str().is_empty() {
                (
                    LoginState::AwaitSecondFactor { username },
                    LoginAction::SendSecondFactor { pending_token, code },
                )
            } else {
                (
                    LoginState::Finished,
                    LoginAction::Fail { message: owned("Code required."), logged: false },
                )
            }
        },
        (
            LoginState::AwaitSecondFactor { username },
            LoginEvent::SecondFactorReply { success_or_redirect, session, body },
        ) => {
            match login_2fa_outcome(success_or_redirect, session, &body) {
                Ok(token) => (
                    LoginState::Saving { username: username.clone() },
                    LoginAction::SaveSession { username, token },
                ),
                Err(e) => {
                    let m = e.message();
                    (
                        LoginState::Finished,
                        LoginAction::Fail {
                            message: prefixed("2FA login failed: ", &m),
                            logged: true,
                        },
                    )
                },
            }
        },
        (LoginState::Saving { username }, LoginEvent::Saved { error }) => match error {
            None => (LoginState::Finished, LoginAction::Done { username }),
            Some(err) => (
                LoginState::Finished,
                LoginAction::Fail { message: prefixed("Failed to save config: ", &err), logged: true },
            ),
        },
        (s, _) => (s, LoginAction::Ignore),
    }
}


/// Characters before the first stop are not stops, and the first stop is a
/// stop character or the end.
proof fn lemma_first_stop_scan(s: Seq<char>, from: int, k: int)
    requires
        0 <= from <= s.len(),
    ensures
        from <= k < first_stop(s, from) ==> !uri_stop(s[k]),
        first_stop(s, from) < s.len() ==> uri_stop(s[first_stop(s, from)]),
    decreases s.len() - from,
{
    if from < s.len() && !uri_stop(s[from]) {
        lemma_first_stop_scan(s, from + 1, k);
    }
}

/// An occurrence of `p` in `s` has a first one.
proof fn lemma_first_occurrence(s: Seq<char>, p: Seq<char>, i: int)
    requires
        occurs_at(s, p, i),
    ensures
        exists|m: int| occurs_at(s, p, m) && forall|j: int| 0 <= j < m ==> !occurs_at(s, p, j),
    decreases i,
{
    if exists|j: int| 0 <= j < i && occurs_at(s, p, j) {
        let j = choose|j: int| 0 <= j < i && occurs_at(s, p, j);
        lemma_first_occurrence(s, p, j);
    }
}

/// No character of `vortex://` ends a URI.
proof fn lemma_prefix_not_stop(html: Seq<char>, i: int, k: int)
    requires
        occurs_at(html, "vortex://"@, i),
        i <= k < i + 9,
    ensures
        !uri_stop(html[k]),
{
    reveal_strlit("vortex://");
    assert(html[k] == html.subrange(i, i + 9)[k - i]);
}

/// The URI cut out at an occurrence `i` of `vortex://`.
proof fn lemma_uri_at(html: Seq<char>, i: int)
    requires
        occurs_at(html, "vortex://"@, i),
    ensures
        i + 9 <= first_stop(html, i) <= html.len(),
        html.subrange(i, first_stop(html, i)).subrange(0, 9) == "vortex://"@,
        forall|k: int|
            0 <= k < first_stop(html, i) - i ==> #[trigger] html.subrange(i, first_stop(html, i))[k]
                != '"' && html[i + k] != '\'' && !is_white_space(html[i + k]),
        first_stop(html, i) == html.len() || html[first_stop(html, i)] == '"' || html[first_stop(
            html,
            i,
        )] == '\'' || is_white_space(html[first_stop(html, i)]),
{
    reveal_strlit("vortex://");
    let e = first_stop(html, i);
    lemma_first_stop(html, i);
    lemma_first_stop_scan(html, i, 0);
    if e < i + 9 {
        lemma_prefix_not_stop(html, i, e);
    }
    let u = html.subrange(i, e);
    assert(u.subrange(0, 9) =~= html.subrange(i, i + 9));
    assert forall|k: int| 0 <= k < e - i implies #[trigger] u[k] != '"' && html[i + k] != '\''
        && !is_white_space(html[i + k]) by {
        lemma_first_stop_scan(html, i, i + k);
    }
}

/// The play URI taken from a page starts with `vortex://`, holds no quote,
/// apostrophe or white space, and is cut at the first `vortex://` of the
/// page right before a quote, an apostrophe, white space or the end.
#[verifier::rlimit(40)]
pub proof fn lemma_page_uri_shape(html: Seq<char>)
    ensures
        page_uri(html) matches Some(u) ==> {
            &&& u.len() >= 9
            &&& u.subrange(0, 9) == "vortex://"@
            &&& forall|k: int|
                0 <= k < u.len() ==> #[trigger] u[k] != '"' && u[k] != '\'' && !is_white_space(
                    u[k],
                )
            &&& exists|i: int|
                #![trigger occurs_at(html, "vortex://"@, i)]
                occurs_at(html, "vortex://"@, i) && (forall|j: int|
                    0 <= j < i ==> !occurs_at(html, "vortex://"@, j)) && html.subrange(
                    i,
                    i + u.len(),
                ) == u && (i + u.len() == html.len() || html[i + u.len()] == '"' || html[i
                    + u.len()] == '\'' || is_white_space(html[i + u.len()]))
        },
{
    if contains(html, "vortex://"@) {
        let w = choose|i: int| occurs_at(html, "vortex://"@, i);
        lemma_first_occurrence(html, "vortex://"@, w);
        let i = choose|i: int|
            occurs_at(html, "vortex://"@, i) && forall|j: int|
                0 <= j < i ==> !occurs_at(html, "vortex://"@, j);
        lemma_uri_at(html, i);
        let e = first_stop(html, i);
        let u = html.subrange(i, e);
        assert(page_uri(html) == Some(u));
        assert forall|k: int| 0 <= k < u.len() implies #[trigger] u[k] != '"' && u[k] != '\''
            && !is_white_space(u[k]) by {
            assert(u[k] == html[i + k]);
        }
        assert(html.subrange(i, i + u.len()) == u);
        assert(occurs_at(html, "vortex://"@, i) && (forall|j: int|
            0 <= j < i ==> !occurs_at(html, "vortex://"@, j)) && html.subrange(i, i + u.len())
            == u && (i + u.len() == html.len() || html[i + u.len()] == '"' || html[i + u.len()]
            == '\'' || is_white_space(html[i + u.len()])));
    }
}

/// A login request is sent only with both a username and a password; with
/// either missing the conversation ends with an error that is not logged.
pub proof fn lemma_login_needs_credentials(
    username: String,
    password: String,
    n: LoginState,
    a: LoginAction,
)
    requires
        login_step_is(LoginState::Start, LoginEvent::Credentials { username, password }, n, a),
    ensures
        a is SendLogin ==> username@.len() > 0 && password@.len() > 0,
        (username@.len() == 0 || password@.len() == 0) ==> n == LoginState::Finished,
        (username@.len() == 0 || password@.len() == 0) ==> (a matches LoginAction::Fail {
            logged,
            ..
        } && !logged),
{
}

/// The token stored after a login is always the session cookie that the
/// server set in the reply just received.
pub proof fn lemma_saved_token_from_server(s: LoginState, e: LoginEvent, n: LoginState, a: LoginAction)
    requires
        login_step_is(s, e, n, a),
    ensures
        a matches LoginAction::SaveSession { token, .. } ==> ((e matches LoginEvent::LoginReply {
            session,
            ..
        } && session == Some(token)) || (e matches LoginEvent::SecondFactorReply {
            session,
            ..
        } && session == Some(token))),
{
}

/// A finished conversation stays finished and does nothing more.
pub proof fn lemma_finished_stays(e: LoginEvent, n: LoginState, a: LoginAction)
    requires
        login_step_is(LoginState::Finished, e, n, a),
    ensures
        n == LoginState::Finished,
        a == LoginAction::Ignore,
{
}

} // verus!
