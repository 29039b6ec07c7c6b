use tempest::auth::{login_request, play_page_request, second_factor_request};
use tempest::auth::{
    credentials_given, extract_play_uri, login_2fa_outcome, login_direct_outcome,
    play_uri_from_page, session_token_from, LoginStep,
};
use tempest::TempestError;

fn cookies(list: &[(&str, &str)]) -> Vec<(String, String)> {
    list.iter().map(|(a, b)| (a.to_string(), b.to_string())).collect()
}

#[test]
fn last_session_cookie_wins() {
    let c = cookies(&[("session_token", "a"), ("other", "x"), ("session_token", "b")]);
    assert_eq!(session_token_from(&c), Some("b".to_string()));
    assert_eq!(session_token_from(&cookies(&[("x", "y")])), None);
}

#[test]
fn direct_login_outcomes() {
    assert_eq!(
        login_direct_outcome(true, Some("tok".into()), ""),
        Ok(LoginStep::Session("tok".into()))
    );
    assert_eq!(
        login_direct_outcome(true, None, r#"{"requires_2fa": true, "pending_token": "p1"}"#),
        Ok(LoginStep::Needs2fa { pending_token: "p1".into() })
    );
    assert_eq!(
        login_direct_outcome(true, None, r#"{"requires_2fa": false}"#),
        Err(TempestError::AuthError("server accepted login but set no session_token cookie".into()))
    );
    assert_eq!(
        login_direct_outcome(false, None, r#"{"detail": "locked"}"#),
        Err(TempestError::AuthError("locked".into()))
    );
    assert_eq!(
        login_direct_outcome(false, Some("t".into()), "oops"),
        Err(TempestError::AuthError("invalid username or password".into()))
    );
}

#[test]
fn second_factor_outcomes() {
    assert_eq!(login_2fa_outcome(true, Some("t".into()), ""), Ok("t".to_string()));
    assert_eq!(
        login_2fa_outcome(true, None, r#"{"detail":"bad code"}"#),
        Err(TempestError::AuthError("bad code".into()))
    );
    assert_eq!(
        login_2fa_outcome(false, Some("t".into()), ""),
        Err(TempestError::AuthError("invalid or expired code".into()))
    );
}

#[test]
fn play_page() {
    let html = r#"<a href="vortex://play?game=4&token=xyz">Play</a>"#;
    assert_eq!(extract_play_uri(html), Some("vortex://play?game=4&token=xyz".to_string()));
    assert_eq!(extract_play_uri("x vortex://a b"), Some("vortex://a".to_string()));
    assert_eq!(extract_play_uri("none here"), None);
    assert_eq!(play_uri_from_page(false, true, "200 OK", html), Ok("vortex://play?game=4&token=xyz".to_string()));
    assert_eq!(
        play_uri_from_page(true, false, "302 Found", html),
        Err(TempestError::AuthError(
            "Play page redirected (HTTP 302 Found) - session may be expired. Run tempest login.".into()
        ))
    );
    assert_eq!(
        play_uri_from_page(false, false, "500 Internal Server Error", html),
        Err(TempestError::AuthError("Failed to fetch play page: 500 Internal Server Error".into()))
    );
    assert_eq!(
        play_uri_from_page(false, true, "200 OK", "<html></html>"),
        Err(TempestError::AuthError(
            "Could not find vortex:// URI in play page. Is the session token valid?".into()
        ))
    );
}

#[test]
fn credentials() {
    assert!(credentials_given("a", "b"));
    assert!(!credentials_given("", "b"));
    assert!(!credentials_given("a", ""));
}

#[test]
fn site_requests() {
    assert_eq!(
        play_page_request("tok", 4),
        ("https://playvortex.io/games/4/play".to_string(), "session_token=tok".to_string())
    );
    let (url, form) = login_request("me", "pw");
    assert_eq!(url, "https://playvortex.io/login");
    let want: Vec<(String, String)> = [("username", "me"), ("password", "pw"), ("fingerprint", ""), ("fp_token", "")]
        .iter().map(|(k, v)| (k.to_string(), v.to_string())).collect();
    assert_eq!(form, want);
    let (url, form) = second_factor_request("pend", "123456");
    assert_eq!(url, "https://playvortex.io/login/2fa");
    let want: Vec<(String, String)> = [("code", "123456"), ("pending_token", "pend"), ("fingerprint", ""), ("fp_token", "")]
        .iter().map(|(k, v)| (k.to_string(), v.to_string())).collect();
    assert_eq!(form, want);
}
