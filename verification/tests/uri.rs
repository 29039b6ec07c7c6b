use tempest::uri::{build_uri, parse_vortex_uri, redact};

#[test]
fn parse_valid_uri() {
    let result = parse_vortex_uri("vortex://play?game=4&token=abc123");
    assert_eq!(result, Some((4, "abc123".to_string())));
}

#[test]
fn parse_invalid_scheme() {
    assert!(parse_vortex_uri("http://example.com").is_none());
}

#[test]
fn parse_missing_token() {
    assert!(parse_vortex_uri("vortex://play?game=4").is_none());
}

#[test]
fn build_uri_encodes_token() {
    let uri = build_uri(4, "abc+def/ghi=j&k#");
    assert_eq!(uri, "vortex://play?game=4&token=abc%2Bdef%2Fghi%3Dj%26k%23");
    let (id, token) = parse_vortex_uri(&uri).unwrap();
    assert_eq!(id, 4);
    assert_eq!(token, "abc+def/ghi=j&k#");
}

#[test]
fn redact_masks_token() {
    let uri = build_uri(7, "secret");
    assert_eq!(redact(&uri), "vortex://play?game=7&token=<redacted>");
    assert!(!redact(&uri).contains("secret"));
}

#[test]
fn parse_takes_last_game_and_token() {
    assert_eq!(
        parse_vortex_uri("vortex://play?game=1&token=a&game=%2B22&token=b"),
        Some((22, "b".to_string()))
    );
}

#[test]
fn parse_rejects_bad_game_id() {
    assert!(parse_vortex_uri("vortex://play?game=x&token=a").is_none());
    assert!(parse_vortex_uri("vortex://play?game=4294967296&token=a").is_none());
    assert_eq!(
        parse_vortex_uri("vortex://play?game=4294967295&token=a"),
        Some((4294967295, "a".to_string()))
    );
}

#[test]
fn parse_decodes_plus_and_percent() {
    assert_eq!(
        parse_vortex_uri("vortex://play?token=a+b%21&game=3"),
        Some((3, "a b!".to_string()))
    );
}

#[test]
fn parse_rejects_garbage() {
    assert!(parse_vortex_uri("not a url").is_none());
}

#[test]
fn build_uri_round_trips_unicode() {
    let token = "ünï cødé ✓";
    let uri = build_uri(123, token);
    assert_eq!(parse_vortex_uri(&uri), Some((123, token.to_string())));
}

#[test]
fn build_uri_encodes_space_as_plus() {
    assert_eq!(build_uri(0, "a b"), "vortex://play?game=0&token=a+b");
}

#[test]
fn redact_without_play_uri() {
    assert_eq!(redact("https://x/?token=abc&y=1"), "https://x/?token=<redacted>");
    assert_eq!(redact("garbage"), "<invalid vortex:// uri>");
}

#[test]
fn redaction_hides_token_in_any_play_uri() {
    let a = redact(&build_uri(9, "one"));
    let b = redact(&build_uri(9, "two"));
    assert_eq!(a, b);
}
