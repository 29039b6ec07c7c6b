use tempest::auth::{login_step, LoginAction, LoginEvent, LoginState};
use tempest::install::{install_step, InstallEvent, InstallOp, InstallState, NoteKind};
use tempest::release::ReleaseChoice;
use tempest::TempestError;

#[test]
fn login_with_second_factor() {
    let (s, a) = login_step(
        LoginState::Start,
        LoginEvent::Credentials { username: "ann".into(), password: "pw".into() },
    );
    assert_eq!(a, LoginAction::SendLogin { username: "ann".into(), password: "pw".into() });
    let (s, a) = login_step(
        s,
        LoginEvent::LoginReply {
            success: true,
            session: None,
            body: r#"{"requires_2fa":true,"pending_token":"pt"}"#.into(),
        },
    );
    assert_eq!(a, LoginAction::AskCode);
    let (s, a) = login_step(s, LoginEvent::Code { code: "123456".into() });
    assert_eq!(a, LoginAction::SendSecondFactor { pending_token: "pt".into(), code: "123456".into() });
    let (s, a) = login_step(
        s,
        LoginEvent::SecondFactorReply { success_or_redirect: true, session: Some("tok".into()), body: String::new() },
    );
    assert_eq!(a, LoginAction::SaveSession { username: "ann".into(), token: "tok".into() });
    let (s, a) = login_step(s, LoginEvent::Saved { error: None });
    assert_eq!(a, LoginAction::Done { username: "ann".into() });
    assert_eq!(s, LoginState::Finished);
    let (s, a) = login_step(s, LoginEvent::Code { code: "x".into() });
    assert_eq!((s, a), (LoginState::Finished, LoginAction::Ignore));
}

#[test]
fn login_failures() {
    let (s, a) = login_step(
        LoginState::Start,
        LoginEvent::Credentials { username: String::new(), password: "pw".into() },
    );
    assert_eq!(s, LoginState::Finished);
    assert_eq!(a, LoginAction::Fail { message: "Username and password required.".into(), logged: false });
    let (_, a) = login_step(
        LoginState::AwaitLogin { username: "a".into() },
        LoginEvent::LoginReply { success: false, session: None, body: "{}".into() },
    );
    assert_eq!(a, LoginAction::Fail { message: "Login failed: invalid username or password".into(), logged: true });
    let (_, a) = login_step(
        LoginState::AwaitCode { username: "a".into(), pending_token: "p".into() },
        LoginEvent::Code { code: String::new() },
    );
    assert_eq!(a, LoginAction::Fail { message: "Code required.".into(), logged: false });
    let (_, a) = login_step(
        LoginState::Saving { username: "a".into() },
        LoginEvent::Saved { error: Some("disk full".into()) },
    );
    assert_eq!(a, LoginAction::Fail { message: "Failed to save config: disk full".into(), logged: true });
}

fn choice(checksum: Option<&str>) -> ReleaseChoice {
    ReleaseChoice {
        tag: "GE-Proton10-1".into(),
        archive_url: "https://x/a.tar.gz".into(),
        checksum_url: checksum.map(String::from),
    }
}

#[test]
fn install_happy_path() {
    let (s, notes, op) = install_step(InstallState::Resolving, InstallEvent::Resolved { release: Ok(choice(Some("https://x/s"))) });
    assert!(notes.is_empty());
    assert_eq!(op, InstallOp::CheckArchive { file_name: "GE-Proton10-1.tar.gz".into() });
    let (s, _, op) = install_step(s, InstallEvent::ArchiveChecked { present: false });
    assert_eq!(op, InstallOp::Download { url: "https://x/a.tar.gz".into() });
    let (s, _, op) = install_step(s, InstallEvent::Downloaded { error: None });
    assert_eq!(op, InstallOp::Verify { url: "https://x/s".into() });
    let (s, notes, op) = install_step(s, InstallEvent::Verified { checked: Ok(true) });
    assert_eq!(notes[0].text, "Checksum verified.");
    assert_eq!(op, InstallOp::Extract);
    let (s, notes, op) = install_step(s, InstallEvent::Extracted { unpacked: Ok(Some("GE-Proton10-1".into())) });
    assert_eq!(notes[0].text, "Extracted GE-Proton10-1");
    assert_eq!(op, InstallOp::SaveConfig);
    let (_, notes, op) = install_step(s, InstallEvent::Saved { error: None });
    assert_eq!(notes[0].kind, NoteKind::Done);
    assert_eq!(notes[0].text, "Proton enabled in config.");
    assert_eq!(op, InstallOp::Stop);
}

#[test]
fn install_stops_on_mismatch_and_skips_missing_checksum() {
    let (s, notes, op) = install_step(
        InstallState::Fetching { choice: choice(None) },
        InstallEvent::ArchiveChecked { present: true },
    );
    assert_eq!(notes.len(), 2);
    assert_eq!(notes[0].text, "GE-Proton10-1 already downloaded.");
    assert_eq!(notes[1].text, "No checksum asset published; skipping verification.");
    assert_eq!(op, InstallOp::Extract);
    let _ = s;
    let (_, notes, op) = install_step(InstallState::Verifying, InstallEvent::Verified { checked: Ok(false) });
    assert_eq!(notes[0].kind, NoteKind::Error);
    assert_eq!(op, InstallOp::Stop);
    let (_, notes, op) = install_step(
        InstallState::Verifying,
        InstallEvent::Verified { checked: Err(TempestError::NetworkError("timeout".into())) },
    );
    assert_eq!(notes[0].text, "Could not verify checksum (continuing): timeout");
    assert_eq!(op, InstallOp::Extract);
    let (_, notes, op) = install_step(
        InstallState::Downloading { choice: choice(None) },
        InstallEvent::Downloaded { error: Some("404".into()) },
    );
    assert_eq!(notes[0].text, "Download failed: 404");
    assert_eq!(op, InstallOp::RemoveArchive);
    let (_, notes, op) = install_step(
        InstallState::Resolving,
        InstallEvent::Resolved { release: Err(TempestError::Other("no assets in release".into())) },
    );
    assert_eq!(notes[0].text, "Failed to resolve GE-Proton release: no assets in release");
    assert_eq!(op, InstallOp::Stop);
}
