use vstd::prelude::*;
use crate::error::TempestError;
use crate::release::{archive_file_name, ReleaseChoice};
use crate::text::{owned, push_str};

verus! {

/// How a line of the installer's output is marked.
#[derive(Debug, PartialEq, Eq, Clone, Copy)]
pub enum NoteKind {
    Pass,
    Warn,
    Error,
    Done,
}

/// A line the installer prints.
#[derive(Debug, PartialEq, Eq)]
pub struct Note {
    pub kind: NoteKind,
    pub text: String,
}

/// Where the GE-Proton installation stands.
pub enum InstallState {
    /// Asking GitHub for the latest release.
    Resolving,
    /// Looking for an archive downloaded before.
    Fetching { choice: ReleaseChoice },
    /// Downloading the archive.
    Downloading { choice: ReleaseChoice },
    /// Checking the archive against its checksum.
    Verifying,
    /// Unpacking the archive.
    Extracting,
    /// Switching the configuration to the managed install.
    Saving,
    Finished,
}

/// What the outside work found.
pub enum InstallEvent {
    Resolved { release: Result<ReleaseChoice, TempestError> },
    ArchiveChecked { present: bool },
    Downloaded { error: Option<String> },
    Verified { checked: Result<bool, TempestError> },
    Extracted { unpacked: Result<Option<String>, TempestError> },
    Saved { error: Option<String> },
}

/// The outside work to do next.
#[derive(Debug, PartialEq, Eq)]
pub enum InstallOp {
    /// See whether the archive file is already in the install directory.
    CheckArchive { file_name: String },
    Download { url: String },
    /// Remove the partial archive; the installation is over.
    RemoveArchive,
    Verify { url: String },
    Extract,
    /// Enable the managed install in the configuration and save it.
    SaveConfig,
    Stop,
    /// The event does not fit the state.
    Ignore,
}

pub open spec fn note_is(n: Note, kind: NoteKind, text: Seq<char>) -> bool {
    n.kind == kind && n.text@ == text
}

pub open spec fn notes_are(notes: Seq<Note>, expected: Seq<(NoteKind, Seq<char>)>) -> bool {
    notes.len() == expected.len() && forall|i: int|
        0 <= i < notes.len() ==> note_is(#[trigger] notes[i], expected[i].0, expected[i].1)
}

/// After the archive is in place: verify it when a checksum is published,
/// else warn and unpack.
pub open spec fn checksum_step_is(
    c: ReleaseChoice,
    lead: Seq<(NoteKind, Seq<char>)>,
    next: InstallState,
    notes: Seq<Note>,
    op: InstallOp,
) -> bool {
    match c.checksum_url {
        Some(u) => next is Verifying && op == InstallOp::Verify { url: u } && notes_are(
            notes,
            lead,
        ),
        None => next is Extracting && op == InstallOp::Extract && notes_are(
            notes,
            lead.push(
                (NoteKind::Warn, "No checksum asset published; skipping verification."@),
            ),
        ),
    }
}

/// One step of the installation.
pub open spec fn install_step_is(
    s: InstallState,
    e: InstallEvent,
    next: InstallState,
    notes: Seq<Note>,
    op: InstallOp,
) -> bool {
    match (s, e) {
        (InstallState::Resolving, InstallEvent::Resolved { release }) => match release {
            Ok(c) => next == InstallState::Fetching { choice: c } && notes.len() == 0 && (
            op matches InstallOp::CheckArchive { file_name } && file_name@ == c.tag@
                + ".tar.gz"@),
            Err(err) => next is Finished && op == InstallOp::Stop && notes_are(
                notes,
                seq![
                    (NoteKind::Error, "Failed to resolve GE-Proton release: "@ + crate::auth::error_text(err)),
                ],
            ),
        },
        (InstallState::Fetching { choice }, InstallEvent::ArchiveChecked { present }) => {
            if present {
                checksum_step_is(
                    choice,
                    seq![(NoteKind::Pass, choice.tag@ + " already downloaded."@)],
                    next,
                    notes,
                    op,
                )
            } else {
                op == InstallOp::Download { url: choice.archive_url } && notes.len() == 0 && next
                    == InstallState::Downloading { choice }
            }
        },
        (InstallState::Downloading { choice }, InstallEvent::Downloaded { error }) => match error {
            Some(err) => next is Finished && op == InstallOp::RemoveArchive && notes_are(
                notes,
                seq![(NoteKind::Error, "Download failed: "@ + err@)],
            ),
            None => checksum_step_is(choice, seq![], next, notes, op),
        },
        (InstallState::Verifying, InstallEvent::Verified { checked }) => match checked {
            Ok(true) => next is Extracting && op == InstallOp::Extract && notes_are(
                notes,
                seq![(NoteKind::Pass, "Checksum verified."@)],
            ),
            Ok(false) => next is Finished && op == InstallOp::Stop && notes_are(
                notes,
                seq![(NoteKind::Error, "Checksum mismatch - aborting. Try again later."@)],
            ),
            Err(err) => next is Extracting && op == InstallOp::Extract && notes_are(
                notes,
                seq![
                    (NoteKind::Warn, "Could not verify checksum (continuing): "@ + crate::auth::error_text(err)),
                ],
            ),
        },
        (InstallState::Extracting, InstallEvent::Extracted { unpacked }) => match unpacked {
            Ok(Some(v)) => next is Saving && op == InstallOp::SaveConfig && notes_are(
                notes,
                seq![(NoteKind::Done, "Extracted "@ + v@)],
            ),
            Ok(None) => next is Saving && op == InstallOp::SaveConfig && notes_are(
                notes,
                seq![(NoteKind::Done, "Already extracted."@)],
            ),
            Err(err) => next is Finished && op == InstallOp::Stop && notes_are(
                notes,
                seq![(NoteKind::Error, "Extraction failed: "@ + crate::auth::error_text(err))],
            ),
        },
        (InstallState::Saving, InstallEvent::Saved { error }) => next is Finished && op
            == InstallOp::Stop && match error {
            Some(err) => notes_are(
                notes,
                seq![(NoteKind::Warn, "Could not persist config: "@ + err@)],
            ),
            None => notes_are(notes, seq![(NoteKind::Done, "Proton enabled in config."@)]),
        },
        (s, _) => next == s && op == InstallOp::Ignore && notes.len() == 0,
    }
}

fn note(kind: NoteKind, prefix: &str, rest: &str) -> (n: Note)
    ensures
        note_is(n, kind, prefix@ + rest@),
{
    let mut t = owned(prefix);
    push_str(&mut t, rest);
    Note { kind, text: t }
}

fn note1(kind: NoteKind, text: &str) -> (n: Note)
    ensures
        note_is(n, kind, text@),
{
    Note { kind, text: owned(text) }
}

fn checksum_step(c: ReleaseChoice, mut notes: Vec<Note>) -> (r: (InstallState, Vec<Note>, InstallOp))
    ensures
        forall|lead: Seq<(NoteKind, Seq<char>)>|
            notes_are(notes@, lead) ==> checksum_step_is(c, lead, r.0, r.1@, r.2),
{
    let ghost old_notes = notes@;
    match c.checksum_url {
        Some(u) => (InstallState::Verifying, notes, InstallOp::Verify { url: u }),
        None => {
            notes.push(note1(NoteKind::Warn, "No checksum asset published; skipping verification."));
            proof {
                assert forall|lead: Seq<(NoteKind, Seq<char>)>| notes_are(old_notes, lead) implies
                    notes_are(notes@, lead.push(
                        (NoteKind::Warn, "No checksum asset published; skipping verification."@),
                    )) by {
                    assert forall|i: int| 0 <= i < notes@.len() implies note_is(#[trigger] notes@[i],
                        lead.push((NoteKind::Warn, "No checksum asset published; skipping verification."@))[i].0,
                        lead.push((NoteKind::Warn, "No checksum asset published; skipping verification."@))[i].1) by {
                        if i < old_notes.len() {
                            assert(notes@[i] == old_notes[i]);
                        }
                    }
                }
            }
            (InstallState::Extracting, notes, InstallOp::Extract)
        },
    }
}

fn one(n: Note) -> (v: Vec<Note>)
    ensures
        v@ == seq![n],
{
    let mut v = Vec::new();
    v.push(n);
    v
}

/// The next state, lines to print and outside work of the installation.
pub fn install_step(s: InstallState, e: InstallEvent) -> (r: (InstallState, Vec<Note>, InstallOp))
    ensures
        install_step_is(s, e, r.0, r.1@, r.2),
{
    match (s, e) {
        (InstallState::Resolving, InstallEvent::Resolved { release }) => match release {
            Ok(c) => {
                let f = archive_file_name(&c.tag);
                (InstallState::Fetching { choice: c }, Vec::new(), InstallOp::CheckArchive {
                    file_name: f,
                })
            },
            Err(err) => {
                let m = err.message();
                (
                    InstallState::Finished,
                    one(note(NoteKind::Error, "Failed to resolve GE-Proton release: ", &m)),
                    InstallOp::Stop,
                )
            },
        },
        (InstallState::Fetching { choice }, InstallEvent::ArchiveChecked { present }) => {
            if present {
                let n = note(NoteKind::Pass, &choice.tag, " already downloaded.");
                let v = one(n);
                let ghost lead = seq![(NoteKind::Pass, choice.tag@ + " already downloaded."@)];
                assert(notes_are(v@, lead));
                let ghost c = choice;
                let r = checksum_step(choice, v);
                assert(checksum_step_is(c, lead, r.0, r.1@, r.2));
                r
            } else {
                let url = choice.archive_url.clone();
                (InstallState::Downloading { choice }, Vec::new(), InstallOp::Download { url })
            }
        },
        (InstallState::Downloading { choice }, InstallEvent::Downloaded { error }) => match error {
            Some(err) => (
                InstallState::Finished,
                one(note(NoteKind::Error, "Download failed: ", &err)),
                InstallOp::RemoveArchive,
            ),
            None => {
                let v: Vec<Note> = Vec::new();
                let ghost lead = Seq::<(NoteKind, Seq<char>)>::empty();
                assert(notes_are(v@, lead));
                let ghost c = choice;
                let r = checksum_step(choice, v);
                assert(checksum_step_is(c, lead, r.0, r.1@, r.2));
                r
            },
        },
        (InstallState::Verifying, InstallEvent::Verified { checked }) => match checked {
            Ok(true) => (
                InstallState::Extracting,
                one(note1(NoteKind::Pass, "Checksum verified.")),
                InstallOp::Extract,
            ),
            Ok(false) => (
                InstallState::Finished,
                one(note1(NoteKind::Error, "Checksum mismatch - aborting. Try again later.")),
                InstallOp::Stop,
            ),
            Err(err) => {
                let m = err.message();
                (
                    InstallState::Extracting,
                    one(note(NoteKind::Warn, "Could not verify checksum (continuing): ", &m)),
                    InstallOp::Extract,
                )
            },
        },
        (InstallState::Extracting, InstallEvent::Extracted { unpacked }) => match unpacked {
            Ok(Some(v)) => (
                InstallState::Saving,
                one(note(NoteKind::Done, "Extracted ", &v)),
                InstallOp::SaveConfig,
            ),
            Ok(None) => (
                InstallState::Saving,
                one(note1(NoteKind::Done, "Already extracted.")),
                InstallOp::SaveConfig,
            ),
            Err(err) => {
                let m = err.message();
                (
                    InstallState::Finished,
                    one(note(NoteKind::Error, "Extraction failed: ", &m)),
                    InstallOp::Stop,
                )
            },
        },
        (InstallState::Saving, InstallEvent::Saved { error }) => match error {
            Some(err) => (
                InstallState::Finished,
                one(note(NoteKind::Warn, "Could not persist config: ", &err)),
                InstallOp::Stop,
            ),
            None => (
                InstallState::Finished,
                one(note1(NoteKind::Done, "Proton enabled in config.")),
                InstallOp::Stop,
            ),
        },
        (s, _) => (s, Vec::new(), InstallOp::Ignore),
    }
}

/// An archive whose checksum does not match is never unpacked, and the
/// configuration is switched to the managed install only after unpacking
/// succeeded.
pub proof fn lemma_install_safety(s: InstallState, e: InstallEvent, n: InstallState, notes: Seq<Note>, op: InstallOp)
    requires
        install_step_is(s, e, n, notes, op),
    ensures
        (e matches InstallEvent::Verified { checked: Ok(false) }) ==> op != InstallOp::Extract,
        op == InstallOp::SaveConfig ==> (s is Extracting && e matches InstallEvent::Extracted {
            unpacked: Ok(_),
        }),
{
}

/// The release whose archive is now in place: the fetch found it, or the
/// download finished without error.
pub open spec fn archive_in_place(s: InstallState, e: InstallEvent) -> Option<ReleaseChoice> {
    match (s, e) {
        (InstallState::Fetching { choice }, InstallEvent::ArchiveChecked { present: true }) => Some(
            choice,
        ),
        (InstallState::Downloading { choice }, InstallEvent::Downloaded { error: None }) => Some(
            choice,
        ),
        _ => None,
    }
}

/// A published checksum is always checked: once the archive is in place
/// the next work is verifying it against that checksum, and unpacking
/// follows a check, or an archive whose release publishes no checksum.
pub proof fn lemma_published_checksum_checked(
    s: InstallState,
    e: InstallEvent,
    n: InstallState,
    notes: Seq<Note>,
    op: InstallOp,
)
    requires
        install_step_is(s, e, n, notes, op),
    ensures
        archive_in_place(s, e) matches Some(c) ==> (c.checksum_url matches Some(u) ==> (op == (
        InstallOp::Verify { url: u }) && (n is Verifying))),
        op == InstallOp::Extract ==> ((s is Verifying) || (archive_in_place(s, e) matches Some(c)
            && c.checksum_url is None)),
{
}

} // verus!
