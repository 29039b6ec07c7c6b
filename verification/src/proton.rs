use vstd::prelude::*;
use crate::config::{Config, managed_proton, opt_view};
use crate::launcher::{
    apply_common_env, cache_dirs, common_env, dirs_view, env_view, EnvView, HostEnv, LaunchPlan,
};
use crate::paths::{file_name, join, path_file_name, path_join};
use crate::text::{
    chars_of, chars_eq, decimal, owned, starts_with, str_starts_with, string_of, trim, trimmed,
    u8_decimal,
};

verus! {

/// Whether the GE-Proton backend can be used, and if not, why.
#[derive(Debug, PartialEq, Eq)]
pub enum BackendStatus {
    Ready { version: String },
    NotConfigured,
    MissingUmu,
    MissingProton { requested: String },
}

/// The one-line description of each status.
pub open spec fn describe_text(s: BackendStatus) -> Seq<char> {
    match s {
        BackendStatus::Ready { .. } => "ready"@,
        BackendStatus::NotConfigured => "proton disabled in config"@,
        BackendStatus::MissingUmu => "umu-run not found (install umu-launcher)"@,
        BackendStatus::MissingProton { .. } => "GE-Proton not found (run: tempest proton)"@,
    }
}

impl BackendStatus {
    pub fn describe(&self) -> (r: &'static str)
        ensures
            r@ == describe_text(*self),
    {
        match self {
            BackendStatus::Ready { .. } => "ready",
            BackendStatus::NotConfigured => "proton disabled in config",
            BackendStatus::MissingUmu => "umu-run not found (install umu-launcher)",
            BackendStatus::MissingProton { .. } => "GE-Proton not found (run: tempest proton)",
        }
    }
}

/// The directory that holds the managed GE-Proton installs.
pub open spec fn install_dir_spec(data_dir: Seq<char>) -> Seq<char> {
    path_join(data_dir, "proton"@)
}

pub fn install_dir(data_dir: &str) -> (r: String)
    ensures
        r@ == install_dir_spec(data_dir@),
{
    join(data_dir, "proton")
}

// ---------------------------------------------------------------------------
// Managed installs
// ---------------------------------------------------------------------------

/// One entry of the managed install directory.
pub struct ProtonDirEntry {
    pub name: String,
    pub path: String,
    pub is_dir: bool,
    /// Modification time in nanoseconds from the Unix epoch, when readable.
    pub modified: Option<i128>,
}

/// An entry that counts as a GE-Proton install: a directory named
/// `GE-Proton…` whose modification time is known.
pub open spec fn eligible(e: ProtonDirEntry) -> bool {
    e.is_dir && starts_with(e.name@, managed_proton()) && e.modified is Some
}

/// Lexicographic order of character sequences (`Ord` of strings and of
/// file names).
pub open spec fn lex_lt(a: Seq<char>, b: Seq<char>) -> bool
    decreases a.len(),
{
    if b.len() == 0 {
        false
    } else if a.len() == 0 {
        true
    } else if a[0] != b[0] {
        a[0] < b[0]
    } else {
        lex_lt(a.drop_first(), b.drop_first())
    }
}

/// Installs are ordered by modification time, then by name.
pub open spec fn newer(a: ProtonDirEntry, b: ProtonDirEntry) -> bool {
    a.modified.unwrap() > b.modified.unwrap() || (a.modified.unwrap() == b.modified.unwrap()
        && lex_lt(b.name@, a.name@))
}

/// The index of the newest eligible entry among the first `n`; the first
/// one wins among equals.
pub open spec fn newest_index(entries: Seq<ProtonDirEntry>, n: int) -> Option<int>
    decreases n,
{
    if n <= 0 {
        None
    } else {
        let prev = newest_index(entries, n - 1);
        let e = entries[n - 1];
        if eligible(e) && (prev is None || newer(e, entries[prev.unwrap()])) {
            Some(n - 1)
        } else {
            prev
        }
    }
}

/// The path of the newest GE-Proton install among `entries`.
pub open spec fn newest_install(entries: Seq<ProtonDirEntry>) -> Option<Seq<char>> {
    match newest_index(entries, entries.len() as int) {
        Some(i) => Some(entries[i].path@),
        None => None,
    }
}

pub proof fn lemma_lex_total(a: Seq<char>, b: Seq<char>)
    ensures
        a == b || lex_lt(a, b) || lex_lt(b, a),
        !(lex_lt(a, b) && lex_lt(b, a)),
        !lex_lt(a, a),
    decreases a.len(),
{
    if a.len() > 0 && b.len() > 0 && a[0] == b[0] {
        lemma_lex_total(a.drop_first(), b.drop_first());
        if a.drop_first() == b.drop_first() {
            assert(a =~= seq![a[0]] + a.drop_first());
            assert(b =~= seq![b[0]] + b.drop_first());
        }
    }
    if a.len() > 0 {
        lemma_lex_total(a.drop_first(), a.drop_first());
    }
    if a.len() == 0 && b.len() == 0 {
        assert(a =~= b);
    }
}

pub proof fn lemma_lex_trans(a: Seq<char>, b: Seq<char>, c: Seq<char>)
    requires
        lex_lt(a, b),
        lex_lt(b, c),
    ensures
        lex_lt(a, c),
    decreases a.len(),
{
    if a.len() > 0 && b.len() > 0 && c.len() > 0 && a[0] == b[0] && b[0] == c[0] {
        lemma_lex_trans(a.drop_first(), b.drop_first(), c.drop_first());
    }
}

proof fn lemma_newer_trans(a: ProtonDirEntry, b: ProtonDirEntry, c: ProtonDirEntry)
    requires
        newer(a, b),
        newer(b, c),
    ensures
        newer(a, c),
{
    if a.modified.unwrap() == b.modified.unwrap() && b.modified.unwrap() == c.modified.unwrap() {
        lemma_lex_trans(c.name@, b.name@, a.name@);
    }
}

/// The newest install is eligible and no eligible entry is newer; there is
/// none exactly when no entry is eligible.
pub proof fn lemma_newest_index(entries: Seq<ProtonDirEntry>, n: int)
    requires
        0 <= n <= entries.len(),
    ensures
        newest_index(entries, n) is None <==> forall|j: int| 0 <= j < n ==> !eligible(entries[j]),
        newest_index(entries, n) matches Some(i) ==> 0 <= i < n && eligible(entries[i])
            && forall|j: int| 0 <= j < n && eligible(entries[j]) ==> !newer(entries[j], entries[i]),
    decreases n,
{
    if n > 0 {
        lemma_newest_index(entries, n - 1);
        let prev = newest_index(entries, n - 1);
        let e = entries[n - 1];
        if let Some(p) = prev {
            let ep = entries[p];
            lemma_lex_total(e.name@, ep.name@);
            if eligible(e) && newer(e, ep) {
                assert forall|j: int| 0 <= j < n && eligible(entries[j]) implies !newer(
                    entries[j],
                    e,
                ) by {
                    if j == n - 1 {
                        lemma_lex_total(e.name@, e.name@);
                    } else if newer(entries[j], e) {
                        lemma_newer_trans(entries[j], e, ep);
                    }
                }
            } else if eligible(e) {
                assert(!newer(e, ep));
            }
        } else if eligible(e) {
            lemma_lex_total(e.name@, e.name@);
        }
    }
}

fn lex_less(a: &Vec<char>, b: &Vec<char>) -> (r: bool)
    ensures
        r == lex_lt(a@, b@),
{
    let mut i: usize = 0;
    assert(a@.skip(0) =~= a@);
    assert(b@.skip(0) =~= b@);
    while i < a.len() && i < b.len() && a[i] == b[i]
        invariant
            0 <= i <= a.len(),
            i <= b.len(),
            lex_lt(a@, b@) == lex_lt(a@.skip(i as int), b@.skip(i as int)),
        decreases a.len() - i,
    {
        assert(a@.skip(i as int).drop_first() =~= a@.skip(i + 1));
        assert(b@.skip(i as int).drop_first() =~= b@.skip(i + 1));
        i = i + 1;
    }
    if i >= b.len() {
        false
    } else if i >= a.len() {
        true
    } else {
        a[i] < b[i]
    }
}

fn entry_newer(a: &ProtonDirEntry, b: &ProtonDirEntry) -> (r: bool)
    requires
        a.modified is Some,
        b.modified is Some,
    ensures
        r == newer(*a, *b),
{
    let ma = a.modified.unwrap();
    let mb = b.modified.unwrap();
    if ma != mb {
        ma > mb
    } else {
        let an = chars_of(&a.name);
        let bn = chars_of(&b.name);
        lex_less(&bn, &an)
    }
}

fn is_eligible(e: &ProtonDirEntry) -> (r: bool)
    ensures
        r == eligible(*e),
{
    proof {
        reveal_strlit("GE-Proton");
        assert("GE-Proton"@ =~= managed_proton());
    }
    e.is_dir && e.modified.is_some() && str_starts_with(&e.name, "GE-Proton")
}

/// The newest GE-Proton install among the entries of the install
/// directory (the one listing the directory hands them over).
pub fn select_installed_proton(entries: &Vec<ProtonDirEntry>) -> (r: Option<String>)
    ensures
        opt_view(r) == newest_install(entries@),
{
    let mut best: Option<usize> = None;
    let mut i: usize = 0;
    while i < entries.len()
        invariant
            0 <= i <= entries.len(),
            match best {
                Some(b) => newest_index(entries@, i as int) == Some(b as int),
                None => newest_index(entries@, i as int) is None,
            },
        decreases entries.len() - i,
    {
        proof {
            lemma_newest_index(entries@, i as int);
        }
        let e = &entries[i];
        if is_eligible(e) {
            match best {
                None => {
                    best = Some(i);
                },
                Some(b) => {
                    if entry_newer(e, &entries[b]) {
                        best = Some(i);
                    }
                },
            }
        }
        i = i + 1;
    }
    proof {
        lemma_newest_index(entries@, i as int);
    }
    match best {
        Some(b) => Some(entries[b].path.clone()),
        None => None,
    }
}

// ---------------------------------------------------------------------------
// Probing the backend
// ---------------------------------------------------------------------------

/// `Path::is_file`.  What it returns depends on the file system; nothing is
/// stated of it.
#[verifier::external_body]
fn is_file(p: &Vec<char>) -> bool {
    std::path::Path::new(&p.iter().collect::<String>()).is_file()
}

/// `Path::is_dir`.  What it returns depends on the file system; nothing is
/// stated of it.
#[verifier::external_body]
fn is_dir(p: &Vec<char>) -> bool {
    std::path::Path::new(&p.iter().collect::<String>()).is_dir()
}

/// `which::which`, the path printed lossily.  What it returns depends on
/// `PATH` and the file system; nothing is stated of it.
#[verifier::external_body]
fn which_binary(name: &Vec<char>) -> Option<String> {
    which::which(name.iter().collect::<String>()).ok().map(|p| p.to_string_lossy().into_owned())
}

/// The umu-run binary chosen for the setting, given what the lookups found:
/// nothing for an empty setting; for a path (a setting with `/`), the path
/// when it is a file; for a bare name, what the `PATH` lookup found.
pub open spec fn umu_choice_spec(
    cfg: &Config,
    path_is_file: bool,
    on_path: Option<Seq<char>>,
) -> Option<Seq<char>> {
    let t = trim(cfg.proton.umu@);
    if t.len() == 0 {
        None
    } else if t.contains('/') {
        if path_is_file {
            Some(t)
        } else {
            None
        }
    } else {
        on_path
    }
}

/// What `umu_binary` may return: the choice for some answer of the lookups.
pub open spec fn umu_outcome(cfg: &Config, r: Option<Seq<char>>) -> bool {
    exists|f: bool, w: Option<Seq<char>>| r == umu_choice_spec(cfg, f, w)
}

/// The GE-Proton directory chosen for the setting, given whether the
/// requested directory exists: nothing for an empty setting; the newest
/// managed install for `GE-Proton`; otherwise the setting when it names an
/// existing directory.
pub open spec fn proton_choice_spec(
    cfg: &Config,
    installed: Seq<ProtonDirEntry>,
    dir_exists: bool,
) -> Option<Seq<char>> {
    let t = trim(cfg.proton.proton_path@);
    if t.len() == 0 {
        None
    } else if t == managed_proton() {
        newest_install(installed)
    } else if dir_exists {
        Some(t)
    } else {
        None
    }
}

/// What `resolve_proton` may return: the choice for some answer of the
/// directory check.
pub open spec fn proton_outcome(
    cfg: &Config,
    installed: Seq<ProtonDirEntry>,
    r: Option<Seq<char>>,
) -> bool {
    exists|d: bool| r == proton_choice_spec(cfg, installed, d)
}

fn has_slash(v: &Vec<char>) -> (r: bool)
    ensures
        r == v@.contains('/'),
{
    let mut i: usize = 0;
    while i < v.len()
        invariant
            0 <= i <= v.len(),
            forall|j: int| 0 <= j < i ==> v@[j] != '/',
        decreases v.len() - i,
    {
        if v[i] == '/' {
            return true;
        }
        i = i + 1;
    }
    false
}

/// The umu-run binary for the setting, given whether the setting (as a
/// path) is a file and what the `PATH` lookup of it found.
pub fn umu_choice(cfg: &Config, path_is_file: bool, on_path: Option<String>) -> (r: Option<String>)
    ensures
        opt_view(r) == umu_choice_spec(cfg, path_is_file, opt_view(on_path)),
{
    let umu = trimmed(&cfg.proton.umu);
    if umu.len() == 0 {
        return None;
    }
    if has_slash(&umu) {
        if path_is_file {
            Some(string_of(&umu))
        } else {
            None
        }
    } else {
        on_path
    }
}

/// The umu-run binary to launch with, if one can be found: a setting with
/// `/` is checked as a file, a bare name is looked up on `PATH`.
pub fn umu_binary(cfg: &Config) -> (r: Option<String>)
    ensures
        umu_outcome(cfg, opt_view(r)),
        trim(cfg.proton.umu@).len() == 0 ==> r is None,
{
    let umu = trimmed(&cfg.proton.umu);
    let mut path_is_file = false;
    let mut on_path: Option<String> = None;
    if umu.len() > 0 {
        if has_slash(&umu) {
            path_is_file = is_file(&umu);
        } else {
            on_path = which_binary(&umu);
        }
    }
    let r = umu_choice(cfg, path_is_file, on_path);
    assert(opt_view(r) == umu_choice_spec(cfg, path_is_file, opt_view(on_path)));
    r
}

/// The GE-Proton directory for the setting, given whether the requested
/// directory exists.
pub fn proton_choice(cfg: &Config, installed: &Vec<ProtonDirEntry>, dir_exists: bool) -> (r:
    Option<String>)
    ensures
        opt_view(r) == proton_choice_spec(cfg, installed@, dir_exists),
{
    let requested = trimmed(&cfg.proton.proton_path);
    if requested.len() == 0 {
        return None;
    }
    let managed = chars_of("GE-Proton");
    proof {
        reveal_strlit("GE-Proton");
        assert(managed@ =~= managed_proton());
    }
    if chars_eq(&requested, &managed) {
        return select_installed_proton(installed);
    }
    if dir_exists {
        Some(string_of(&requested))
    } else {
        None
    }
}

/// The GE-Proton directory to launch with, if it exists: `GE-Proton`
/// picks the newest managed install, any other setting is checked as a
/// directory.
pub fn resolve_proton(cfg: &Config, installed: &Vec<ProtonDirEntry>) -> (r: Option<String>)
    ensures
        proton_outcome(cfg, installed@, opt_view(r)),
        trim(cfg.proton.proton_path@) == managed_proton() ==> opt_view(r) == newest_install(
            installed@,
        ),
        trim(cfg.proton.proton_path@).len() == 0 ==> r is None,
{
    let requested = trimmed(&cfg.proton.proton_path);
    let managed = chars_of("GE-Proton");
    proof {
        reveal_strlit("GE-Proton");
        assert(managed@ =~= managed_proton());
    }
    let mut dir_exists = false;
    if requested.len() > 0 && !chars_eq(&requested, &managed) {
        dir_exists = is_dir(&requested);
    }
    let r = proton_choice(cfg, installed, dir_exists);
    assert(opt_view(r) == proton_choice_spec(cfg, installed@, dir_exists));
    r
}

/// What the host offers the backend: the umu-run binary and the GE-Proton
/// directory, each when found.
pub struct BackendProbe {
    pub umu: Option<String>,
    pub proton: Option<String>,
}

/// Looks up umu-run and GE-Proton once for a launch.  The managed installs
/// are `installed`, the entries of the install directory.
pub fn probe_backend(cfg: &Config, installed: &Vec<ProtonDirEntry>) -> (p: BackendProbe)
    ensures
        umu_outcome(cfg, opt_view(p.umu)),
        proton_outcome(cfg, installed@, opt_view(p.proton)),
        trim(cfg.proton.umu@).len() == 0 ==> p.umu is None,
        trim(cfg.proton.proton_path@).len() == 0 ==> p.proton is None,
        trim(cfg.proton.proton_path@) == managed_proton() ==> opt_view(p.proton)
            == newest_install(installed@),
{
    BackendProbe { umu: umu_binary(cfg), proton: resolve_proton(cfg, installed) }
}

/// The version shown for a ready backend: the directory's name, else the
/// whole path.
pub open spec fn ready_version(dir: Seq<char>) -> Seq<char> {
    match file_name(dir) {
        Some(n) => n,
        None => dir,
    }
}

/// The status given what the probe found.
pub open spec fn status_is(r: BackendStatus, cfg: &Config, p: &BackendProbe) -> bool {
    if !cfg.proton.enabled {
        r is NotConfigured
    } else if p.umu is None {
        r is MissingUmu
    } else {
        match p.proton {
            Some(d) => r matches BackendStatus::Ready { version } && version@ == ready_version(
                d@,
            ),
            None => r matches BackendStatus::MissingProton { requested } && requested@
                == cfg.proton.proton_path@,
        }
    }
}

/// The backend status from a probe.
pub fn status_from(cfg: &Config, probe: &BackendProbe) -> (r: BackendStatus)
    ensures
        status_is(r, cfg, probe),
{
    if !cfg.proton.enabled {
        return BackendStatus::NotConfigured;
    }
    if probe.umu.is_none() {
        return BackendStatus::MissingUmu;
    }
    match &probe.proton {
        Some(dir) => {
            let version = match path_file_name(dir) {
                Some(n) => n,
                None => dir.clone(),
            };
            BackendStatus::Ready { version }
        },
        None => BackendStatus::MissingProton { requested: cfg.proton.proton_path.clone() },
    }
}

/// The name of `dir` as a version string (`version_of`).
pub fn version_of(dir: &str) -> (r: Option<String>)
    ensures
        opt_view(r) == file_name(dir@),
{
    path_file_name(dir)
}

/// The version reported after extracting an archive: the name of the
/// newest install, `GE-Proton` when it has none, nothing when no install
/// was found.
pub fn installed_version(found: Option<String>) -> (r: Option<String>)
    ensures
        match found {
            Some(p) => r matches Some(v) && v@ == match file_name(p@) {
                Some(n) => n,
                None => "GE-Proton"@,
            },
            None => r is None,
        },
{
    match found {
        Some(p) => match path_file_name(&p) {
            Some(n) => Some(n),
            None => Some(owned("GE-Proton")),
        },
        None => None,
    }
}

/// Whether the GE-Proton backend is ready, given the managed installs.
pub fn status(cfg: &Config, installed: &Vec<ProtonDirEntry>) -> (r: BackendStatus)
    ensures
        exists|p: BackendProbe|
            umu_outcome(cfg, opt_view(p.umu)) && proton_outcome(cfg, installed@, opt_view(p.proton))
                && status_is(r, cfg, &p),
{
    let p = probe_backend(cfg, installed);
    status_from(cfg, &p)
}

// ---------------------------------------------------------------------------
// The GE-Proton launch command
// ---------------------------------------------------------------------------

/// The variables of a GE-Proton launch before the shared ones.
pub open spec fn proton_env(cfg: &Config, proton: Seq<char>) -> EnvView {
    seq![
        ("WINEPREFIX"@, cfg.paths.wine_prefix@),
        ("GAMEID"@, cfg.proton.game_id@),
        ("STORE"@, cfg.proton.store@),
        ("PROTONPATH"@, proton),
        ("WGPU_BACKEND"@, "vulkan"@),
    ] + (if cfg.launcher.use_esync {
        seq![("WINEESYNC"@, "1"@)]
    } else {
        Seq::<(Seq<char>, Seq<char>)>::empty()
    }) + (if cfg.launcher.use_fsync {
        seq![("WINEFSYNC"@, "1"@)]
    } else {
        Seq::<(Seq<char>, Seq<char>)>::empty()
    }) + (if cfg.launcher.fsr > 0 {
        seq![
            ("WINE_FULLSCREEN_FSR"@, "1"@),
            ("WINE_FULLSCREEN_FSR_STRENGTH"@, decimal(cfg.launcher.fsr as nat)),
        ]
    } else {
        Seq::<(Seq<char>, Seq<char>)>::empty()
    })
}

/// The GE-Proton launch: `umu-run <Vortex.exe> <uri>` with the Proton
/// variables, then the shared ones.
pub open spec fn proton_plan(
    r: LaunchPlan,
    cfg: &Config,
    uri: Seq<char>,
    umu: Seq<char>,
    proton: Seq<char>,
    host: &HostEnv,
) -> bool {
    &&& r.program@ == umu
    &&& dirs_view(r.args@) == seq![cfg.paths.vortex_exe@, uri]
    &&& env_view(r.env@) == proton_env(cfg, proton) + common_env(cfg, host)
    &&& r.current_dir is None
    &&& dirs_view(r.create_dirs@) == cache_dirs(cfg, host)
}

fn push_kv(env: &mut Vec<(String, String)>, k: &str, v: &str)
    ensures
        env_view(final(env)@) == env_view(old(env)@).push((k@, v@)),
{
    env.push((owned(k), owned(v)));
    assert(env_view(env@) =~= env_view(old(env)@).push((k@, v@)));
}

/// The GE-Proton launch command, when the backend is enabled and the probe
/// found both umu-run and GE-Proton.
pub fn build_command(cfg: &Config, uri: &str, probe: &BackendProbe, host: &HostEnv) -> (r: Option<
    LaunchPlan,
>)
    ensures
        r is Some <==> (cfg.proton.enabled && probe.umu is Some && probe.proton is Some),
        r matches Some(plan) ==> proton_plan(
            plan,
            cfg,
            uri@,
            probe.umu.unwrap()@,
            probe.proton.unwrap()@,
            host,
        ),
{
    if !cfg.proton.enabled {
        return None;
    }
    let umu = match &probe.umu {
        Some(u) => u,
        None => return None,
    };
    let proton = match &probe.proton {
        Some(p) => p,
        None => return None,
    };
    let mut env: Vec<(String, String)> = Vec::new();
    push_kv(&mut env, "WINEPREFIX", &cfg.paths.wine_prefix);
    push_kv(&mut env, "GAMEID", &cfg.proton.game_id);
    push_kv(&mut env, "STORE", &cfg.proton.store);
    push_kv(&mut env, "PROTONPATH", proton);
    push_kv(&mut env, "WGPU_BACKEND", "vulkan");
    if cfg.launcher.use_esync {
        push_kv(&mut env, "WINEESYNC", "1");
    }
    if cfg.launcher.use_fsync {
        push_kv(&mut env, "WINEFSYNC", "1");
    }
    if cfg.launcher.fsr > 0 {
        push_kv(&mut env, "WINE_FULLSCREEN_FSR", "1");
        let strength = u8_decimal(cfg.launcher.fsr);
        push_kv(&mut env, "WINE_FULLSCREEN_FSR_STRENGTH", &strength);
    }
    assert(env_view(env@) =~= proton_env(cfg, proton@));
    let mut dirs: Vec<String> = Vec::new();
    apply_common_env(&mut env, &mut dirs, cfg, host);
    let mut args: Vec<String> = Vec::new();
    args.push(cfg.paths.vortex_exe.clone());
    args.push(owned(uri));
    assert(dirs_view(args@) =~= seq![cfg.paths.vortex_exe@, uri@]);
    assert(dirs_view(dirs@) =~= cache_dirs(cfg, host));
    Some(LaunchPlan { program: umu.clone(), args, env, current_dir: None, create_dirs: dirs })
}

/// A GE-Proton command is built exactly when the status of the same probe is
/// `Ready`.
pub proof fn lemma_command_iff_ready(cfg: &Config, probe: &BackendProbe, s: BackendStatus)
    requires
        status_is(s, cfg, probe),
    ensures
        (cfg.proton.enabled && probe.umu is Some && probe.proton is Some) <==> s is Ready,
{
}

} // verus!
