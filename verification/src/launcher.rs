use vstd::prelude::*;
use crate::config::{Config, distinct_keys, opt_view};
use crate::proton::{build_command, proton_plan, status_is, BackendProbe, BackendStatus};
use crate::uri::{parse_vortex_uri, vortex_uri};
use crate::paths::{join, path_join};
use crate::text::{
    contains, decimal, owned, push_str, str_contains, str_eq, u32_decimal, u8_decimal,
};

verus! {

/// An environment as the sequence of assignments made to a command, in
/// order; a later assignment to a name overrides an earlier one.
pub type EnvView = Seq<(Seq<char>, Seq<char>)>;

pub open spec fn env_view(v: Seq<(String, String)>) -> EnvView {
    v.map_values(|p: (String, String)| (p.0@, p.1@))
}

/// The value a command sees for `key`: the last assignment to it.
pub open spec fn env_get(env: EnvView, key: Seq<char>) -> Option<Seq<char>>
    decreases env.len(),
{
    if env.len() == 0 {
        None
    } else if env.last().0 == key {
        Some(env.last().1)
    } else {
        env_get(env.drop_last(), key)
    }
}

/// A command to run: program, arguments, environment assignments, working
/// directory, and the directories to create before it starts.
pub struct LaunchPlan {
    pub program: String,
    pub args: Vec<String>,
    pub env: Vec<(String, String)>,
    pub current_dir: Option<String>,
    pub create_dirs: Vec<String>,
}

/// What the launcher reads from the machine it runs on.
pub struct HostEnv {
    /// `XDG_SESSION_TYPE`, empty when unset.
    pub session_type: String,
    /// `WAYLAND_DISPLAY`, when set.
    pub wayland_display: Option<String>,
    /// The user's cache directory.
    pub cache_root: String,
    /// The NVIDIA Vulkan ICD file, when one is installed.
    pub nvidia_icd: Option<String>,
    /// Variables that installed plugins add, in order.
    pub plugin_env: Vec<(String, String)>,
}

fn push_env(env: &mut Vec<(String, String)>, k: &str, v: &str)
    ensures
        env_view(final(env)@) == env_view(old(env)@).push((k@, v@)),
{
    env.push((owned(k), owned(v)));
    assert(env_view(env@) =~= env_view(old(env)@).push((k@, v@)));
}

fn append_env(env: &mut Vec<(String, String)>, more: &Vec<(String, String)>)
    ensures
        env_view(final(env)@) == env_view(old(env)@) + env_view(more@),
{
    let mut i: usize = 0;
    while i < more.len()
        invariant
            0 <= i <= more.len(),
            env_view(env@) == env_view(old(env)@) + env_view(more@).take(i as int),
        decreases more.len() - i,
    {
        let (k, v) = &more[i];
        push_env(env, k, v);
        i = i + 1;
        assert(env_view(more@).take(i as int) =~= env_view(more@).take(i - 1).push((k@, v@)));
        assert(env_view(env@) =~= env_view(old(env)@) + env_view(more@).take(i as int));
    }
    assert(env_view(more@).take(more@.len() as int) =~= env_view(more@));
}

// ---------------------------------------------------------------------------
// Session and GPU
// ---------------------------------------------------------------------------

/// `str::to_lowercase` (full Unicode lower-casing).
pub uninterp spec fn lowercase_view(s: Seq<char>) -> Seq<char>;

/// `str::to_lowercase`.  The result is the name `lowercase_view` of the
/// argument; the Unicode case tables are not stated.
#[verifier::external_body]
pub(crate) fn lowercase(s: &str) -> (r: String)
    ensures
        r@ == lowercase_view(s@),
{
    s.to_lowercase()
}

/// Whether the game runs on the Wayland driver: `wayland_mode` forces it
/// `on` or `off`; otherwise a Wayland session or a set `WAYLAND_DISPLAY`
/// decides.
pub open spec fn wayland_spec(cfg: &Config, host: &HostEnv) -> bool {
    if cfg.launcher.wayland_mode@ == "on"@ {
        true
    } else if cfg.launcher.wayland_mode@ == "off"@ {
        false
    } else {
        lowercase_view(host.session_type@) == "wayland"@ || host.wayland_display is Some
    }
}

pub fn is_wayland(cfg: &Config, host: &HostEnv) -> (r: bool)
    ensures
        r == wayland_spec(cfg, host),
{
    if str_eq(&cfg.launcher.wayland_mode, "on") {
        true
    } else if str_eq(&cfg.launcher.wayland_mode, "off") {
        false
    } else {
        let session = lowercase(&host.session_type);
        str_eq(&session, "wayland") || host.wayland_display.is_some()
    }
}

/// `Path::exists`.  What it returns depends on the file system; nothing is
/// stated of it.
#[verifier::external_body]
fn path_exists(p: &str) -> bool {
    std::path::Path::new(p).exists()
}

/// Where the NVIDIA Vulkan ICD may be installed, in the order searched.
pub open spec fn nvidia_icd_candidates() -> Seq<Seq<char>> {
    seq![
        "/usr/share/vulkan/icd.d/nvidia_icd.json"@,
        "/usr/share/vulkan/icd.d/nvidia_icd.x86_64.json"@,
        "/usr/share/vulkan/icd.d/nvidia_icd.i686.json"@,
    ]
}

/// The first of `candidates` that `exists` marks as present.
pub open spec fn first_present(candidates: Seq<Seq<char>>, exists: Seq<bool>) -> Option<Seq<char>>
    decreases candidates.len(),
{
    if candidates.len() == 0 || exists.len() == 0 {
        None
    } else if exists[0] {
        Some(candidates[0])
    } else {
        first_present(candidates.drop_first(), exists.drop_first())
    }
}

/// The candidate ICD paths, in the order searched.
pub fn nvidia_icd_paths() -> (r: Vec<String>)
    ensures
        r@.len() == 3,
        dirs_view(r@) == nvidia_icd_candidates(),
{
    let mut r: Vec<String> = Vec::new();
    r.push(owned("/usr/share/vulkan/icd.d/nvidia_icd.json"));
    r.push(owned("/usr/share/vulkan/icd.d/nvidia_icd.x86_64.json"));
    r.push(owned("/usr/share/vulkan/icd.d/nvidia_icd.i686.json"));
    assert(dirs_view(r@) =~= nvidia_icd_candidates());
    r
}

/// The NVIDIA Vulkan ICD file given which candidates exist (`a`, `b`, `c`
/// in the order of `nvidia_icd_candidates`): the first one present.
pub fn first_nvidia_icd(a: bool, b: bool, c: bool) -> (r: Option<String>)
    ensures
        opt_view(r) == first_present(nvidia_icd_candidates(), seq![a, b, c]),
{
    let paths = nvidia_icd_paths();
    let r = if a {
        Some(paths[0].clone())
    } else if b {
        Some(paths[1].clone())
    } else if c {
        Some(paths[2].clone())
    } else {
        None
    };
    proof {
        reveal_with_fuel(first_present, 4);
        let present = seq![a, b, c];
        let cs = nvidia_icd_candidates();
        assert(cs[0] == paths@[0]@ && cs[1] == paths@[1]@ && cs[2] == paths@[2]@);
        assert(cs.drop_first() =~= seq![cs[1], cs[2]]);
        assert(cs.drop_first().drop_first() =~= seq![cs[2]]);
        assert(cs.drop_first().drop_first().drop_first() =~= Seq::<Seq<char>>::empty());
        assert(present.drop_first() =~= seq![b, c]);
        assert(present.drop_first().drop_first() =~= seq![c]);
        assert(present.drop_first().drop_first().drop_first() =~= Seq::<bool>::empty());
        assert(opt_view(r) == first_present(cs, present));
    }
    r
}

/// The NVIDIA Vulkan ICD file: each candidate is checked for existence,
/// and the first present one is taken.  Whatever the file system says, the
/// result is the first present candidate for some answer of the checks.
pub fn detect_nvidia_icd() -> (r: Option<String>)
    ensures
        exists|present: Seq<bool>|
            present.len() == 3 && opt_view(r) == first_present(nvidia_icd_candidates(), present),
{
    let paths = nvidia_icd_paths();
    let a = path_exists(&paths[0]);
    let b = path_exists(&paths[1]);
    let c = path_exists(&paths[2]);
    let r = first_nvidia_icd(a, b, c);
    assert(seq![a, b, c].len() == 3);
    r
}

/// The variables that route rendering to the NVIDIA GPU.
pub open spec fn nvidia_env() -> EnvView {
    seq![
        ("DXVK_FILTER_DEVICE_NAME"@, "NVIDIA"@),
        ("__NV_PRIME_RENDER_OFFLOAD"@, "1"@),
        ("__GLX_VENDOR_LIBRARY_NAME"@, "nvidia"@),
        ("__GL_THREADED_OPTIMIZATIONS"@, "1"@),
    ]
}

/// GPU selection: `nvidia` forces the NVIDIA GPU (and its ICD when found),
/// `intel` pins the Intel GPU, anything else prefers NVIDIA when present.
pub open spec fn gpu_env(cfg: &Config, host: &HostEnv) -> EnvView {
    if cfg.launcher.gpu_device@ == "nvidia"@ {
        nvidia_env() + match host.nvidia_icd {
            Some(icd) => seq![("VK_ICD_FILENAMES"@, icd@)],
            None => Seq::<(Seq<char>, Seq<char>)>::empty(),
        }
    } else if cfg.launcher.gpu_device@ == "intel"@ {
        seq![("DXVK_FILTER_DEVICE_NAME"@, "Intel"@)]
    } else if host.nvidia_icd is Some {
        nvidia_env()
    } else {
        Seq::<(Seq<char>, Seq<char>)>::empty()
    }
}

fn push_nvidia_env(env: &mut Vec<(String, String)>)
    ensures
        env_view(final(env)@) == env_view(old(env)@) + nvidia_env(),
{
    push_env(env, "DXVK_FILTER_DEVICE_NAME", "NVIDIA");
    push_env(env, "__NV_PRIME_RENDER_OFFLOAD", "1");
    push_env(env, "__GLX_VENDOR_LIBRARY_NAME", "nvidia");
    push_env(env, "__GL_THREADED_OPTIMIZATIONS", "1");
    assert(env_view(env@) =~= env_view(old(env)@) + nvidia_env());
}

pub fn apply_gpu_env(env: &mut Vec<(String, String)>, cfg: &Config, host: &HostEnv)
    ensures
        env_view(final(env)@) == env_view(old(env)@) + gpu_env(cfg, host),
{
    if str_eq(&cfg.launcher.gpu_device, "nvidia") {
        push_nvidia_env(env);
        match &host.nvidia_icd {
            Some(icd) => {
                push_env(env, "VK_ICD_FILENAMES", icd);
            },
            None => {},
        }
        assert(env_view(env@) =~= env_view(old(env)@) + gpu_env(cfg, host));
    } else if str_eq(&cfg.launcher.gpu_device, "intel") {
        push_env(env, "DXVK_FILTER_DEVICE_NAME", "Intel");
        assert(env_view(env@) =~= env_view(old(env)@) + gpu_env(cfg, host));
    } else if host.nvidia_icd.is_some() {
        push_nvidia_env(env);
    } else {
        assert(env_view(env@) =~= env_view(old(env)@) + gpu_env(cfg, host));
    }
}

/// Session variables: the Wayland driver only when Wayland is chosen and a
/// display is set; the fullscreen hack off when the panel is kept.
pub open spec fn session_env(cfg: &Config, host: &HostEnv) -> EnvView {
    (if wayland_spec(cfg, host) && host.wayland_display is Some {
        seq![
            ("PROTON_ENABLE_WAYLAND"@, "1"@),
            ("WAYLAND_DISPLAY"@, host.wayland_display.unwrap()@),
        ]
    } else {
        seq![("PROTON_ENABLE_WAYLAND"@, "0"@)]
    }) + if cfg.launcher.keep_panel {
        seq![("WINE_DISABLE_FULLSCREEN_HACK"@, "1"@)]
    } else {
        Seq::<(Seq<char>, Seq<char>)>::empty()
    }
}

pub fn apply_session_env(env: &mut Vec<(String, String)>, cfg: &Config, host: &HostEnv)
    ensures
        env_view(final(env)@) == env_view(old(env)@) + session_env(cfg, host),
{
    let wayland = is_wayland(cfg, host) && host.wayland_display.is_some();
    if wayland {
        push_env(env, "PROTON_ENABLE_WAYLAND", "1");
        match &host.wayland_display {
            Some(d) => push_env(env, "WAYLAND_DISPLAY", d),
            None => {},
        }
    } else {
        push_env(env, "PROTON_ENABLE_WAYLAND", "0");
    }
    if cfg.launcher.keep_panel {
        push_env(env, "WINE_DISABLE_FULLSCREEN_HACK", "1");
    }
    assert(env_view(env@) =~= env_view(old(env)@) + session_env(cfg, host));
}

/// `dirs::cache_dir`, as a string.  What it returns depends on the
/// environment of the process; nothing is stated of it.
#[verifier::external_body]
fn user_cache_dir() -> Option<String> {
    dirs::cache_dir().map(|p| p.to_string_lossy().into_owned())
}

/// The cache directory given the platform's cache directory (if any) and
/// the home directory: the platform's, else `~/.cache`.
pub open spec fn cache_root_spec(cache: Option<Seq<char>>, home: Seq<char>) -> Seq<char> {
    match cache {
        Some(c) => c,
        None => path_join(home, ".cache"@),
    }
}

pub fn cache_root_from(cache: Option<String>, home: &str) -> (r: String)
    ensures
        r@ == cache_root_spec(opt_view(cache), home@),
{
    match cache {
        Some(c) => c,
        None => join(home, ".cache"),
    }
}

/// The cache directory of this process, `home` being its home directory.
pub fn cache_root_in(home: &str) -> (r: String)
    ensures
        exists|c: Option<Seq<char>>| r@ == cache_root_spec(c, home@),
{
    let c = user_cache_dir();
    let r = cache_root_from(c, home);
    assert(r@ == cache_root_spec(opt_view(c), home@));
    r
}

// ---------------------------------------------------------------------------
// The environment every launch gets
// ---------------------------------------------------------------------------

/// The shader cache directory under the user's cache directory.
pub open spec fn shader_cache_dir(host: &HostEnv) -> Seq<char> {
    path_join(host.cache_root@, "vortex-shaders"@)
}

/// The shader-cache variables.
pub open spec fn shader_cache_env(host: &HostEnv) -> EnvView {
    let cache = shader_cache_dir(host);
    seq![
        ("VKD3D_SHADER_CACHE_PATH"@, cache),
        ("DXVK_STATE_CACHE_PATH"@, path_join(cache, "dxvk"@)),
        ("__GL_SHADER_DISK_CACHE"@, "1"@),
        ("__GL_SHADER_DISK_CACHE_PATH"@, path_join(cache, "gl"@)),
        ("__GL_SHADER_DISK_CACHE_SKIP_CLEANUP"@, "1"@),
        ("MESA_SHADER_CACHE_DIR"@, path_join(cache, "mesa"@)),
    ]
}

/// The shader-cache directories to create.
pub open spec fn shader_cache_dirs(host: &HostEnv) -> Seq<Seq<char>> {
    let cache = shader_cache_dir(host);
    seq![cache, path_join(cache, "dxvk"@), path_join(cache, "gl"@), path_join(cache, "mesa"@)]
}

/// The assignments shared by the Wine and the GE-Proton launch, in order:
/// noise filter, shader caches, fixed Wine tuning, DXVK HUD, GPU, session,
/// the user's `[wine.env]`, then plugin variables.
pub open spec fn common_env(cfg: &Config, host: &HostEnv) -> EnvView {
    noise_env(cfg) + cache_env(cfg, host) + fixed_env() + hud_env(cfg) + gpu_env(cfg, host)
        + session_env(cfg, host) + env_view(cfg.wine.env@) + env_view(host.plugin_env@)
}

pub open spec fn noise_env(cfg: &Config) -> EnvView {
    if cfg.launcher.filter_wine_noise {
        seq![("WINEDEBUG"@, "-all"@)]
    } else {
        Seq::<(Seq<char>, Seq<char>)>::empty()
    }
}

pub open spec fn cache_env(cfg: &Config, host: &HostEnv) -> EnvView {
    if cfg.launcher.shader_cache {
        shader_cache_env(host)
    } else {
        Seq::<(Seq<char>, Seq<char>)>::empty()
    }
}

pub open spec fn cache_dirs(cfg: &Config, host: &HostEnv) -> Seq<Seq<char>> {
    if cfg.launcher.shader_cache {
        shader_cache_dirs(host)
    } else {
        Seq::<Seq<char>>::empty()
    }
}

pub open spec fn fixed_env() -> EnvView {
    seq![
        ("STAGING_SHARED_MEMORY"@, "1"@),
        ("WINE_LARGE_ADDRESS_AWARE"@, "1"@),
        ("__GLVND_DISALLOW_PATCHING"@, "1"@),
    ]
}

pub open spec fn hud_env(cfg: &Config) -> EnvView {
    if cfg.launcher.dxvk_hud@.len() > 0 {
        seq![("DXVK_HUD"@, cfg.launcher.dxvk_hud@)]
    } else {
        Seq::<(Seq<char>, Seq<char>)>::empty()
    }
}

pub open spec fn dirs_view(v: Seq<String>) -> Seq<Seq<char>> {
    v.map_values(|d: String| d@)
}

fn apply_cache_env(
    env: &mut Vec<(String, String)>,
    dirs: &mut Vec<String>,
    cfg: &Config,
    host: &HostEnv,
)
    ensures
        env_view(final(env)@) == env_view(old(env)@) + cache_env(cfg, host),
        dirs_view(final(dirs)@) == dirs_view(old(dirs)@) + cache_dirs(cfg, host),
{
    if cfg.launcher.shader_cache {
        let cache = join(&host.cache_root, "vortex-shaders");
        dirs.push(cache.clone());
        push_env(env, "VKD3D_SHADER_CACHE_PATH", &cache);
        let dxvk = join(&cache, "dxvk");
        dirs.push(dxvk.clone());
        push_env(env, "DXVK_STATE_CACHE_PATH", &dxvk);
        let gl = join(&cache, "gl");
        dirs.push(gl.clone());
        push_env(env, "__GL_SHADER_DISK_CACHE", "1");
        push_env(env, "__GL_SHADER_DISK_CACHE_PATH", &gl);
        push_env(env, "__GL_SHADER_DISK_CACHE_SKIP_CLEANUP", "1");
        let mesa = join(&cache, "mesa");
        dirs.push(mesa.clone());
        push_env(env, "MESA_SHADER_CACHE_DIR", &mesa);
        assert(env_view(env@) =~= env_view(old(env)@) + shader_cache_env(host));
        assert(dirs_view(dirs@) =~= dirs_view(old(dirs)@) + shader_cache_dirs(host));
    } else {
        assert(env_view(env@) =~= env_view(old(env)@) + cache_env(cfg, host));
        assert(dirs_view(dirs@) =~= dirs_view(old(dirs)@) + cache_dirs(cfg, host));
    }
}

fn apply_fixed_env(env: &mut Vec<(String, String)>, cfg: &Config)
    ensures
        env_view(final(env)@) == env_view(old(env)@) + fixed_env() + hud_env(cfg),
{
    push_env(env, "STAGING_SHARED_MEMORY", "1");
    push_env(env, "WINE_LARGE_ADDRESS_AWARE", "1");
    push_env(env, "__GLVND_DISALLOW_PATCHING", "1");
    if !cfg.launcher.dxvk_hud.as_str().is_empty() {
        push_env(env, "DXVK_HUD", &cfg.launcher.dxvk_hud);
    }
    assert(env_view(env@) =~= env_view(old(env)@) + fixed_env() + hud_env(cfg));
}

/// Adds the shared launch environment to `env`, and the shader-cache
/// directories to `dirs`.
#[verifier::rlimit(40)]
pub fn apply_common_env(
    env: &mut Vec<(String, String)>,
    dirs: &mut Vec<String>,
    cfg: &Config,
    host: &HostEnv,
)
    ensures
        env_view(final(env)@) == env_view(old(env)@) + common_env(cfg, host),
        dirs_view(final(dirs)@) == dirs_view(old(dirs)@) + cache_dirs(cfg, host),
{
    let ghost e0 = env_view(env@);
    if cfg.launcher.filter_wine_noise {
        push_env(env, "WINEDEBUG", "-all");
    }
    assert(env_view(env@) =~= e0 + noise_env(cfg));
    let ghost e1 = env_view(env@);
    apply_cache_env(env, dirs, cfg, host);
    let ghost e2 = env_view(env@);
    apply_fixed_env(env, cfg);
    let ghost e3 = env_view(env@);
    apply_gpu_env(env, cfg, host);
    let ghost e4 = env_view(env@);
    apply_session_env(env, cfg, host);
    let ghost e5 = env_view(env@);
    append_env(env, &cfg.wine.env);
    let ghost e6 = env_view(env@);
    append_env(env, &host.plugin_env);
    let ghost e7 = env_view(env@);
    proof {
        let a = noise_env(cfg);
        let b = cache_env(cfg, host);
        let c = fixed_env() + hud_env(cfg);
        let d = gpu_env(cfg, host);
        let f = session_env(cfg, host);
        let g = env_view(cfg.wine.env@);
        let h = env_view(host.plugin_env@);
        assert(e2 =~= e0 + (a + b));
        assert(e3 =~= e0 + (a + b + c));
        assert(e4 =~= e0 + (a + b + c + d));
        assert(e5 =~= e0 + (a + b + c + d + f));
        assert(e6 =~= e0 + (a + b + c + d + f + g));
        assert(e7 =~= e0 + (a + b + c + d + f + g + h));
        assert(a + b + c + d + f + g + h =~= common_env(cfg, host));
    }
}


// ---------------------------------------------------------------------------
// Launch commands
// ---------------------------------------------------------------------------

/// The variables of a Wine launch before the shared ones.
pub open spec fn wine_env(cfg: &Config) -> EnvView {
    seq![("WINEPREFIX"@, cfg.paths.wine_prefix@), ("WGPU_BACKEND"@, "vulkan"@)] + (
    if cfg.launcher.use_esync {
        seq![("WINEESYNC"@, "1"@)]
    } else {
        Seq::<(Seq<char>, Seq<char>)>::empty()
    }) + (if cfg.launcher.use_fsync {
        seq![("WINEFSYNC"@, "1"@)]
    } else {
        Seq::<(Seq<char>, Seq<char>)>::empty()
    })
}

/// The plain Wine launch: `<wine> <Vortex.exe> <uri>` with the Wine
/// variables, then the shared ones.
pub open spec fn wine_plan(r: LaunchPlan, cfg: &Config, uri: Seq<char>, host: &HostEnv) -> bool {
    &&& r.program@ == cfg.wine.binary@
    &&& dirs_view(r.args@) == seq![cfg.paths.vortex_exe@, uri]
    &&& env_view(r.env@) == wine_env(cfg) + common_env(cfg, host)
    &&& r.current_dir is None
    &&& dirs_view(r.create_dirs@) == cache_dirs(cfg, host)
}

pub fn build_wine_command(cfg: &Config, uri: &str, host: &HostEnv) -> (r: LaunchPlan)
    ensures
        wine_plan(r, cfg, uri@, host),
{
    let mut env: Vec<(String, String)> = Vec::new();
    push_env(&mut env, "WINEPREFIX", &cfg.paths.wine_prefix);
    push_env(&mut env, "WGPU_BACKEND", "vulkan");
    if cfg.launcher.use_esync {
        push_env(&mut env, "WINEESYNC", "1");
    }
    if cfg.launcher.use_fsync {
        push_env(&mut env, "WINEFSYNC", "1");
    }
    assert(env_view(env@) =~= wine_env(cfg));
    let mut dirs: Vec<String> = Vec::new();
    apply_common_env(&mut env, &mut dirs, cfg, host);
    let mut args: Vec<String> = Vec::new();
    args.push(cfg.paths.vortex_exe.clone());
    args.push(owned(uri));
    assert(dirs_view(args@) =~= seq![cfg.paths.vortex_exe@, uri@]);
    assert(dirs_view(dirs@) =~= cache_dirs(cfg, host));
    LaunchPlan { program: cfg.wine.binary.clone(), args, env, current_dir: None, create_dirs: dirs }
}

/// The launch without GameMode: GE-Proton when the probe found it and the
/// backend is enabled, Wine otherwise.
pub open spec fn base_plan(
    r: LaunchPlan,
    cfg: &Config,
    uri: Seq<char>,
    probe: &BackendProbe,
    host: &HostEnv,
) -> bool {
    if cfg.proton.enabled && probe.umu is Some && probe.proton is Some {
        proton_plan(r, cfg, uri, probe.umu.unwrap()@, probe.proton.unwrap()@, host)
    } else {
        wine_plan(r, cfg, uri, host)
    }
}

/// `inner` run under `gamemoderun`: the program becomes the first argument,
/// the environment and the directories to create carry over, and the
/// working directory is `.`.
pub open spec fn gamemode_wrapped(r: LaunchPlan, inner: LaunchPlan) -> bool {
    &&& r.program@ == "gamemoderun"@
    &&& dirs_view(r.args@) == seq![inner.program@] + dirs_view(inner.args@)
    &&& env_view(r.env@) == env_view(inner.env@)
    &&& r.current_dir matches Some(d) && d@ == "."@
    &&& dirs_view(r.create_dirs@) == dirs_view(inner.create_dirs@)
}

/// The command that launches the client for `uri`, under GameMode when
/// `use_gamemode` is set.
pub fn build_launch_command(
    cfg: &Config,
    uri: &str,
    use_gamemode: bool,
    probe: &BackendProbe,
    host: &HostEnv,
) -> (r: Result<LaunchPlan, String>)
    ensures
        r matches Ok(plan) && (if use_gamemode {
            exists|inner: LaunchPlan|
                base_plan(inner, cfg, uri@, probe, host) && gamemode_wrapped(plan, inner)
        } else {
            base_plan(plan, cfg, uri@, probe, host)
        }),
{
    let cmd = match build_command(cfg, uri, probe, host) {
        Some(c) => c,
        None => build_wine_command(cfg, uri, host),
    };
    if use_gamemode {
        let mut args: Vec<String> = Vec::new();
        args.push(cmd.program.clone());
        let mut i: usize = 0;
        while i < cmd.args.len()
            invariant
                0 <= i <= cmd.args.len(),
                dirs_view(args@) == seq![cmd.program@] + dirs_view(cmd.args@).take(i as int),
            decreases cmd.args.len() - i,
        {
            push_word(&mut args, cmd.args[i].clone());
            i = i + 1;
            assert(dirs_view(args@) =~= seq![cmd.program@] + dirs_view(cmd.args@).take(i as int));
        }
        assert(dirs_view(cmd.args@).take(i as int) =~= dirs_view(cmd.args@));
        let ghost inner = cmd;
        let gm = LaunchPlan {
            program: owned("gamemoderun"),
            args,
            env: cmd.env,
            current_dir: Some(owned(".")),
            create_dirs: cmd.create_dirs,
        };
        assert(gamemode_wrapped(gm, inner));
        Ok(gm)
    } else {
        Ok(cmd)
    }
}

// ---------------------------------------------------------------------------
// What the launcher prints
// ---------------------------------------------------------------------------

/// Words joined by single spaces.
pub open spec fn join_words(words: Seq<Seq<char>>) -> Seq<char>
    decreases words.len(),
{
    if words.len() == 0 {
        Seq::<char>::empty()
    } else if words.len() == 1 {
        words[0]
    } else {
        join_words(words.drop_last()) + seq![' '] + words.last()
    }
}

pub open spec fn word_if(b: bool, w: Seq<char>) -> Seq<Seq<char>> {
    if b {
        seq![w]
    } else {
        Seq::<Seq<char>>::empty()
    }
}

/// The active performance features, in the order the summary lists them.
pub open spec fn perf_words(cfg: &Config, use_gamemode: bool, host: &HostEnv) -> Seq<Seq<char>> {
    word_if(cfg.launcher.use_esync, "esync"@) + word_if(cfg.launcher.use_fsync, "fsync"@)
        + word_if(cfg.launcher.fsr > 0, "fsr"@ + decimal(cfg.launcher.fsr as nat)) + word_if(
        use_gamemode,
        "gamemode"@,
    ) + word_if(cfg.launcher.shader_cache, "shader-cache"@) + word_if(
        cfg.launcher.gpu_device@ != "auto"@,
        "gpu="@ + cfg.launcher.gpu_device@,
    ) + word_if(cfg.launcher.dxvk_hud@.len() > 0, "dxvk-hud"@) + word_if(
        cfg.launcher.keep_panel,
        "panel"@,
    ) + word_if(wayland_spec(cfg, host), "wayland"@)
}

/// The features line of the launch message: the active features separated
/// by spaces, or `none`.
pub open spec fn perf_summary_text(cfg: &Config, use_gamemode: bool, host: &HostEnv) -> Seq<char> {
    let words = perf_words(cfg, use_gamemode, host);
    if words.len() == 0 {
        "none"@
    } else {
        join_words(words)
    }
}

fn push_word(words: &mut Vec<String>, w: String)
    ensures
        dirs_view(final(words)@) == dirs_view(old(words)@).push(w@),
{
    words.push(w);
    assert(dirs_view(words@) =~= dirs_view(old(words)@).push(w@));
}

fn join_with_spaces(words: &Vec<String>) -> (r: String)
    ensures
        r@ == join_words(dirs_view(words@)),
{
    let mut r = String::new();
    let mut i: usize = 0;
    while i < words.len()
        invariant
            0 <= i <= words.len(),
            r@ == join_words(dirs_view(words@).take(i as int)),
        decreases words.len() - i,
    {
        proof {
            let t = dirs_view(words@).take(i + 1);
            assert(t.drop_last() =~= dirs_view(words@).take(i as int));
        }
        if i > 0 {
            crate::text::push_char(&mut r, ' ');
        } else {
            assert(dirs_view(words@).take(0) =~= Seq::<Seq<char>>::empty());
            assert(r@ =~= Seq::<char>::empty());
        }
        push_str(&mut r, &words[i]);
        i = i + 1;
    }
    assert(dirs_view(words@).take(i as int) =~= dirs_view(words@));
    r
}

fn push_word_if(words: &mut Vec<String>, b: bool, w: String)
    ensures
        dirs_view(final(words)@) == dirs_view(old(words)@) + word_if(b, w@),
{
    if b {
        push_word(words, w);
    }
    assert(dirs_view(words@) =~= dirs_view(old(words)@) + word_if(b, w@));
}

fn fsr_word(fsr: u8) -> (w: String)
    ensures
        w@ == "fsr"@ + decimal(fsr as nat),
{
    let mut w = owned("fsr");
    let d = u8_decimal(fsr);
    push_str(&mut w, &d);
    w
}

fn gpu_word(gpu: &str) -> (w: String)
    ensures
        w@ == "gpu="@ + gpu@,
{
    let mut w = owned("gpu=");
    push_str(&mut w, gpu);
    w
}

/// The summary of active performance features shown at launch.
#[verifier::rlimit(30)]
pub fn perf_summary(cfg: &Config, use_gamemode: bool, host: &HostEnv) -> (r: String)
    ensures
        r@ == perf_summary_text(cfg, use_gamemode, host),
{
    let mut words: Vec<String> = Vec::new();
    let l = &cfg.launcher;
    push_word_if(&mut words, l.use_esync, owned("esync"));
    push_word_if(&mut words, l.use_fsync, owned("fsync"));
    push_word_if(&mut words, l.fsr > 0, fsr_word(l.fsr));
    push_word_if(&mut words, use_gamemode, owned("gamemode"));
    push_word_if(&mut words, l.shader_cache, owned("shader-cache"));
    let gpu_set = !str_eq(&l.gpu_device, "auto");
    push_word_if(&mut words, gpu_set, gpu_word(&l.gpu_device));
    let hud = !l.dxvk_hud.as_str().is_empty();
    push_word_if(&mut words, hud, owned("dxvk-hud"));
    push_word_if(&mut words, l.keep_panel, owned("panel"));
    let wl = is_wayland(cfg, host);
    push_word_if(&mut words, wl, owned("wayland"));
    assert(dirs_view(words@) =~= perf_words(cfg, use_gamemode, host));
    if words.len() == 0 {
        owned("none")
    } else {
        join_with_spaces(&words)
    }
}

/// A line of Wine output that the noise filter drops.
pub open spec fn noise_spec(line: Seq<char>) -> bool {
    ||| contains(line, "fixme:"@)
    ||| contains(line, "libEGL warning"@)
    ||| contains(line, "pci id for fd"@)
    ||| contains(line, "wine-staging"@)
    ||| contains(line, "experimental patches"@)
    ||| contains(line, "DxgiFactory::QueryInterface"@)
    ||| contains(line, "DxgiAdapter::QueryInterface"@)
    ||| contains(line, "create_factory_media"@)
    ||| contains(line, "EnableNonClientDpiScaling"@)
    ||| contains(line, "DwmSetWindowAttribute"@)
}

pub fn is_noise(line: &str) -> (r: bool)
    ensures
        r == noise_spec(line@),
{
    str_contains(line, "fixme:") || str_contains(line, "libEGL warning") || str_contains(
        line,
        "pci id for fd",
    ) || str_contains(line, "wine-staging") || str_contains(line, "experimental patches")
        || str_contains(line, "DxgiFactory::QueryInterface") || str_contains(
        line,
        "DxgiAdapter::QueryInterface",
    ) || str_contains(line, "create_factory_media") || str_contains(
        line,
        "EnableNonClientDpiScaling",
    ) || str_contains(line, "DwmSetWindowAttribute")
}

/// Whether a line of the game's output is echoed: everything, unless the
/// noise filter is on and the line is noise.
pub fn should_echo(filter: bool, line: &str) -> (r: bool)
    ensures
        r == !(filter && noise_spec(line@)),
{
    !(filter && is_noise(line))
}

/// The backend named in the launch message.
pub fn backend_label(cfg: &Config, status: &BackendStatus) -> (r: &'static str)
    ensures
        r@ == (if cfg.proton.enabled && status is Ready {
            "GE-Proton (umu)"@
        } else {
            "wine"@
        }),
{
    if cfg.proton.enabled {
        match status {
            BackendStatus::Ready { .. } => "GE-Proton (umu)",
            _ => "wine",
        }
    } else {
        "wine"
    }
}

/// The game id shown in the launch message: the id of a play URI, else `?`.
pub fn launch_game_label(uri: &str) -> (r: String)
    ensures
        r@ == match vortex_uri(uri@) {
            Some((g, _)) => decimal(g as nat),
            None => "?"@,
        },
{
    match parse_vortex_uri(uri) {
        Some((id, _)) => u32_decimal(id),
        None => owned("?"),
    }
}

/// How the game's process ended.
#[derive(Debug, PartialEq, Eq)]
pub enum ExitReport {
    Clean,
    Failed { code: i32 },
    Signalled,
}

/// Classifies the exit code of the game's process (`None` when a signal
/// ended it).
pub fn exit_report(code: Option<i32>) -> (r: ExitReport)
    ensures
        r == match code {
            Some(0) => ExitReport::Clean,
            Some(c) => ExitReport::Failed { code: c },
            None => ExitReport::Signalled,
        },
{
    match code {
        Some(0) => ExitReport::Clean,
        Some(c) => ExitReport::Failed { code: c },
        None => ExitReport::Signalled,
    }
}


// ---------------------------------------------------------------------------
// Laws of the launch environment
// ---------------------------------------------------------------------------

/// A name's value after `a` then `b`: `b`'s last assignment, else `a`'s.
pub proof fn lemma_env_get_concat(a: EnvView, b: EnvView, k: Seq<char>)
    ensures
        env_get(a + b, k) == match env_get(b, k) {
            Some(v) => Some(v),
            None => env_get(a, k),
        },
    decreases b.len(),
{
    if b.len() == 0 {
        assert(a + b =~= a);
    } else {
        assert((a + b).drop_last() =~= a + b.drop_last());
        lemma_env_get_concat(a, b.drop_last(), k);
    }
}

/// In an environment that assigns each name once, each assignment is the
/// value seen.
pub proof fn lemma_env_get_distinct(env: Seq<(String, String)>, i: int)
    requires
        distinct_keys(env),
        0 <= i < env.len(),
    ensures
        env_get(env_view(env), env[i].0@) == Some(env[i].1@),
    decreases env.len(),
{
    let ev = env_view(env);
    if i < env.len() - 1 {
        assert(env_view(env.drop_last()) =~= ev.drop_last());
        assert(distinct_keys(env.drop_last())) by {
            assert forall|a: int, b: int|
                0 <= a < env.drop_last().len() && 0 <= b < env.drop_last().len() && a != b implies
                env.drop_last()[a].0@ != env.drop_last()[b].0@ by {
                assert(env.drop_last()[a] == env[a]);
                assert(env.drop_last()[b] == env[b]);
            }
        }
        lemma_env_get_distinct(env.drop_last(), i);
        assert(env.drop_last()[i] == env[i]);
        assert(ev.last().0 == env[env.len() - 1].0@);
    }
}

/// A name that no assignment of `env` sets is unset.
proof fn lemma_env_get_absent(env: EnvView, k: Seq<char>)
    requires
        forall|i: int| 0 <= i < env.len() ==> (#[trigger] env[i]).0 != k,
    ensures
        env_get(env, k) is None,
    decreases env.len(),
{
    if env.len() > 0 {
        assert forall|i: int| 0 <= i < env.drop_last().len() implies (
        #[trigger] env.drop_last()[i]).0 != k by {
            assert(env.drop_last()[i] == env[i]);
        }
        lemma_env_get_absent(env.drop_last(), k);
    }
}

/// A value the GPU selection gives a name reaches the launch, unless the
/// user's `[wine.env]` or a plugin sets the name; the session variables
/// (named `P…` and `W…`) never touch it.
proof fn lemma_gpu_value_reaches_launch(cfg: &Config, host: &HostEnv, k: Seq<char>, v: Seq<char>)
    requires
        env_get(gpu_env(cfg, host), k) == Some(v),
        k.len() > 0,
        k[0] != 'P',
        k[0] != 'W',
        env_get(env_view(cfg.wine.env@), k) is None,
        env_get(env_view(host.plugin_env@), k) is None,
    ensures
        env_get(common_env(cfg, host), k) == Some(v),
{
    reveal_strlit("PROTON_ENABLE_WAYLAND");
    reveal_strlit("WAYLAND_DISPLAY");
    reveal_strlit("WINE_DISABLE_FULLSCREEN_HACK");
    let se = session_env(cfg, host);
    assert forall|i: int| 0 <= i < se.len() implies (#[trigger] se[i]).0 != k by {
        assert(se[i].0[0] == 'P' || se[i].0[0] == 'W');
    }
    lemma_env_get_absent(se, k);
    let pre = noise_env(cfg) + cache_env(cfg, host) + fixed_env() + hud_env(cfg);
    lemma_env_get_concat(pre, gpu_env(cfg, host), k);
    lemma_env_get_concat(pre + gpu_env(cfg, host), se, k);
    lemma_env_get_concat(pre + gpu_env(cfg, host) + se, env_view(cfg.wine.env@), k);
    lemma_env_get_concat(
        pre + gpu_env(cfg, host) + se + env_view(cfg.wine.env@),
        env_view(host.plugin_env@),
        k,
    );
}

/// Forcing the NVIDIA GPU routes the game to it: the launch sees
/// `DXVK_FILTER_DEVICE_NAME=NVIDIA`, `__NV_PRIME_RENDER_OFFLOAD=1`,
/// `__GLX_VENDOR_LIBRARY_NAME=nvidia`, `__GL_THREADED_OPTIMIZATIONS=1`, and
/// `VK_ICD_FILENAMES` naming the NVIDIA ICD when one was found, unless the
/// user's `[wine.env]` or a plugin sets the same name.
pub proof fn lemma_nvidia_forced(cfg: &Config, host: &HostEnv, k: Seq<char>)
    requires
        cfg.launcher.gpu_device@ == "nvidia"@,
        env_get(env_view(cfg.wine.env@), k) is None,
        env_get(env_view(host.plugin_env@), k) is None,
    ensures
        k == "DXVK_FILTER_DEVICE_NAME"@ ==> env_get(common_env(cfg, host), k) == Some("NVIDIA"@),
        k == "__NV_PRIME_RENDER_OFFLOAD"@ ==> env_get(common_env(cfg, host), k) == Some("1"@),
        k == "__GLX_VENDOR_LIBRARY_NAME"@ ==> env_get(common_env(cfg, host), k) == Some(
            "nvidia"@,
        ),
        k == "__GL_THREADED_OPTIMIZATIONS"@ ==> env_get(common_env(cfg, host), k) == Some("1"@),
        host.nvidia_icd matches Some(icd) ==> (k == "VK_ICD_FILENAMES"@ ==> env_get(
            common_env(cfg, host),
            k,
        ) == Some(icd@)),
{
    reveal_strlit("DXVK_FILTER_DEVICE_NAME");
    reveal_strlit("__NV_PRIME_RENDER_OFFLOAD");
    reveal_strlit("__GLX_VENDOR_LIBRARY_NAME");
    reveal_strlit("__GL_THREADED_OPTIMIZATIONS");
    reveal_strlit("VK_ICD_FILENAMES");
    let keys = seq![
        "DXVK_FILTER_DEVICE_NAME"@,
        "__NV_PRIME_RENDER_OFFLOAD"@,
        "__GLX_VENDOR_LIBRARY_NAME"@,
        "__GL_THREADED_OPTIMIZATIONS"@,
        "VK_ICD_FILENAMES"@,
    ];
    if keys.contains(k) {
        let g = gpu_env(cfg, host);
        let icd_part = match host.nvidia_icd {
            Some(icd) => seq![("VK_ICD_FILENAMES"@, icd@)],
            None => Seq::<(Seq<char>, Seq<char>)>::empty(),
        };
        assert(g == nvidia_env() + icd_part);
        lemma_env_get_concat(nvidia_env(), icd_part, k);
        if k != "VK_ICD_FILENAMES"@ {
            assert(icd_part.len() == 0 || icd_part[0].0 != k);
            lemma_env_get_absent(icd_part, k);
            reveal_with_fuel(env_get, 5);
            let ne = nvidia_env();
            assert(ne.drop_last() =~= seq![ne[0], ne[1], ne[2]]);
            assert(ne.drop_last().drop_last() =~= seq![ne[0], ne[1]]);
            assert(ne.drop_last().drop_last().drop_last() =~= seq![ne[0]]);
            assert(k[0] == 'D' || k[0] == '_');
            if k == "DXVK_FILTER_DEVICE_NAME"@ {
                assert(k[0] != ne[1].0[0] && k[0] != ne[2].0[0] && k[0] != ne[3].0[0]);
            } else if k == "__NV_PRIME_RENDER_OFFLOAD"@ {
                assert(k[2] != ne[2].0[2] && k[2] != ne[3].0[2]);
            } else if k == "__GLX_VENDOR_LIBRARY_NAME"@ {
                assert(k[4] != ne[3].0[4]);
            }
            lemma_gpu_value_reaches_launch(cfg, host, k, env_get(g, k).unwrap());
        } else if host.nvidia_icd is Some {
            reveal_with_fuel(env_get, 2);
            lemma_gpu_value_reaches_launch(cfg, host, k, env_get(g, k).unwrap());
        }
    }
}

/// Forcing `nvidia` gives every GPU variable that the automatic choice sets
/// on a host with an NVIDIA ICD, with the same value.
pub proof fn lemma_nvidia_covers_auto(forced: &Config, auto: &Config, host: &HostEnv, k: Seq<char>)
    requires
        forced.launcher.gpu_device@ == "nvidia"@,
        auto.launcher.gpu_device@ != "nvidia"@,
        auto.launcher.gpu_device@ != "intel"@,
        host.nvidia_icd is Some,
        env_get(gpu_env(auto, host), k) is Some,
    ensures
        env_get(gpu_env(forced, host), k) == env_get(gpu_env(auto, host), k),
{
    let icd_part = seq![("VK_ICD_FILENAMES"@, host.nvidia_icd.unwrap()@)];
    assert(gpu_env(forced, host) == nvidia_env() + icd_part);
    reveal_strlit("DXVK_FILTER_DEVICE_NAME");
    reveal_strlit("__NV_PRIME_RENDER_OFFLOAD");
    reveal_strlit("__GLX_VENDOR_LIBRARY_NAME");
    reveal_strlit("__GL_THREADED_OPTIMIZATIONS");
    reveal_strlit("VK_ICD_FILENAMES");
    let ne = nvidia_env();
    if k == "VK_ICD_FILENAMES"@ {
        assert forall|i: int| 0 <= i < ne.len() implies (#[trigger] ne[i]).0 != k by {
            assert(ne[i].0[0] != k[0]);
        }
        lemma_env_get_absent(ne, k);
    }
    lemma_env_get_concat(ne, icd_part, k);
    reveal_with_fuel(env_get, 2);
}

/// The user's `[wine.env]` settings reach the game: every variable set
/// there has its configured value in the shared launch environment, unless
/// a plugin sets the same variable.
pub proof fn lemma_user_env_wins(cfg: &Config, host: &HostEnv, i: int)
    requires
        cfg.wf(),
        0 <= i < cfg.wine.env@.len(),
        env_get(env_view(host.plugin_env@), cfg.wine.env@[i].0@) is None,
    ensures
        env_get(common_env(cfg, host), cfg.wine.env@[i].0@) == Some(cfg.wine.env@[i].1@),
{
    let k = cfg.wine.env@[i].0@;
    let pre = noise_env(cfg) + cache_env(cfg, host) + fixed_env() + hud_env(cfg) + gpu_env(
        cfg,
        host,
    ) + session_env(cfg, host);
    lemma_env_get_distinct(cfg.wine.env@, i);
    lemma_env_get_concat(pre, env_view(cfg.wine.env@), k);
    lemma_env_get_concat(pre + env_view(cfg.wine.env@), env_view(host.plugin_env@), k);
}

/// Every launch plan sees the shared environment's value for a name, since
/// the shared part comes last.
pub proof fn lemma_plan_env_shared_last(prefix: EnvView, cfg: &Config, host: &HostEnv, k: Seq<char>)
    ensures
        env_get(common_env(cfg, host), k) is Some ==> env_get(prefix + common_env(cfg, host), k)
            == env_get(common_env(cfg, host), k),
{
    lemma_env_get_concat(prefix, common_env(cfg, host), k);
}


/// When the GE-Proton backend is not ready, the launch falls back to plain
/// Wine.
pub proof fn lemma_fallback_to_wine(
    cfg: &Config,
    probe: &BackendProbe,
    s: BackendStatus,
    plan: LaunchPlan,
    uri: Seq<char>,
    host: &HostEnv,
)
    requires
        status_is(s, cfg, probe),
        !(s is Ready),
        base_plan(plan, cfg, uri, probe, host),
    ensures
        wine_plan(plan, cfg, uri, host),
{
}

} // verus!
