use tempest::launcher::{first_nvidia_icd, nvidia_icd_paths};
use tempest::config::Config;
use tempest::launcher::{
    backend_label, build_launch_command, build_wine_command, exit_report, is_noise, is_wayland,
    launch_game_label, perf_summary, should_echo, ExitReport, HostEnv,
};
use tempest::proton::{BackendProbe, BackendStatus};

fn host() -> HostEnv {
    HostEnv {
        session_type: "x11".to_string(),
        wayland_display: None,
        cache_root: "/home/u/.cache".to_string(),
        nvidia_icd: None,
        plugin_env: Vec::new(),
    }
}

fn get<'a>(env: &'a [(String, String)], key: &str) -> Option<&'a str> {
    env.iter().rev().find(|(k, _)| k == key).map(|(_, v)| v.as_str())
}

#[test]
fn wine_command_environment() {
    let mut cfg = Config::with_data_dir("/d");
    cfg.launcher.dxvk_hud = "fps".into();
    cfg.wine.env.push(("DXVK_HUD".into(), "full".into()));
    let plan = build_wine_command(&cfg, "vortex://x", &host());
    assert_eq!(plan.program, "wine");
    assert_eq!(plan.args, vec!["/d/Vortex.exe".to_string(), "vortex://x".to_string()]);
    assert_eq!(get(&plan.env, "WINEPREFIX"), Some("/d/prefix"));
    assert_eq!(get(&plan.env, "WINEDEBUG"), Some("-all"));
    assert_eq!(get(&plan.env, "WINEESYNC"), Some("1"));
    assert_eq!(get(&plan.env, "VKD3D_SHADER_CACHE_PATH"), Some("/home/u/.cache/vortex-shaders"));
    assert_eq!(get(&plan.env, "DXVK_STATE_CACHE_PATH"), Some("/home/u/.cache/vortex-shaders/dxvk"));
    assert_eq!(get(&plan.env, "PROTON_ENABLE_WAYLAND"), Some("0"));
    assert_eq!(get(&plan.env, "WINE_DISABLE_FULLSCREEN_HACK"), Some("1"));
    // the user's [wine.env] wins over the built-in HUD setting
    assert_eq!(get(&plan.env, "DXVK_HUD"), Some("full"));
    assert_eq!(plan.create_dirs.len(), 4);
    assert!(plan.current_dir.is_none());
}

#[test]
fn gpu_selection() {
    let mut cfg = Config::with_data_dir("/d");
    let mut h = host();
    h.nvidia_icd = Some("/usr/share/vulkan/icd.d/nvidia_icd.json".into());
    let plan = build_wine_command(&cfg, "u", &h);
    assert_eq!(get(&plan.env, "DXVK_FILTER_DEVICE_NAME"), Some("NVIDIA"));
    assert_eq!(get(&plan.env, "VK_ICD_FILENAMES"), None);
    cfg.launcher.gpu_device = "nvidia".into();
    let plan = build_wine_command(&cfg, "u", &h);
    assert_eq!(get(&plan.env, "VK_ICD_FILENAMES"), Some("/usr/share/vulkan/icd.d/nvidia_icd.json"));
    cfg.launcher.gpu_device = "intel".into();
    let plan = build_wine_command(&cfg, "u", &h);
    assert_eq!(get(&plan.env, "DXVK_FILTER_DEVICE_NAME"), Some("Intel"));
    assert_eq!(get(&plan.env, "__NV_PRIME_RENDER_OFFLOAD"), None);
}

#[test]
fn wayland_detection() {
    let mut cfg = Config::with_data_dir("/d");
    let mut h = host();
    assert!(!is_wayland(&cfg, &h));
    h.session_type = "Wayland".into();
    assert!(is_wayland(&cfg, &h));
    cfg.launcher.wayland_mode = "off".into();
    assert!(!is_wayland(&cfg, &h));
    cfg.launcher.wayland_mode = "on".into();
    h.wayland_display = Some("wayland-0".into());
    let plan = build_wine_command(&cfg, "u", &h);
    assert_eq!(get(&plan.env, "PROTON_ENABLE_WAYLAND"), Some("1"));
    assert_eq!(get(&plan.env, "WAYLAND_DISPLAY"), Some("wayland-0"));
}

#[test]
fn gamemode_wraps_the_command() {
    let cfg = Config::with_data_dir("/d");
    let probe = BackendProbe { umu: None, proton: None };
    let plan = build_launch_command(&cfg, "vortex://y", true, &probe, &host()).unwrap();
    assert_eq!(plan.program, "gamemoderun");
    assert_eq!(plan.args, vec!["wine".to_string(), "/d/Vortex.exe".to_string(), "vortex://y".to_string()]);
    assert_eq!(plan.current_dir.as_deref(), Some("."));
    assert_eq!(get(&plan.env, "WINEPREFIX"), Some("/d/prefix"));
    let plain = build_launch_command(&cfg, "vortex://y", false, &probe, &host()).unwrap();
    assert_eq!(plain.program, "wine");
}

#[test]
fn proton_preferred_when_found() {
    let cfg = Config::with_data_dir("/d");
    let probe = BackendProbe { umu: Some("/u".into()), proton: Some("/p".into()) };
    let plan = build_launch_command(&cfg, "vortex://y", false, &probe, &host()).unwrap();
    assert_eq!(plan.program, "/u");
}

#[test]
fn perf_summary_lists_features() {
    let mut cfg = Config::with_data_dir("/d");
    assert_eq!(perf_summary(&cfg, false, &host()), "esync fsync shader-cache panel");
    cfg.launcher.fsr = 2;
    cfg.launcher.gpu_device = "nvidia".into();
    cfg.launcher.dxvk_hud = "fps".into();
    assert_eq!(
        perf_summary(&cfg, true, &host()),
        "esync fsync fsr2 gamemode shader-cache gpu=nvidia dxvk-hud panel"
    );
    cfg.launcher.use_esync = false;
    cfg.launcher.use_fsync = false;
    cfg.launcher.shader_cache = false;
    cfg.launcher.keep_panel = false;
    cfg.launcher.fsr = 0;
    cfg.launcher.gpu_device = "auto".into();
    cfg.launcher.dxvk_hud = String::new();
    assert_eq!(perf_summary(&cfg, false, &host()), "none");
}

#[test]
fn noise_filter() {
    assert!(is_noise("0024:fixme:ntdll:stub"));
    assert!(is_noise("libEGL warning: DRI2"));
    assert!(!is_noise("Game started"));
    assert!(should_echo(false, "fixme: x"));
    assert!(!should_echo(true, "fixme: x"));
    assert!(should_echo(true, "hello"));
}

#[test]
fn launch_labels() {
    let cfg = Config::with_data_dir("/d");
    assert_eq!(backend_label(&cfg, &BackendStatus::Ready { version: "v".into() }), "GE-Proton (umu)");
    assert_eq!(backend_label(&cfg, &BackendStatus::MissingUmu), "wine");
    assert_eq!(launch_game_label("vortex://play?game=12&token=t"), "12");
    assert_eq!(launch_game_label("nope"), "?");
    assert_eq!(exit_report(Some(0)), ExitReport::Clean);
    assert_eq!(exit_report(Some(3)), ExitReport::Failed { code: 3 });
    assert_eq!(exit_report(None), ExitReport::Signalled);
}

#[test]
fn nvidia_icd_first_present() {
    assert_eq!(first_nvidia_icd(false, false, false), None);
    assert_eq!(
        first_nvidia_icd(false, true, true),
        Some("/usr/share/vulkan/icd.d/nvidia_icd.x86_64.json".to_string())
    );
    assert_eq!(first_nvidia_icd(true, true, false), Some("/usr/share/vulkan/icd.d/nvidia_icd.json".to_string()));
    assert_eq!(first_nvidia_icd(false, false, true), Some("/usr/share/vulkan/icd.d/nvidia_icd.i686.json".to_string()));
    assert_eq!(nvidia_icd_paths().len(), 3);
}
