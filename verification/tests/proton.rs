use tempest::proton::umu_choice;
use tempest::proton::proton_choice;
use tempest::proton::{resolve_proton, umu_binary};
use tempest::config::Config;
use tempest::launcher::HostEnv;
use tempest::proton::{
    build_command, install_dir, select_installed_proton, status_from, version_of, BackendProbe,
    BackendStatus, ProtonDirEntry,
};

fn entry(name: &str, is_dir: bool, modified: Option<i128>) -> ProtonDirEntry {
    ProtonDirEntry { name: name.to_string(), path: format!("/p/{name}"), is_dir, modified }
}

fn host() -> HostEnv {
    HostEnv {
        session_type: String::new(),
        wayland_display: None,
        cache_root: "/c".to_string(),
        nvidia_icd: None,
        plugin_env: Vec::new(),
    }
}

#[test]
fn describe_each_status() {
    assert_eq!(BackendStatus::Ready { version: "v".into() }.describe(), "ready");
    assert_eq!(BackendStatus::NotConfigured.describe(), "proton disabled in config");
    assert_eq!(BackendStatus::MissingUmu.describe(), "umu-run not found (install umu-launcher)");
    assert_eq!(
        BackendStatus::MissingProton { requested: "x".into() }.describe(),
        "GE-Proton not found (run: tempest proton)"
    );
}

#[test]
fn newest_install_wins() {
    let entries = vec![
        entry("GE-Proton9-1", true, Some(10)),
        entry("GE-Proton9-5", true, Some(30)),
        entry("GE-Proton9-9", false, Some(99)),
        entry("other", true, Some(100)),
        entry("GE-Proton9-7", true, None),
        entry("GE-Proton9-3", true, Some(30)),
    ];
    assert_eq!(select_installed_proton(&entries), Some("/p/GE-Proton9-5".to_string()));
    assert_eq!(select_installed_proton(&vec![entry("x", true, Some(1))]), None);
    assert_eq!(select_installed_proton(&Vec::new()), None);
}

#[test]
fn status_from_probe() {
    let mut cfg = Config::with_data_dir("/d");
    let found = BackendProbe { umu: Some("/usr/bin/umu-run".into()), proton: Some("/p/GE-Proton9-5".into()) };
    assert_eq!(status_from(&cfg, &found), BackendStatus::Ready { version: "GE-Proton9-5".into() });
    let no_umu = BackendProbe { umu: None, proton: Some("/p".into()) };
    assert_eq!(status_from(&cfg, &no_umu), BackendStatus::MissingUmu);
    let no_proton = BackendProbe { umu: Some("u".into()), proton: None };
    assert_eq!(
        status_from(&cfg, &no_proton),
        BackendStatus::MissingProton { requested: "GE-Proton".into() }
    );
    let root = BackendProbe { umu: Some("u".into()), proton: Some("/".into()) };
    assert_eq!(status_from(&cfg, &root), BackendStatus::Ready { version: "/".into() });
    cfg.proton.enabled = false;
    assert_eq!(status_from(&cfg, &found), BackendStatus::NotConfigured);
}

#[test]
fn status_with_empty_settings() {
    let mut cfg = Config::with_data_dir("/d");
    cfg.proton.umu = "   ".into();
    assert_eq!(tempest::proton::status(&cfg, &Vec::new()), BackendStatus::MissingUmu);
    cfg.proton.enabled = false;
    assert_eq!(tempest::proton::status(&cfg, &Vec::new()), BackendStatus::NotConfigured);
}

#[test]
fn version_and_install_dir() {
    assert_eq!(version_of("/x/GE-Proton10-3"), Some("GE-Proton10-3".to_string()));
    assert_eq!(version_of("/"), None);
    assert_eq!(install_dir("/d/tempest"), "/d/tempest/proton");
}

#[test]
fn proton_command() {
    let mut cfg = Config::with_data_dir("/d");
    cfg.launcher.fsr = 3;
    cfg.launcher.shader_cache = false;
    let probe = BackendProbe { umu: Some("/bin/umu-run".into()), proton: Some("/p/GE".into()) };
    let plan = build_command(&cfg, "vortex://play?game=1&token=t", &probe, &host()).unwrap();
    assert_eq!(plan.program, "/bin/umu-run");
    assert_eq!(plan.args, vec!["/d/Vortex.exe".to_string(), "vortex://play?game=1&token=t".to_string()]);
    let env: Vec<(&str, &str)> = plan.env.iter().map(|(k, v)| (k.as_str(), v.as_str())).collect();
    assert_eq!(&env[..5], &[
        ("WINEPREFIX", "/d/prefix"),
        ("GAMEID", "umu-vortex"),
        ("STORE", "none"),
        ("PROTONPATH", "/p/GE"),
        ("WGPU_BACKEND", "vulkan"),
    ]);
    assert!(env.contains(&("WINE_FULLSCREEN_FSR_STRENGTH", "3")));
    assert!(plan.create_dirs.is_empty());
    cfg.proton.enabled = false;
    assert!(build_command(&cfg, "u", &probe, &host()).is_none());
    cfg.proton.enabled = true;
    let half = BackendProbe { umu: None, proton: Some("/p/GE".into()) };
    assert!(build_command(&cfg, "u", &half, &host()).is_none());
}

#[test]
fn umu_choice_per_setting() {
    let mut cfg = Config::with_data_dir("/d");
    cfg.proton.umu = "  ".into();
    assert_eq!(umu_choice(&cfg, true, Some("/x".into())), None);
    cfg.proton.umu = " /opt/umu/umu-run ".into();
    assert_eq!(umu_choice(&cfg, true, None), Some("/opt/umu/umu-run".to_string()));
    assert_eq!(umu_choice(&cfg, false, Some("/x".into())), None);
    cfg.proton.umu = "umu-run".into();
    assert_eq!(umu_choice(&cfg, false, Some("/usr/bin/umu-run".into())), Some("/usr/bin/umu-run".to_string()));
    assert_eq!(umu_choice(&cfg, true, None), None);
}

#[test]
fn proton_choice_per_setting() {
    let installed = vec![entry("GE-Proton9-1", true, Some(10)), entry("GE-Proton9-5", true, Some(30))];
    let mut cfg = Config::with_data_dir("/d");
    assert_eq!(proton_choice(&cfg, &installed, false), Some("/p/GE-Proton9-5".to_string()));
    assert_eq!(proton_choice(&cfg, &Vec::new(), true), None);
    cfg.proton.proton_path = " /opt/GE-Proton8-3 ".into();
    assert_eq!(proton_choice(&cfg, &installed, true), Some("/opt/GE-Proton8-3".to_string()));
    assert_eq!(proton_choice(&cfg, &installed, false), None);
    cfg.proton.proton_path = "".into();
    assert_eq!(proton_choice(&cfg, &installed, true), None);
}

#[test]
fn empty_settings_probe_nothing() {
    let mut cfg = Config::with_data_dir("/d");
    cfg.proton.umu = String::new();
    cfg.proton.proton_path = " ".into();
    assert_eq!(umu_binary(&cfg), None);
    assert_eq!(resolve_proton(&cfg, &vec![entry("GE-Proton9-1", true, Some(1))]), None);
    cfg.proton.proton_path = "GE-Proton".into();
    assert_eq!(
        resolve_proton(&cfg, &vec![entry("GE-Proton9-1", true, Some(1))]),
        Some("/p/GE-Proton9-1".to_string())
    );
}
