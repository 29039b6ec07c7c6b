use tempest::config::Config;

fn sample() -> Config {
    let mut cfg = Config::with_data_dir("/home/u/.local/share/tempest");
    cfg.wine.env.push(("DXVK_HUD".to_string(), "fps".to_string()));
    cfg.auth.session_token = Some("tok".to_string());
    cfg
}

#[test]
fn defaults_follow_the_documented_config() {
    let cfg = Config::with_data_dir("/d");
    assert!(cfg.launcher.filter_wine_noise);
    assert!(cfg.launcher.auto_update);
    assert!(cfg.launcher.use_esync);
    assert!(cfg.launcher.use_fsync);
    assert!(!cfg.launcher.use_gamemode);
    assert!(cfg.launcher.shader_cache);
    assert_eq!(cfg.launcher.fsr, 0);
    assert_eq!(cfg.launcher.gpu_device, "auto");
    assert_eq!(cfg.launcher.dxvk_hud, "");
    assert_eq!(cfg.launcher.wayland_mode, "auto");
    assert!(cfg.launcher.keep_panel);
    assert_eq!(cfg.wine.binary, "wine");
    assert!(cfg.wine.env.is_empty());
    assert!(cfg.proton.enabled);
    assert_eq!(cfg.proton.umu, "umu-run");
    assert_eq!(cfg.proton.proton_path, "GE-Proton");
    assert_eq!(cfg.proton.game_id, "umu-vortex");
    assert_eq!(cfg.proton.store, "none");
    assert_eq!(cfg.paths.wine_prefix, "/d/prefix");
    assert_eq!(cfg.paths.vortex_exe, "/d/Vortex.exe");
    assert_eq!(cfg.paths.log_file, "/d/tempest.log");
    assert!(cfg.auth.session_token.is_none());
}

#[test]
fn serialize_plain_copies_every_field() {
    let cfg = sample();
    let copy = cfg.serialize_plain();
    assert_eq!(copy.auth.session_token, cfg.auth.session_token);
    assert_eq!(copy.wine.env, cfg.wine.env);
    assert_eq!(copy.paths.vortex_exe, cfg.paths.vortex_exe);
    assert_eq!(copy.proton.umu, cfg.proton.umu);
    assert_eq!(copy.launcher.fsr, cfg.launcher.fsr);
}

#[test]
fn data_and_config_dirs() {
    assert_eq!(Config::data_dir_from(Some("/x/share".to_string()), "/h"), "/x/share/tempest");
    assert_eq!(Config::data_dir_from(None, "/h"), "/h/.local/share/tempest");
    assert_eq!(Config::config_dir_from(Some("/x/conf/".to_string()), "/h"), "/x/conf/tempest");
    assert_eq!(Config::config_dir_from(None, "/h"), "/h/.config/tempest");
    assert!(Config::data_dir_in("/h").ends_with("tempest"));
    assert!(Config::config_dir_in("/h").ends_with("tempest"));
}

#[test]
fn login_is_recorded() {
    let mut cfg = sample();
    cfg.set_session("alice", "new".to_string());
    assert_eq!(cfg.auth.session_token.as_deref(), Some("new"));
    assert_eq!(cfg.auth.username.as_deref(), Some("alice"));
}

#[test]
fn managed_proton_is_enabled() {
    let mut cfg = sample();
    cfg.proton.enabled = false;
    cfg.proton.proton_path = "/opt/p".to_string();
    cfg.enable_managed_proton();
    assert!(cfg.proton.enabled);
    assert_eq!(cfg.proton.proton_path, "GE-Proton");
    assert_eq!(cfg.proton.umu, "umu-run");
}
