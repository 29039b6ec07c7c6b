use vstd::prelude::*;
use crate::paths::{join, path_join};
use crate::text::owned;

verus! {

/// The GE-Proton backend settings (`[proton]`).
pub struct ProtonConfig {
    pub enabled: bool,
    pub umu: String,
    pub proton_path: String,
    pub game_id: String,
    pub store: String,
}

/// The stored login (`[auth]`).
pub struct AuthConfig {
    pub session_token: Option<String>,
    pub username: Option<String>,
}

/// Where the Wine prefix, the client and the log live (`[paths]`).
pub struct PathConfig {
    pub wine_prefix: String,
    pub vortex_exe: String,
    pub log_file: String,
}

/// The Wine binary and extra environment (`[wine]`); `env` holds each
/// variable name at most once.
pub struct WineConfig {
    pub binary: String,
    pub env: Vec<(String, String)>,
}

/// Launch tuning (`[launcher]`).
pub struct LauncherConfig {
    pub filter_wine_noise: bool,
    pub auto_update: bool,
    pub use_esync: bool,
    pub use_fsync: bool,
    pub use_gamemode: bool,
    pub shader_cache: bool,
    pub fsr: u8,
    pub gpu_device: String,
    pub dxvk_hud: String,
    pub wayland_mode: String,
    pub keep_panel: bool,
}

/// The whole configuration file.
pub struct Config {
    pub auth: AuthConfig,
    pub paths: PathConfig,
    pub wine: WineConfig,
    pub launcher: LauncherConfig,
    pub proton: ProtonConfig,
}

/// No variable name occurs twice in an environment list.
pub open spec fn distinct_keys(env: Seq<(String, String)>) -> bool {
    forall|i: int, j: int|
        0 <= i < env.len() && 0 <= j < env.len() && i != j ==> env[i].0@ != env[j].0@
}

impl WineConfig {
    pub open spec fn wf(&self) -> bool {
        distinct_keys(self.env@)
    }
}

impl Config {
    /// The configuration is well formed: the Wine environment is a map.
    pub open spec fn wf(&self) -> bool {
        self.wine.wf()
    }
}

/// The name of the managed GE-Proton install.
pub open spec fn managed_proton() -> Seq<char> {
    seq!['G', 'E', '-', 'P', 'r', 'o', 't', 'o', 'n']
}

impl Default for ProtonConfig {
    fn default() -> (r: Self)
        ensures
            r.enabled,
            r.umu@ == "umu-run"@,
            r.proton_path@ == "GE-Proton"@,
            r.game_id@ == "umu-vortex"@,
            r.store@ == "none"@,
    {
        ProtonConfig {
            enabled: true,
            umu: owned("umu-run"),
            proton_path: owned("GE-Proton"),
            game_id: owned("umu-vortex"),
            store: owned("none"),
        }
    }
}

impl Default for AuthConfig {
    fn default() -> (r: Self)
        ensures
            r.session_token is None,
            r.username is None,
    {
        AuthConfig { session_token: None, username: None }
    }
}

impl Default for WineConfig {
    fn default() -> (r: Self)
        ensures
            r.binary@ == "wine"@,
            r.env@.len() == 0,
            r.wf(),
    {
        WineConfig { binary: owned("wine"), env: Vec::new() }
    }
}

impl Default for LauncherConfig {
    fn default() -> (r: Self)
        ensures
            r.filter_wine_noise,
            r.auto_update,
            r.use_esync,
            r.use_fsync,
            !r.use_gamemode,
            r.shader_cache,
            r.fsr == 0,
            r.gpu_device@ == "auto"@,
            r.dxvk_hud@ == ""@,
            r.wayland_mode@ == "auto"@,
            r.keep_panel,
    {
        LauncherConfig {
            filter_wine_noise: true,
            auto_update: true,
            use_esync: true,
            use_fsync: true,
            use_gamemode: false,
            shader_cache: true,
            fsr: 0,
            gpu_device: owned("auto"),
            dxvk_hud: owned(""),
            wayland_mode: owned("auto"),
            keep_panel: true,
        }
    }
}

impl PathConfig {
    /// The default paths under the data directory `data`.
    pub fn in_data_dir(data: &str) -> (r: Self)
        ensures
            r.wine_prefix@ == path_join(data@, "prefix"@),
            r.vortex_exe@ == path_join(data@, "Vortex.exe"@),
            r.log_file@ == path_join(data@, "tempest.log"@),
    {
        PathConfig {
            wine_prefix: join(data, "prefix"),
            vortex_exe: join(data, "Vortex.exe"),
            log_file: join(data, "tempest.log"),
        }
    }
}

/// `dirs::data_local_dir`, as a string.  What it returns depends on the
/// environment of the process; nothing is stated of it.
#[verifier::external_body]
pub(crate) fn data_local_dir() -> Option<String> {
    dirs::data_local_dir().map(|p| p.to_string_lossy().into_owned())
}

/// `dirs::config_dir`, as a string.  What it returns depends on the
/// environment of the process; nothing is stated of it.
#[verifier::external_body]
fn user_config_dir() -> Option<String> {
    dirs::config_dir().map(|p| p.to_string_lossy().into_owned())
}

/// The data directory given the platform's local data directory (if any)
/// and the home directory.
pub open spec fn data_dir_spec(local: Option<Seq<char>>, home: Seq<char>) -> Seq<char> {
    match local {
        Some(d) => path_join(d, "tempest"@),
        None => path_join(path_join(path_join(home, ".local"@), "share"@), "tempest"@),
    }
}

/// The configuration directory given the platform's configuration directory
/// (if any) and the home directory.
pub open spec fn config_dir_spec(conf: Option<Seq<char>>, home: Seq<char>) -> Seq<char> {
    match conf {
        Some(d) => path_join(d, "tempest"@),
        None => path_join(path_join(home, ".config"@), "tempest"@),
    }
}

pub open spec fn opt_view(o: Option<String>) -> Option<Seq<char>> {
    match o {
        Some(s) => Some(s@),
        None => None,
    }
}

impl Config {
    /// The configuration with every setting at its default, with paths under
    /// the data directory `data`.
    pub fn with_data_dir(data: &str) -> (r: Self)
        ensures
            r.wf(),
            r.auth.session_token is None,
            r.auth.username is None,
            r.paths.wine_prefix@ == path_join(data@, "prefix"@),
            r.paths.vortex_exe@ == path_join(data@, "Vortex.exe"@),
            r.paths.log_file@ == path_join(data@, "tempest.log"@),
            r.wine.binary@ == "wine"@,
            r.wine.env@.len() == 0,
            r.launcher.filter_wine_noise,
            r.launcher.auto_update,
            r.launcher.use_esync,
            r.launcher.use_fsync,
            !r.launcher.use_gamemode,
            r.launcher.shader_cache,
            r.launcher.fsr == 0,
            r.launcher.gpu_device@ == "auto"@,
            r.launcher.dxvk_hud@ == ""@,
            r.launcher.wayland_mode@ == "auto"@,
            r.launcher.keep_panel,
            r.proton.enabled,
            r.proton.umu@ == "umu-run"@,
            r.proton.proton_path@ == "GE-Proton"@,
            r.proton.game_id@ == "umu-vortex"@,
            r.proton.store@ == "none"@,
    {
        Config {
            auth: AuthConfig::default(),
            paths: PathConfig::in_data_dir(data),
            wine: WineConfig::default(),
            launcher: LauncherConfig::default(),
            proton: ProtonConfig::default(),
        }
    }

    /// The data directory from the platform's local data directory, falling
    /// back to `~/.local/share`.
    pub fn data_dir_from(local: Option<String>, home: &str) -> (r: String)
        ensures
            r@ == data_dir_spec(opt_view(local), home@),
    {
        match local {
            Some(d) => join(&d, "tempest"),
            None => {
                let a = join(home, ".local");
                let b = join(&a, "share");
                join(&b, "tempest")
            },
        }
    }

    /// The configuration directory from the platform's configuration
    /// directory, falling back to `~/.config`.
    pub fn config_dir_from(conf: Option<String>, home: &str) -> (r: String)
        ensures
            r@ == config_dir_spec(opt_view(conf), home@),
    {
        match conf {
            Some(d) => join(&d, "tempest"),
            None => {
                let a = join(home, ".config");
                join(&a, "tempest")
            },
        }
    }

    /// The data directory of this process, `home` being its home directory.
    pub fn data_dir_in(home: &str) -> (r: String)
        ensures
            exists|local: Option<Seq<char>>| r@ == data_dir_spec(local, home@),
    {
        let local = data_local_dir();
        let r = Self::data_dir_from(local, home);
        assert(r@ == data_dir_spec(opt_view(local), home@));
        r
    }

    /// The configuration directory of this process, `home` being its home
    /// directory.
    pub fn config_dir_in(home: &str) -> (r: String)
        ensures
            exists|conf: Option<Seq<char>>| r@ == config_dir_spec(conf, home@),
    {
        let conf = user_config_dir();
        let r = Self::config_dir_from(conf, home);
        assert(r@ == config_dir_spec(opt_view(conf), home@));
        r
    }

    /// `self` and `other` hold the same settings.
    pub open spec fn same_as(&self, other: &Self) -> bool {
        &&& self.auth == other.auth
        &&& self.paths == other.paths
        &&& self.wine.binary == other.wine.binary
        &&& self.wine.env@ == other.wine.env@
        &&& self.launcher == other.launcher
        &&& self.proton == other.proton
    }

    /// A field-by-field copy of the configuration.
    pub fn serialize_plain(&self) -> (r: Self)
        ensures
            r.same_as(self),
            self.wf() ==> r.wf(),
    {
        let mut env: Vec<(String, String)> = Vec::new();
        let mut i: usize = 0;
        while i < self.wine.env.len()
            invariant
                0 <= i <= self.wine.env.len(),
                env@ == self.wine.env@.take(i as int),
            decreases self.wine.env.len() - i,
        {
            let (k, v) = &self.wine.env[i];
            env.push((k.clone(), v.clone()));
            i = i + 1;
            assert(env@ =~= self.wine.env@.take(i as int));
        }
        assert(self.wine.env@.take(i as int) =~= self.wine.env@);
        let r = Config {
            auth: AuthConfig {
                session_token: clone_opt(&self.auth.session_token),
                username: clone_opt(&self.auth.username),
            },
            paths: PathConfig {
                wine_prefix: self.paths.wine_prefix.clone(),
                vortex_exe: self.paths.vortex_exe.clone(),
                log_file: self.paths.log_file.clone(),
            },
            wine: WineConfig { binary: self.wine.binary.clone(), env },
            launcher: LauncherConfig {
                filter_wine_noise: self.launcher.filter_wine_noise,
                auto_update: self.launcher.auto_update,
                use_esync: self.launcher.use_esync,
                use_fsync: self.launcher.use_fsync,
                use_gamemode: self.launcher.use_gamemode,
                shader_cache: self.launcher.shader_cache,
                fsr: self.launcher.fsr,
                gpu_device: self.launcher.gpu_device.clone(),
                dxvk_hud: self.launcher.dxvk_hud.clone(),
                wayland_mode: self.launcher.wayland_mode.clone(),
                keep_panel: self.launcher.keep_panel,
            },
            proton: ProtonConfig {
                enabled: self.proton.enabled,
                umu: self.proton.umu.clone(),
                proton_path: self.proton.proton_path.clone(),
                game_id: self.proton.game_id.clone(),
                store: self.proton.store.clone(),
            },
        };
        assert(r.wine.env@ == self.wine.env@);
        r
    }

    /// Records a successful login: the session token and the user name.
    pub fn set_session(&mut self, username: &str, token: String)
        ensures
            final(self).auth.session_token == Some(token),
            final(self).auth.username matches Some(u) && u@ == username@,
            final(self).paths == old(self).paths,
            final(self).wine == old(self).wine,
            final(self).launcher == old(self).launcher,
            final(self).proton == old(self).proton,
    {
        self.auth.session_token = Some(token);
        self.auth.username = Some(owned(username));
    }

    /// Switches the launcher to the managed GE-Proton install.
    pub fn enable_managed_proton(&mut self)
        ensures
            final(self).proton.enabled,
            final(self).proton.proton_path@ == managed_proton(),
            final(self).proton.umu == old(self).proton.umu,
            final(self).proton.game_id == old(self).proton.game_id,
            final(self).proton.store == old(self).proton.store,
            final(self).auth == old(self).auth,
            final(self).paths == old(self).paths,
            final(self).wine == old(self).wine,
            final(self).launcher == old(self).launcher,
    {
        self.proton.enabled = true;
        self.proton.proton_path = owned("GE-Proton");
        proof {
            reveal_strlit("GE-Proton");
        }
    }
}

fn clone_opt(o: &Option<String>) -> (r: Option<String>)
    ensures
        r == *o,
{
    match o {
        Some(s) => Some(s.clone()),
        None => None,
    }
}

} // verus!
