//! Tempest: configuration, authentication decisions, URI handling, backend
//! selection and launch planning for the Vortex client under Wine or
//! GE-Proton, with their contracts proved by Verus.

pub mod text;
pub mod paths;
pub mod error;
pub mod config;
pub mod uri;
pub mod launcher;
pub mod proton;
pub mod auth;
pub mod release;
pub mod install;
pub mod desktop;
pub mod games;
pub mod logger;

pub use config::{AuthConfig, Config, LauncherConfig, PathConfig, ProtonConfig, WineConfig};
pub use error::TempestError;
pub use games::Game;
pub use proton::{status, BackendStatus};
pub use uri::{build_uri, parse_vortex_uri, redact};
