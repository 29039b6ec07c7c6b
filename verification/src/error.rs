use vstd::prelude::*;

verus! {

/// The errors of the launcher, each with its message.
#[derive(Debug, PartialEq, Eq)]
pub enum TempestError {
    AuthError(String),
    ConfigError(String),
    NetworkError(String),
    IoError(String),
    Other(String),
}

impl TempestError {
    /// The message the error carries.
    pub fn message(&self) -> (r: String)
        ensures
            r@ == match self {
                TempestError::AuthError(m) => m@,
                TempestError::ConfigError(m) => m@,
                TempestError::NetworkError(m) => m@,
                TempestError::IoError(m) => m@,
                TempestError::Other(m) => m@,
            },
    {
        match self {
            TempestError::AuthError(m) => m.clone(),
            TempestError::ConfigError(m) => m.clone(),
            TempestError::NetworkError(m) => m.clone(),
            TempestError::IoError(m) => m.clone(),
            TempestError::Other(m) => m.clone(),
        }
    }
}

} // verus!
