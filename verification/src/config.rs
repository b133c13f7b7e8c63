//! The values a session is configured with.
//!
//! Reading the configuration file and generating a fresh one are the outer
//! program's business; this crate only holds the values and checks that the
//! ones a login needs are present.

use vstd::prelude::*;

verus! {

/// Why a configuration is unusable.
#[derive(Clone, Copy, PartialEq, Eq, Debug, Structural)]
pub enum ConfigError {
    MissingEmail,
    MissingPassword,
}

#[derive(Clone, Debug, PartialEq, Eq)]
pub struct AppConfig {
    pub email: String,
    pub password: String,
    pub skip_splash: bool,
}

impl AppConfig {
    pub fn new(email: String, password: String, skip_splash: bool) -> (c: AppConfig)
        ensures
            c.email == email,
            c.password == password,
            c.skip_splash == skip_splash,
    {
        AppConfig { email, password, skip_splash }
    }

    /// A login needs both credentials; the first missing one is reported.
    pub fn check_required_fields(&self) -> (r: Result<(), ConfigError>)
        ensures
            r is Ok <==> self.email@.len() > 0 && self.password@.len() > 0,
            self.email@.len() == 0 ==> r == Err::<(), ConfigError>(ConfigError::MissingEmail),
            self.email@.len() > 0 && self.password@.len() == 0 ==> r == Err::<(), ConfigError>(
                ConfigError::MissingPassword,
            ),
    {
        if self.email.as_str().is_empty() {
            return Err(ConfigError::MissingEmail);
        }
        if self.password.as_str().is_empty() {
            return Err(ConfigError::MissingPassword);
        }
        Ok(())
    }
}

} // verus!
