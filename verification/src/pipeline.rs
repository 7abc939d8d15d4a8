//! Fail-fast checks of a pipeline run.  A run needs both credentials; it
//! never starts the handshake on its own, and whoever triggered the run
//! receives whatever failure stopped it.

use vstd::prelude::*;

use crate::config::Config;
use crate::config::ConfigError;

verus! {

/// The two credentials a run needs.
pub struct Credentials {
    pub api_key: String,
    pub session_id: String,
}

/// Extracts the credentials, or says which one is missing.  A run aborts
/// here, before any fetch, when the configuration holds no API key or no
/// session id.
pub fn credentials(config: Config) -> (r: Result<Credentials, ConfigError>)
    ensures
        r is Ok <==> (config.tmdb_api_key is Some && config.session_id is Some),
        r matches Ok(c) ==> config.tmdb_api_key == Some(c.api_key) && config.session_id == Some(
            c.session_id,
        ),
        r matches Err(e) ==> e == (if config.tmdb_api_key is None {
            ConfigError::MissingApiKey
        } else {
            ConfigError::MissingSessionId
        }),
{
    match (config.tmdb_api_key, config.session_id) {
        (Some(api_key), Some(session_id)) => Ok(Credentials { api_key, session_id }),
        (None, _) => Err(ConfigError::MissingApiKey),
        (Some(_), None) => Err(ConfigError::MissingSessionId),
    }
}

/// Name of the fixed local file each run downloads into, overwriting the
/// previous image; on a failed run the file — and the wallpaper — stay
/// untouched.
pub fn wallpaper_file_name() -> (r: &'static str)
    ensures
        r@ == "wallpaper.jpg"@,
{
    "wallpaper.jpg"
}

} // verus!
