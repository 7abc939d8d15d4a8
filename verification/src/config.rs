//! The user configuration record and its invariant.

use vstd::prelude::*;

use crate::schedule::FetchPeriod;
use crate::schedule::str_eq;

verus! {

/// Which of the two user-curated lists titles are drawn from.
#[derive(Clone, Copy, PartialEq, Eq, Structural, Debug)]
pub enum ListType {
    Watchlist,
    Favorites,
}

impl ListType {
    /// Name under which each list is stored in the configuration and
    /// quoted in messages.
    pub open spec fn spec_name(self) -> Seq<char> {
        match self {
            ListType::Watchlist => "watchlist"@,
            ListType::Favorites => "favorites"@,
        }
    }

    pub fn name(self) -> (r: &'static str)
        ensures
            r@ == self.spec_name(),
    {
        match self {
            ListType::Watchlist => "watchlist",
            ListType::Favorites => "favorites",
        }
    }

    /// Path segment of the catalog's list endpoints for this list.
    pub open spec fn spec_path_segment(self) -> Seq<char> {
        match self {
            ListType::Watchlist => "watchlist"@,
            ListType::Favorites => "favorite"@,
        }
    }

    pub fn path_segment(self) -> (r: &'static str)
        ensures
            r@ == self.spec_path_segment(),
    {
        match self {
            ListType::Watchlist => "watchlist",
            ListType::Favorites => "favorite",
        }
    }

    /// Reads a stored list name: "watchlist" selects the watchlist,
    /// anything else the favorites.
    pub fn from_name(name: &str) -> (r: ListType)
        ensures
            r == ListType::Watchlist <==> name@ == "watchlist"@,
    {
        if str_eq(name, "watchlist") {
            ListType::Watchlist
        } else {
            ListType::Favorites
        }
    }
}

/// Errors of the configuration itself; fatal to a run, never retried.
pub enum ConfigError {
    /// Neither movies nor TV shows are enabled.
    NoKindEnabled,
    /// No API key has been configured.
    MissingApiKey,
    /// No session id has been stored; the handshake has not completed.
    MissingSessionId,
}

impl ConfigError {
    pub open spec fn spec_message(self) -> Seq<char> {
        match self {
            ConfigError::NoKindEnabled => "You must select at least one of movies or tv"@,
            ConfigError::MissingApiKey => "No TMDB API key or session ID"@,
            ConfigError::MissingSessionId => "No TMDB API key or session ID"@,
        }
    }

    /// User-facing description of the configuration fault.
    pub fn message(&self) -> (r: String)
        ensures
            r@ == self.spec_message(),
    {
        match self {
            ConfigError::NoKindEnabled => "You must select at least one of movies or tv".to_owned(),
            ConfigError::MissingApiKey => "No TMDB API key or session ID".to_owned(),
            ConfigError::MissingSessionId => "No TMDB API key or session ID".to_owned(),
        }
    }
}

/// The one persisted record: what to fetch, how to filter it, and the
/// credentials of the remote catalog.
pub struct Config {
    pub tmdb_api_key: Option<String>,
    pub session_id: Option<String>,
    pub movies: bool,
    pub tv: bool,
    pub list_type: ListType,
    pub fetch_period: FetchPeriod,
    pub filter_photos_with_text: bool,
    pub language_of_photos: Option<String>,
    pub width: Option<u32>,
    pub height: Option<u32>,
}

impl Config {
    /// Invariant: at least one of movies / TV must be enabled.
    pub open spec fn wf(&self) -> bool {
        self.movies || self.tv
    }

    /// Accepts a record only when its invariant holds; the settings
    /// surface rejects anything else.
    pub fn validate(&self) -> (r: Result<(), ConfigError>)
        ensures
            r is Ok <==> self.wf(),
            r matches Err(e) ==> e == ConfigError::NoKindEnabled,
    {
        if self.movies || self.tv {
            Ok(())
        } else {
            Err(ConfigError::NoKindEnabled)
        }
    }
}

impl Default for Config {
    /// A fresh installation: both kinds enabled, watchlist, one fetch a
    /// day, text-free photos in English, 1280x720 floor, no credentials.
    fn default() -> (c: Self)
        ensures
            c.tmdb_api_key is None,
            c.session_id is None,
            c.movies,
            c.tv,
            c.list_type == ListType::Watchlist,
            c.fetch_period == FetchPeriod::Daily,
            c.filter_photos_with_text,
            c.language_of_photos matches Some(l) && l@ == "en"@,
            c.width == Some(1280u32),
            c.height == Some(720u32),
            c.wf(),
    {
        Config {
            tmdb_api_key: None,
            session_id: None,
            movies: true,
            tv: true,
            list_type: ListType::Watchlist,
            fetch_period: FetchPeriod::Daily,
            filter_photos_with_text: true,
            language_of_photos: Some("en".to_owned()),
            width: Some(1280),
            height: Some(720),
        }
    }
}

} // verus!
