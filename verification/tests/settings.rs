use wallpaperflix::config::Config;
use wallpaperflix::config::ConfigError;
use wallpaperflix::config::ListType;
use wallpaperflix::numfmt::i64_to_string;
use wallpaperflix::numfmt::u64_to_string;
use wallpaperflix::pipeline::credentials;
use wallpaperflix::pipeline::wallpaper_file_name;
use wallpaperflix::schedule::FetchPeriod;
use wallpaperflix::schedule::interval_seconds;
use wallpaperflix::schedule::str_eq;

#[test]
fn default_config_is_well_formed() {
    let c = Config::default();
    assert!(c.tmdb_api_key.is_none());
    assert!(c.session_id.is_none());
    assert!(c.movies);
    assert!(c.tv);
    assert_eq!(c.list_type, ListType::Watchlist);
    assert_eq!(c.fetch_period, FetchPeriod::Daily);
    assert!(c.filter_photos_with_text);
    assert_eq!(c.language_of_photos, Some("en".to_string()));
    assert_eq!(c.width, Some(1280));
    assert_eq!(c.height, Some(720));
    assert!(c.validate().is_ok());
}

#[test]
fn config_without_any_kind_is_rejected() {
    let mut c = Config::default();
    c.movies = false;
    c.tv = false;
    let err = c.validate().err().unwrap();
    assert!(matches!(err, ConfigError::NoKindEnabled));
    assert_eq!(err.message(), "You must select at least one of movies or tv");
}

#[test]
fn config_with_one_kind_is_accepted() {
    let mut c = Config::default();
    c.movies = false;
    assert!(c.validate().is_ok());
    c.movies = true;
    c.tv = false;
    assert!(c.validate().is_ok());
}

#[test]
fn credentials_require_key_and_session() {
    let mut c = Config::default();
    c.tmdb_api_key = Some("key".to_string());
    c.session_id = Some("sid".to_string());
    let creds = credentials(c).ok().unwrap();
    assert_eq!(creds.api_key, "key");
    assert_eq!(creds.session_id, "sid");

    let c = Config::default();
    let err = credentials(c).err().unwrap();
    assert!(matches!(err, ConfigError::MissingApiKey));
    assert_eq!(err.message(), "No TMDB API key or session ID");

    let mut c = Config::default();
    c.tmdb_api_key = Some("key".to_string());
    let err = credentials(c).err().unwrap();
    assert!(matches!(err, ConfigError::MissingSessionId));
    assert_eq!(err.message(), "No TMDB API key or session ID");
}

#[test]
fn wallpaper_target_file_is_fixed() {
    assert_eq!(wallpaper_file_name(), "wallpaper.jpg");
}

#[test]
fn every_period_maps_to_its_interval() {
    assert_eq!(interval_seconds(FetchPeriod::Minute), 60);
    assert_eq!(interval_seconds(FetchPeriod::HalfHour), 1800);
    assert_eq!(interval_seconds(FetchPeriod::Hourly), 3600);
    assert_eq!(interval_seconds(FetchPeriod::HalfDay), 43200);
    assert_eq!(interval_seconds(FetchPeriod::Daily), 86400);
    assert_eq!(interval_seconds(FetchPeriod::Weekly), 604800);
    assert_eq!(interval_seconds(FetchPeriod::Monthly), 2592000);
}

#[test]
fn period_names_round_trip() {
    let periods = [
        FetchPeriod::Minute,
        FetchPeriod::HalfHour,
        FetchPeriod::Hourly,
        FetchPeriod::HalfDay,
        FetchPeriod::Daily,
        FetchPeriod::Weekly,
        FetchPeriod::Monthly,
    ];
    for p in periods {
        assert_eq!(FetchPeriod::from_name(p.name()), p);
    }
    assert_eq!(FetchPeriod::from_name("every minute"), FetchPeriod::Minute);
    assert_eq!(FetchPeriod::from_name("every half hour"), FetchPeriod::HalfHour);
}

#[test]
fn unrecognized_period_defaults_to_daily() {
    assert_eq!(FetchPeriod::from_name("fortnightly"), FetchPeriod::Daily);
    assert_eq!(FetchPeriod::from_name(""), FetchPeriod::Daily);
}

#[test]
fn list_type_names_round_trip() {
    assert_eq!(ListType::from_name("watchlist"), ListType::Watchlist);
    assert_eq!(ListType::from_name("favorites"), ListType::Favorites);
    assert_eq!(ListType::from_name("anything else"), ListType::Favorites);
    assert_eq!(ListType::Watchlist.name(), "watchlist");
    assert_eq!(ListType::Favorites.name(), "favorites");
    assert_eq!(ListType::Watchlist.path_segment(), "watchlist");
    assert_eq!(ListType::Favorites.path_segment(), "favorite");
}

#[test]
fn string_equality_is_by_characters() {
    assert!(str_eq("hourly", "hourly"));
    assert!(!str_eq("hourly", "weekly"));
    assert!(!str_eq("daily", "dail"));
}

#[test]
fn decimal_rendering() {
    assert_eq!(u64_to_string(0), "0");
    assert_eq!(u64_to_string(7), "7");
    assert_eq!(u64_to_string(10), "10");
    assert_eq!(u64_to_string(12345), "12345");
    assert_eq!(u64_to_string(u64::MAX), "18446744073709551615");
    assert_eq!(i64_to_string(0), "0");
    assert_eq!(i64_to_string(42), "42");
    assert_eq!(i64_to_string(-45), "-45");
    assert_eq!(i64_to_string(i64::MIN), "-9223372036854775808");
}
