use multilinguarr::client::address::{
    check_arr_base_url, check_jellyfin_base_url, endpoint_url, jellyfin_refresh_url, relative_endpoint,
};
use multilinguarr::client::ArrError;
use multilinguarr::jellyfin::JellyfinError;
use multilinguarr::webhook::{radarr_event_is_actionable, sonarr_event_is_actionable, RadarrEventType, SonarrEventType};

#[test]
fn arr_client_from_instance_rejects_invalid_url() {
    let err = check_arr_base_url("radarr-fr", "not a url").unwrap_err();
    assert!(matches!(err, ArrError::InvalidUrl { ref instance, .. } if instance == "radarr-fr"));
}

#[test]
fn jellyfin_client_rejects_invalid_url() {
    let err = check_jellyfin_base_url("not a url").unwrap_err();
    assert!(matches!(err, JellyfinError::InvalidUrl(_)));
}

#[test]
fn endpoints_join_onto_the_base_path() {
    assert_eq!(relative_endpoint("//api/v3/movie"), "api/v3/movie");
    assert_eq!(relative_endpoint("api"), "api");
    assert!(check_arr_base_url("radarr-fr", "http://radarr:7878/radarr/").is_ok());
    let url = endpoint_url("radarr-fr", "http://radarr:7878/radarr/", "/api/v3/movie?tmdbId=949").unwrap();
    assert_eq!(url, "http://radarr:7878/radarr/api/v3/movie?tmdbId=949");
    let err = endpoint_url("radarr-en", "not a url", "/api").unwrap_err();
    assert!(matches!(err, ArrError::InvalidUrl { ref instance, .. } if instance == "radarr-en"));
    assert!(check_jellyfin_base_url("http://jellyfin:8096/").is_ok());
    assert_eq!(jellyfin_refresh_url("http://jellyfin:8096/").unwrap(), "http://jellyfin:8096/Library/Refresh");
    assert!(matches!(jellyfin_refresh_url("::"), Err(JellyfinError::InvalidUrl(_))));
}

#[test]
fn only_file_changing_events_are_queued() {
    assert!(radarr_event_is_actionable(RadarrEventType::Download));
    assert!(radarr_event_is_actionable(RadarrEventType::MovieFileDelete));
    assert!(!radarr_event_is_actionable(RadarrEventType::Grab));
    assert!(!radarr_event_is_actionable(RadarrEventType::Unknown));
    assert!(sonarr_event_is_actionable(SonarrEventType::SeriesDelete));
    assert!(!sonarr_event_is_actionable(SonarrEventType::Test));
}
