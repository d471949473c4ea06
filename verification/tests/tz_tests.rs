use colorwarm::tz::{get_longitude_offset, timezone_from_zoneinfo_path, timezone_to_location_name};

#[test]
fn known_timezones_have_their_longitude_offsets() {
    assert_eq!(get_longitude_offset("Europe/Paris"), 0);
    assert_eq!(get_longitude_offset("Europe/Berlin"), 15);
    assert_eq!(get_longitude_offset("Europe/London"), -30);
    assert_eq!(get_longitude_offset("Asia/Kolkata"), 135);
    assert_eq!(get_longitude_offset("Asia/Kathmandu"), 142);
    assert_eq!(get_longitude_offset("America/New_York"), -300);
    assert_eq!(get_longitude_offset("Pacific/Honolulu"), -600);
    assert_eq!(get_longitude_offset("Pacific/Chatham"), 268);
    assert_eq!(get_longitude_offset("Australia/Eucla"), 187);
}

#[test]
fn unknown_timezones_default_to_zero_offset() {
    assert_eq!(get_longitude_offset("Mars/Olympus_Mons"), 0);
    assert_eq!(get_longitude_offset(""), 0);
}

#[test]
fn known_timezones_map_to_city_names() {
    assert_eq!(
        timezone_to_location_name("Europe/Paris"),
        Some("Paris, France".to_string())
    );
    assert_eq!(
        timezone_to_location_name("Europe/Brussels"),
        Some("Brussels, Belgium".to_string())
    );
    assert_eq!(
        timezone_to_location_name("Asia/Tokyo"),
        Some("Tokyo, Japan".to_string())
    );
    assert_eq!(
        timezone_to_location_name("America/New_York"),
        Some("New York City, USA".to_string())
    );
    assert_eq!(
        timezone_to_location_name("US/Eastern"),
        Some("New York City, USA".to_string())
    );
    assert_eq!(
        timezone_to_location_name("Antarctica/Vostok"),
        Some("Vostok Station, Antarctica".to_string())
    );
}

#[test]
fn unlisted_timezones_fall_back_to_their_region() {
    assert_eq!(
        timezone_to_location_name("Europe/Nowhereville"),
        Some("Europe".to_string())
    );
    assert_eq!(
        timezone_to_location_name("Indian/Kerguelen"),
        Some("Indian Ocean Region".to_string())
    );
    assert_eq!(
        timezone_to_location_name("Pacific/Unknown_Atoll"),
        Some("Pacific Islands".to_string())
    );
}

#[test]
fn timezones_outside_every_region_have_no_name() {
    assert_eq!(timezone_to_location_name("Mars/Olympus_Mons"), None);
    assert_eq!(timezone_to_location_name(""), None);
}

#[test]
fn zoneinfo_paths_yield_the_trailing_timezone() {
    assert_eq!(
        timezone_from_zoneinfo_path("/usr/share/zoneinfo/Europe/Brussels"),
        Some("Europe/Brussels")
    );
    assert_eq!(
        timezone_from_zoneinfo_path("/usr/share/zoneinfo/UTC"),
        Some("UTC")
    );
    assert_eq!(timezone_from_zoneinfo_path("/etc/localtime"), None);
    assert_eq!(timezone_from_zoneinfo_path(""), None);
}
