use ripfy_server::config;
use ripfy_server::util::time::parse_utc;
use ripfy_server::util::time::plus_sec_str;
use ripfy_server::util::time::utc_time_to_str;

#[test]
fn default_config_values() {
    let conf = config();
    assert_eq!(conf.db_location, "ripfy.sqlite");
    assert_eq!(conf.private_key_path, "key.pem");
    assert_eq!(conf.access_token_duration_secs, 1800);
    assert_eq!(conf.refresh_token_duration_secs, 604800);
    assert_eq!(conf.port, 7717);
}

#[test]
fn timestamps_format_and_parse() {
    assert_eq!(utc_time_to_str(0).unwrap(), "1970-01-01T00:00:00Z");
    assert_eq!(parse_utc("2024-01-01T00:00:00Z").unwrap(), 1704067200);
    assert_eq!(plus_sec_str(1704067200, 60).unwrap(), "2024-01-01T00:01:00Z");

    assert!(parse_utc("not a timestamp").is_err());
    // beyond year 9999 nothing can be rendered
    assert!(utc_time_to_str(253402300800).is_err());
    assert!(utc_time_to_str(i64::MIN).is_err());

    // formatting and parsing are mutually inverse at the second level
    let rendered = utc_time_to_str(1_700_000_000).unwrap();
    assert_eq!(parse_utc(rendered.as_str()).unwrap(), 1_700_000_000);
}

#[test]
fn clock_readings_render_and_parse() {
    let now = ripfy_server::util::time::now_utc();
    let ahead = ripfy_server::util::time::now_utc_plus_sec_str(60).unwrap();
    let parsed = parse_utc(ahead.as_str()).unwrap();
    // sixty seconds ahead of a clock reading taken around the same moment
    assert!(parsed >= now + 55 && parsed <= now + 65);
}
