use ping_graph::colour::{parse_colour, rgb};
use ping_graph::document::read_raw;
use ping_graph::settings::{ConfigError, Field, RawSettings, Settings};
use ping_graph::timestamp::Timestamp;

const DOCUMENT: &str = r#"{
    "pingSettings": {
        "pingDelay": 10000,
        "pingCount": 5,
        "pingDest": "1.1.1.1",
        "pingTimeout": 1000,
        "pingBuffer": 1000,
        "pingUpperBound": 200
    },
    "graphText": {
        "graphTitle": "Ping Results",
        "graphXLabel": "Pings",
        "graphYLabel": "Time (ms)"
    },
    "colourSettings": {
        "colourFail": "FB092CFF",
        "colourUpper": "FD9050FF",
        "colourPass": "FFFFFFFF",
        "colourBackground": "1E2028FF",
        "colourBox": "FFFFFFFF",
        "colourMajDivs": "FFFFFFFF",
        "colourPlotline": "19C4F1FF",
        "colourTitle": "46E415FF",
        "colourLabels": "FD9050FF",
        "colourNumbering": "8572F8FF"
    }
}"#;

fn start() -> Timestamp {
    Timestamp::new(2022, 7, 30, 12, 0, 0, 1_659_182_400_000).unwrap()
}

fn address_of(raw: &RawSettings) -> Option<String> {
    raw.destination.clone()
}

#[test]
fn document_loads_into_settings() {
    let raw = read_raw(DOCUMENT).ok().unwrap();
    let address = address_of(&raw);
    let s = Settings::from_raw(raw, address, start()).ok().unwrap();
    assert_eq!(s.probe_interval_ms, 10000);
    assert_eq!(s.probe_count, 5);
    assert_eq!(s.destination, "1.1.1.1");
    assert_eq!(s.probe_timeout_ms, 1000);
    assert_eq!(s.buffer_size, 1000);
    assert_eq!(s.upper_bound_ms, 200);
    assert_eq!(s.graph_title, "Ping Results");
    assert_eq!(s.graph_x_label, "Pings");
    assert_eq!(s.graph_y_label, "Time (ms)");
    assert_eq!(s.palette.fail, 0xFB092CFF);
    assert_eq!(s.palette.upper, 0xFD9050FF);
    assert_eq!(s.palette.numbering, 0x8572F8FF);
    assert_eq!(s.start, start());
}

#[test]
fn malformed_document_is_unreadable() {
    assert!(matches!(read_raw("{ \"pingSettings\": "), Err(ConfigError::Unreadable)));
}

#[test]
fn missing_destination_aborts_load() {
    let text = DOCUMENT.replace("\"pingDest\": \"1.1.1.1\",", "");
    let raw = read_raw(&text).ok().unwrap();
    assert!(raw.destination.is_none());
    let address = address_of(&raw);
    let r = Settings::from_raw(raw, address, start());
    assert!(matches!(r, Err(ConfigError::Missing(Field::Destination))));
}

#[test]
fn mistyped_count_is_missing() {
    let text = DOCUMENT.replace("\"pingCount\": 5", "\"pingCount\": \"five\"");
    let raw = read_raw(&text).ok().unwrap();
    let address = address_of(&raw);
    let r = Settings::from_raw(raw, address, start());
    assert!(matches!(r, Err(ConfigError::Missing(Field::ProbeCount))));
}

#[test]
fn destination_that_is_no_address_is_rejected() {
    let raw = read_raw(DOCUMENT).ok().unwrap();
    let r = Settings::from_raw(raw, None, start());
    assert!(matches!(r, Err(ConfigError::BadAddress)));
}

#[test]
fn bad_colour_is_rejected() {
    let text = DOCUMENT.replace("\"colourUpper\": \"FD9050FF\"", "\"colourUpper\": \"FD90G0FF\"");
    let raw = read_raw(&text).ok().unwrap();
    let address = address_of(&raw);
    let r = Settings::from_raw(raw, address, start());
    assert!(matches!(r, Err(ConfigError::BadColour(Field::ColourUpper))));
}

#[test]
fn missing_colour_is_reported_as_missing() {
    let text = DOCUMENT.replace("\"colourNumbering\": \"8572F8FF\"", "\"other\": 1");
    let raw = read_raw(&text).ok().unwrap();
    let address = address_of(&raw);
    let r = Settings::from_raw(raw, address, start());
    assert!(matches!(r, Err(ConfigError::Missing(Field::ColourNumbering))));
}

#[test]
fn colour_texts_parse_as_hexadecimal() {
    assert_eq!(parse_colour("FB092CFF"), Some(0xFB092CFF));
    assert_eq!(parse_colour("fb092cff"), Some(0xFB092CFF));
    assert_eq!(parse_colour("+ff"), Some(0xFF));
    assert_eq!(parse_colour("0"), Some(0));
    assert_eq!(parse_colour("000000000FFFFFFFF"), Some(0xFFFFFFFF));
    assert_eq!(parse_colour("FFFFFFFF"), Some(u32::MAX));
}

#[test]
fn colour_texts_that_are_rejected() {
    assert_eq!(parse_colour(""), None);
    assert_eq!(parse_colour("+"), None);
    assert_eq!(parse_colour("-1"), None);
    assert_eq!(parse_colour("1FFFFFFFF"), None);
    assert_eq!(parse_colour("12 34"), None);
    assert_eq!(parse_colour("#FFFFFF"), None);
    assert_eq!(parse_colour("ff\u{e9}"), None);
}

#[test]
fn colour_components() {
    assert_eq!(rgb(0xFB092CFF), (0xFB, 0x09, 0x2C));
    assert_eq!(rgb(0x00000000), (0, 0, 0));
    assert_eq!(rgb(0x12345678), (0x12, 0x34, 0x56));
}

#[test]
fn timestamps_validate_their_fields() {
    assert!(Timestamp::new(2024, 2, 29, 0, 0, 0, 0).is_some());
    assert!(Timestamp::new(2023, 2, 29, 0, 0, 0, 0).is_none());
    assert!(Timestamp::new(1900, 2, 29, 0, 0, 0, 0).is_none());
    assert!(Timestamp::new(2000, 2, 29, 0, 0, 0, 0).is_some());
    assert!(Timestamp::new(2022, 4, 31, 0, 0, 0, 0).is_none());
    assert!(Timestamp::new(2022, 13, 1, 0, 0, 0, 0).is_none());
    assert!(Timestamp::new(2022, 1, 1, 24, 0, 0, 0).is_none());
    assert!(Timestamp::new(10000, 1, 1, 0, 0, 0, 0).is_none());
    assert!(Timestamp::new(-1, 1, 1, 0, 0, 0, 0).is_none());
}

#[test]
fn timestamp_text() {
    assert_eq!(start().text(), "2022-07-30_12-00-00");
    let t = Timestamp::new(987, 1, 2, 3, 4, 5, -30_000_000_000_000).unwrap();
    assert_eq!(t.text(), "0987-01-02_03-04-05");
}

#[test]
fn document_without_the_groups_reads_as_all_absent() {
    let raw = read_raw("[1, 2, 3]").ok().unwrap();
    assert!(raw.destination.is_none());
    assert!(raw.probe_count.is_none());
    assert!(raw.colour_numbering.is_none());
    let r = Settings::from_raw(raw, None, start());
    assert!(matches!(r, Err(ConfigError::Missing(Field::Destination))));
}

#[test]
fn fractional_or_negative_numbers_are_not_counts() {
    let text = DOCUMENT.replace("\"pingCount\": 5", "\"pingCount\": -5").replace("\"pingDelay\": 10000", "\"pingDelay\": 2.5");
    let raw = read_raw(&text).ok().unwrap();
    assert!(raw.probe_count.is_none());
    assert!(raw.probe_interval_ms.is_none());
    assert_eq!(raw.probe_timeout_ms, Some(1000));
}

#[test]
fn overlong_document_is_unreadable() {
    let mut text = String::from("{\"pingSettings\": {\"pingCount\": 0.");
    text.push_str(&"0".repeat(40000));
    text.push_str("}}");
    assert!(matches!(read_raw(&text), Err(ConfigError::Unreadable)));
    let padded = format!("{}{}", DOCUMENT, " ".repeat(40000));
    assert!(matches!(read_raw(&padded), Err(ConfigError::Unreadable)));
}

#[test]
fn document_at_the_length_limit_is_read() {
    let padded = format!("{}{}", DOCUMENT, " ".repeat(32767 - DOCUMENT.chars().count()));
    assert_eq!(padded.chars().count(), 32767);
    let raw = read_raw(&padded).ok().unwrap();
    assert_eq!(raw.probe_count, Some(5));
}
