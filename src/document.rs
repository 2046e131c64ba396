//! Reading the configuration fields out of a JSON document.

use vstd::prelude::*;
use crate::settings::{ConfigError, RawSettings};

verus! {

/// Whether `text` is a well-formed JSON document, as json::parse judges.
pub uninterp spec fn json_parses(text: Seq<char>) -> bool;

/// The whole unsigned number at `document[group][key]`, if there is one.
pub uninterp spec fn json_u64_at(text: Seq<char>, group: Seq<char>, key: Seq<char>) -> Option<u64>;

/// The string at `document[group][key]`, if there is one.
pub uninterp spec fn json_str_at(text: Seq<char>, group: Seq<char>, key: Seq<char>) -> Option<
    Seq<char>,
>;

/// The view of an optional text.
pub open spec fn text_view(t: Option<String>) -> Option<Seq<char>> {
    match t {
        Some(s) => Some(s@),
        None => None,
    }
}

/// The longest document, in characters, that is read. json::parse counts
/// each fractional digit of a number down in a 16-bit exponent, which
/// overflows past 32768 such digits; a shorter text cannot hold as many.
pub const MAX_DOCUMENT_CHARS: usize = 32767;

/// Relies on json::parse: whether the text parses depends on the text
/// alone.
#[verifier::external_body]
fn parses(text: &str) -> (r: bool)
    requires
        text@.len() <= MAX_DOCUMENT_CHARS,
    ensures
        r == json_parses(text@),
{
    json::parse(text).is_ok()
}

/// Relies on json::parse, `Index<&str>` of json::JsonValue (the null
/// value for a missing key) and JsonValue::as_u64, which converts through
/// json's `TryFrom<Number> for u64` and rejects a negative or fractional
/// number before any arithmetic: the number at `document[group][key]`
/// depends on the text and the two keys alone.
#[verifier::external_body]
fn number_at(text: &str, group: &str, key: &str) -> (r: Option<u64>)
    requires
        text@.len() <= MAX_DOCUMENT_CHARS,
    ensures
        r == json_u64_at(text@, group@, key@),
{
    match json::parse(text) {
        Ok(d) => d[group][key].as_u64(),
        Err(_) => None,
    }
}

/// Relies on json::parse, `Index<&str>` of json::JsonValue and
/// JsonValue::as_str: the string at `document[group][key]` depends on the
/// text and the two keys alone.
#[verifier::external_body]
fn text_at(text: &str, group: &str, key: &str) -> (r: Option<String>)
    requires
        text@.len() <= MAX_DOCUMENT_CHARS,
    ensures
        text_view(r) == json_str_at(text@, group@, key@),
{
    match json::parse(text) {
        Ok(d) => d[group][key].as_str().map(str::to_string),
        Err(_) => None,
    }
}

/// The raw configuration fields of a document that parses: probe
/// parameters under `pingSettings`, graph captions under `graphText` and
/// colours under `colourSettings`; an absent or mistyped field is `None`.
pub open spec fn raw_fields_of(text: Seq<char>, raw: RawSettings) -> bool {
    let p = "pingSettings"@;
    let g = "graphText"@;
    let c = "colourSettings"@;
    &&& text_view(raw.destination) == json_str_at(text, p, "pingDest"@)
    &&& raw.probe_interval_ms == json_u64_at(text, p, "pingDelay"@)
    &&& raw.probe_count == json_u64_at(text, p, "pingCount"@)
    &&& raw.probe_timeout_ms == json_u64_at(text, p, "pingTimeout"@)
    &&& raw.buffer_size == json_u64_at(text, p, "pingBuffer"@)
    &&& raw.upper_bound_ms == json_u64_at(text, p, "pingUpperBound"@)
    &&& text_view(raw.graph_title) == json_str_at(text, g, "graphTitle"@)
    &&& text_view(raw.graph_x_label) == json_str_at(text, g, "graphXLabel"@)
    &&& text_view(raw.graph_y_label) == json_str_at(text, g, "graphYLabel"@)
    &&& text_view(raw.colour_fail) == json_str_at(text, c, "colourFail"@)
    &&& text_view(raw.colour_upper) == json_str_at(text, c, "colourUpper"@)
    &&& text_view(raw.colour_pass) == json_str_at(text, c, "colourPass"@)
    &&& text_view(raw.colour_background) == json_str_at(text, c, "colourBackground"@)
    &&& text_view(raw.colour_box) == json_str_at(text, c, "colourBox"@)
    &&& text_view(raw.colour_major_divisions) == json_str_at(text, c, "colourMajDivs"@)
    &&& text_view(raw.colour_plot_line) == json_str_at(text, c, "colourPlotline"@)
    &&& text_view(raw.colour_title) == json_str_at(text, c, "colourTitle"@)
    &&& text_view(raw.colour_labels) == json_str_at(text, c, "colourLabels"@)
    &&& text_view(raw.colour_numbering) == json_str_at(text, c, "colourNumbering"@)
}

/// Reads the configuration fields of a JSON document. Fails, with
/// `Unreadable`, exactly where the text is longer than
/// `MAX_DOCUMENT_CHARS` or is not JSON; absent or mistyped fields are left
/// `None`.
pub fn read_raw(text: &str) -> (r: Result<RawSettings, ConfigError>)
    ensures
        r is Ok <==> text@.len() <= MAX_DOCUMENT_CHARS && json_parses(text@),
        r is Err ==> r == Err::<RawSettings, ConfigError>(ConfigError::Unreadable),
        r matches Ok(raw) ==> raw_fields_of(text@, raw),
{
    if text.unicode_len() > MAX_DOCUMENT_CHARS || !parses(text) {
        return Err(ConfigError::Unreadable);
    }
    let p = "pingSettings";
    let g = "graphText";
    let c = "colourSettings";
    Ok(RawSettings {
        destination: text_at(text, p, "pingDest"),
        probe_interval_ms: number_at(text, p, "pingDelay"),
        probe_count: number_at(text, p, "pingCount"),
        probe_timeout_ms: number_at(text, p, "pingTimeout"),
        buffer_size: number_at(text, p, "pingBuffer"),
        upper_bound_ms: number_at(text, p, "pingUpperBound"),
        graph_title: text_at(text, g, "graphTitle"),
        graph_x_label: text_at(text, g, "graphXLabel"),
        graph_y_label: text_at(text, g, "graphYLabel"),
        colour_fail: text_at(text, c, "colourFail"),
        colour_upper: text_at(text, c, "colourUpper"),
        colour_pass: text_at(text, c, "colourPass"),
        colour_background: text_at(text, c, "colourBackground"),
        colour_box: text_at(text, c, "colourBox"),
        colour_major_divisions: text_at(text, c, "colourMajDivs"),
        colour_plot_line: text_at(text, c, "colourPlotline"),
        colour_title: text_at(text, c, "colourTitle"),
        colour_labels: text_at(text, c, "colourLabels"),
        colour_numbering: text_at(text, c, "colourNumbering"),
    })
}

} // verus!
