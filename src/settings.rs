//! The monitor's configuration: raw fields as read, and their validation
//! into a settings value that is all-or-nothing.

use vstd::prelude::*;
use crate::colour::{colour_value, parse_colour};
use crate::timestamp::Timestamp;

verus! {

/// A configuration field.
#[derive(Clone, Copy, Debug, PartialEq, Eq, Structural)]
pub enum Field {
    Destination,
    ProbeInterval,
    ProbeCount,
    ProbeTimeout,
    BufferSize,
    UpperBound,
    GraphTitle,
    GraphXLabel,
    GraphYLabel,
    ColourFail,
    ColourUpper,
    ColourPass,
    ColourBackground,
    ColourBox,
    ColourMajorDivisions,
    ColourPlotLine,
    ColourTitle,
    ColourLabels,
    ColourNumbering,
}

/// Why a configuration could not be loaded.
#[derive(Clone, Copy, Debug, PartialEq, Eq, Structural)]
pub enum ConfigError {
    /// The document is not well-formed.
    Unreadable,
    /// A required field is absent or of the wrong type.
    Missing(Field),
    /// The destination is not a network address.
    BadAddress,
    /// A colour field is not hexadecimal text of at most 32 bits.
    BadColour(Field),
}

/// The configuration fields as read from the document, before validation.
pub struct RawSettings {
    pub destination: Option<String>,
    pub probe_interval_ms: Option<u64>,
    pub probe_count: Option<u64>,
    pub probe_timeout_ms: Option<u64>,
    pub buffer_size: Option<u64>,
    pub upper_bound_ms: Option<u64>,
    pub graph_title: Option<String>,
    pub graph_x_label: Option<String>,
    pub graph_y_label: Option<String>,
    pub colour_fail: Option<String>,
    pub colour_upper: Option<String>,
    pub colour_pass: Option<String>,
    pub colour_background: Option<String>,
    pub colour_box: Option<String>,
    pub colour_major_divisions: Option<String>,
    pub colour_plot_line: Option<String>,
    pub colour_title: Option<String>,
    pub colour_labels: Option<String>,
    pub colour_numbering: Option<String>,
}

/// Display colours, each `RRGGBBAA`.
#[derive(Clone, Copy, Debug, PartialEq, Eq, Structural)]
pub struct Palette {
    pub fail: u32,
    pub upper: u32,
    pub pass: u32,
    pub background: u32,
    pub frame: u32,
    pub major_divisions: u32,
    pub plot_line: u32,
    pub title: u32,
    pub labels: u32,
    pub numbering: u32,
}

/// Validated configuration, read-only once loaded.
pub struct Settings {
    /// When the run started.
    pub start: Timestamp,
    /// Pause after each cycle, in milliseconds.
    pub probe_interval_ms: u64,
    /// Number of cycles to run; `0` runs until cancelled.
    pub probe_count: u64,
    /// The destination address in its textual form.
    pub destination: String,
    /// How long a probe waits for its reply, in milliseconds.
    pub probe_timeout_ms: u64,
    pub buffer_size: u64,
    /// Round trips strictly above this many milliseconds are flagged.
    pub upper_bound_ms: u64,
    pub graph_title: String,
    pub graph_x_label: String,
    pub graph_y_label: String,
    pub palette: Palette,
}

impl Settings {
    pub open spec fn wf(&self) -> bool {
        self.start.wf()
    }
}

/// The colour of an optional colour text, or the error it gives.
pub open spec fn colour_check(text: Option<String>, field: Field) -> Result<u32, ConfigError> {
    match text {
        None => Err(ConfigError::Missing(field)),
        Some(t) => match colour_value(t@) {
            None => Err(ConfigError::BadColour(field)),
            Some(v) => Ok(v),
        },
    }
}

/// The error of the first defective colour field, in the order of the
/// fields, if any is defective.
pub open spec fn palette_error(raw: RawSettings) -> Option<ConfigError> {
    let c0 = colour_check(raw.colour_fail, Field::ColourFail);
    let c1 = colour_check(raw.colour_upper, Field::ColourUpper);
    let c2 = colour_check(raw.colour_pass, Field::ColourPass);
    let c3 = colour_check(raw.colour_background, Field::ColourBackground);
    let c4 = colour_check(raw.colour_box, Field::ColourBox);
    let c5 = colour_check(raw.colour_major_divisions, Field::ColourMajorDivisions);
    let c6 = colour_check(raw.colour_plot_line, Field::ColourPlotLine);
    let c7 = colour_check(raw.colour_title, Field::ColourTitle);
    let c8 = colour_check(raw.colour_labels, Field::ColourLabels);
    let c9 = colour_check(raw.colour_numbering, Field::ColourNumbering);
    if c0 is Err { Some(c0->Err_0) }
    else if c1 is Err { Some(c1->Err_0) }
    else if c2 is Err { Some(c2->Err_0) }
    else if c3 is Err { Some(c3->Err_0) }
    else if c4 is Err { Some(c4->Err_0) }
    else if c5 is Err { Some(c5->Err_0) }
    else if c6 is Err { Some(c6->Err_0) }
    else if c7 is Err { Some(c7->Err_0) }
    else if c8 is Err { Some(c8->Err_0) }
    else if c9 is Err { Some(c9->Err_0) }
    else { None }
}

/// The palette of raw colour fields that are all valid.
pub open spec fn palette_of(raw: RawSettings) -> Palette {
    Palette {
        fail: colour_value(raw.colour_fail->0@)->0,
        upper: colour_value(raw.colour_upper->0@)->0,
        pass: colour_value(raw.colour_pass->0@)->0,
        background: colour_value(raw.colour_background->0@)->0,
        frame: colour_value(raw.colour_box->0@)->0,
        major_divisions: colour_value(raw.colour_major_divisions->0@)->0,
        plot_line: colour_value(raw.colour_plot_line->0@)->0,
        title: colour_value(raw.colour_title->0@)->0,
        labels: colour_value(raw.colour_labels->0@)->0,
        numbering: colour_value(raw.colour_numbering->0@)->0,
    }
}

/// The first defect of a raw configuration, if it has one: a missing
/// field (in the order of the fields), then a destination that is not an
/// address (`address` is its canonical form when it is one), then a bad
/// colour.
pub open spec fn settings_error(raw: RawSettings, address: Option<String>) -> Option<ConfigError> {
    if raw.destination is None { Some(ConfigError::Missing(Field::Destination)) }
    else if raw.probe_interval_ms is None { Some(ConfigError::Missing(Field::ProbeInterval)) }
    else if raw.probe_count is None { Some(ConfigError::Missing(Field::ProbeCount)) }
    else if raw.probe_timeout_ms is None { Some(ConfigError::Missing(Field::ProbeTimeout)) }
    else if raw.buffer_size is None { Some(ConfigError::Missing(Field::BufferSize)) }
    else if raw.upper_bound_ms is None { Some(ConfigError::Missing(Field::UpperBound)) }
    else if raw.graph_title is None { Some(ConfigError::Missing(Field::GraphTitle)) }
    else if raw.graph_x_label is None { Some(ConfigError::Missing(Field::GraphXLabel)) }
    else if raw.graph_y_label is None { Some(ConfigError::Missing(Field::GraphYLabel)) }
    else if address is None { Some(ConfigError::BadAddress) }
    else { palette_error(raw) }
}

/// The settings that a defect-free raw configuration gives.
pub open spec fn settings_of(raw: RawSettings, address: Option<String>, start: Timestamp) -> Settings {
    Settings {
        start,
        probe_interval_ms: raw.probe_interval_ms->0,
        probe_count: raw.probe_count->0,
        destination: address->0,
        probe_timeout_ms: raw.probe_timeout_ms->0,
        buffer_size: raw.buffer_size->0,
        upper_bound_ms: raw.upper_bound_ms->0,
        graph_title: raw.graph_title->0,
        graph_x_label: raw.graph_x_label->0,
        graph_y_label: raw.graph_y_label->0,
        palette: palette_of(raw),
    }
}

fn colour_field(text: &Option<String>, field: Field) -> (r: Result<u32, ConfigError>)
    ensures
        r == colour_check(*text, field),
{
    match text {
        None => Err(ConfigError::Missing(field)),
        Some(t) => match parse_colour(t.as_str()) {
            None => Err(ConfigError::BadColour(field)),
            Some(v) => Ok(v),
        },
    }
}

fn palette_from(raw: &RawSettings) -> (r: Result<Palette, ConfigError>)
    ensures
        r == (match palette_error(*raw) {
            Some(e) => Err(e),
            None => Ok(palette_of(*raw)),
        }),
{
    let fail = match colour_field(&raw.colour_fail, Field::ColourFail) {
        Ok(v) => v,
        Err(e) => return Err(e),
    };
    let upper = match colour_field(&raw.colour_upper, Field::ColourUpper) {
        Ok(v) => v,
        Err(e) => return Err(e),
    };
    let pass = match colour_field(&raw.colour_pass, Field::ColourPass) {
        Ok(v) => v,
        Err(e) => return Err(e),
    };
    let background = match colour_field(&raw.colour_background, Field::ColourBackground) {
        Ok(v) => v,
        Err(e) => return Err(e),
    };
    let frame = match colour_field(&raw.colour_box, Field::ColourBox) {
        Ok(v) => v,
        Err(e) => return Err(e),
    };
    let major_divisions = match colour_field(
        &raw.colour_major_divisions,
        Field::ColourMajorDivisions,
    ) {
        Ok(v) => v,
        Err(e) => return Err(e),
    };
    let plot_line = match colour_field(&raw.colour_plot_line, Field::ColourPlotLine) {
        Ok(v) => v,
        Err(e) => return Err(e),
    };
    let title = match colour_field(&raw.colour_title, Field::ColourTitle) {
        Ok(v) => v,
        Err(e) => return Err(e),
    };
    let labels = match colour_field(&raw.colour_labels, Field::ColourLabels) {
        Ok(v) => v,
        Err(e) => return Err(e),
    };
    let numbering = match colour_field(&raw.colour_numbering, Field::ColourNumbering) {
        Ok(v) => v,
        Err(e) => return Err(e),
    };
    Ok(Palette {
        fail,
        upper,
        pass,
        background,
        frame,
        major_divisions,
        plot_line,
        title,
        labels,
        numbering,
    })
}

impl Settings {
    /// Validates raw configuration fields. `address` is the destination's
    /// canonical textual form where it reads as a network address, `None`
    /// where it does not: the caller parses the destination with std's
    /// address parser, which verified code here cannot reach. Either every field is valid and the settings
    /// hold them, or the first defect is reported.
    pub fn from_raw(raw: RawSettings, address: Option<String>, start: Timestamp) -> (r: Result<
        Settings,
        ConfigError,
    >)
        requires
            start.wf(),
        ensures
            r == (match settings_error(raw, address) {
                Some(e) => Err(e),
                None => Ok(settings_of(raw, address, start)),
            }),
            r matches Ok(s) ==> s.wf(),
    {
        let palette = palette_from(&raw);
        let RawSettings {
            destination,
            probe_interval_ms,
            probe_count,
            probe_timeout_ms,
            buffer_size,
            upper_bound_ms,
            graph_title,
            graph_x_label,
            graph_y_label,
            ..
        } = raw;
        if destination.is_none() {
            return Err(ConfigError::Missing(Field::Destination));
        }
        let probe_interval_ms = match probe_interval_ms {
            Some(v) => v,
            None => return Err(ConfigError::Missing(Field::ProbeInterval)),
        };
        let probe_count = match probe_count {
            Some(v) => v,
            None => return Err(ConfigError::Missing(Field::ProbeCount)),
        };
        let probe_timeout_ms = match probe_timeout_ms {
            Some(v) => v,
            None => return Err(ConfigError::Missing(Field::ProbeTimeout)),
        };
        let buffer_size = match buffer_size {
            Some(v) => v,
            None => return Err(ConfigError::Missing(Field::BufferSize)),
        };
        let upper_bound_ms = match upper_bound_ms {
            Some(v) => v,
            None => return Err(ConfigError::Missing(Field::UpperBound)),
        };
        let graph_title = match graph_title {
            Some(v) => v,
            None => return Err(ConfigError::Missing(Field::GraphTitle)),
        };
        let graph_x_label = match graph_x_label {
            Some(v) => v,
            None => return Err(ConfigError::Missing(Field::GraphXLabel)),
        };
        let graph_y_label = match graph_y_label {
            Some(v) => v,
            None => return Err(ConfigError::Missing(Field::GraphYLabel)),
        };
        let destination = match address {
            Some(a) => a,
            None => return Err(ConfigError::BadAddress),
        };
        let palette = match palette {
            Ok(p) => p,
            Err(e) => return Err(e),
        };
        Ok(Settings {
            start,
            probe_interval_ms,
            probe_count,
            destination,
            probe_timeout_ms,
            buffer_size,
            upper_bound_ms,
            graph_title,
            graph_x_label,
            graph_y_label,
            palette,
        })
    }
}

} // verus!
