//! Interpretation of the media prober's output.
//!
//! The prober prints the stream's width, height and duration as three
//! lines. The transform stage reads the dimensions — they decide the
//! scaling of the re-encode — and hands the duration line on to the caller,
//! which owns the timing arithmetic.

use vstd::prelude::*;

use crate::text::{all_digits, dec_val, line_split, parse_u32, split_lines};

verus! {

/// The prober's answer: the video's dimensions and the raw duration line.
#[derive(Clone, Debug, PartialEq, Eq)]
pub struct ProbeOutput {
    /// Width of the video stream in pixels.
    pub width: u32,
    /// Height of the video stream in pixels.
    pub height: u32,
    /// The duration line as printed, for the caller to interpret.
    pub duration_line: String,
}

/// Why probe output was rejected.
#[derive(Clone, Copy, Debug, PartialEq, Eq, Structural)]
pub enum ProbeError {
    /// Fewer than the three expected lines.
    MissingFields,
    /// A dimension line is not a positive decimal numeral in range.
    InvalidDimensions,
}

/// Whether a line is a well-formed, positive dimension.
pub open spec fn dim_value_ok(l: Seq<char>) -> bool {
    l.len() > 0 && all_digits(l) && 0 < dec_val(l) <= u32::MAX
}

/// Parse the prober's output: the first two lines must be positive decimal
/// dimensions; the third line, the duration, is returned uninterpreted.
pub fn parse_probe_output(text: &str) -> (r: Result<ProbeOutput, ProbeError>)
    ensures
        ({
            let lines = line_split(text@);
            match r {
                Ok(p) => lines.len() >= 3 && dim_value_ok(lines[0]) && dim_value_ok(lines[1])
                    && p.width == dec_val(lines[0]) && p.height == dec_val(lines[1])
                    && p.duration_line@ == lines[2],
                Err(ProbeError::MissingFields) => lines.len() < 3,
                Err(ProbeError::InvalidDimensions) => lines.len() >= 3 && !(dim_value_ok(lines[0])
                    && dim_value_ok(lines[1])),
            }
        }),
{
    let lines = split_lines(text);
    if lines.len() < 3 {
        return Err(ProbeError::MissingFields);
    }
    let width = parse_u32(lines[0].as_str());
    let height = parse_u32(lines[1].as_str());
    match (width, height) {
        (Some(w), Some(h)) => {
            if w > 0 && h > 0 {
                Ok(ProbeOutput { width: w, height: h, duration_line: lines[2].clone() })
            } else {
                Err(ProbeError::InvalidDimensions)
            }
        },
        _ => Err(ProbeError::InvalidDimensions),
    }
}

/// Whether the video is taller than wide, which decides the scaling axis of
/// the re-encode.
pub fn is_portrait(p: &ProbeOutput) -> (r: bool)
    ensures
        r == (p.width < p.height),
{
    p.width < p.height
}

} // verus!
