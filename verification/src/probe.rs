//! The compute half of probing: turning the probe tool's textual
//! answers into a media description.
//!
//! The probe tool prints a short line: the duration in seconds as a
//! plain decimal, or the audio stream's bit rate in bits per second —
//! or the sentinel `N/A` when the stream has no known bit rate.

use vstd::prelude::*;
use crate::budget::MAX_BUDGET_INPUT;
use crate::error::ConvertError;
use crate::text::{is_whitespace_char, parse_milli, remove_whitespace, spec_parse_milli};

verus! {

/// What a media file looks like to the budget: how long it runs and
/// how fast its audio track is, in fixed point (milliseconds and
/// milli-kbps).  `audio_rate_milli_kbps` is zero when the audio
/// stream's bit rate could not be read.
#[derive(Debug)]
pub struct MediaProbe {
    pub duration_ms: u64,
    pub audio_rate_milli_kbps: u64,
}

impl MediaProbe {
    /// A probe accepted for processing: positive duration, and both
    /// values inside the budget's input range.
    pub open spec fn wf(self) -> bool {
        &&& 1 <= self.duration_ms <= MAX_BUDGET_INPUT
        &&& self.audio_rate_milli_kbps <= MAX_BUDGET_INPUT
    }
}

/// The probe tool's answer with its surrounding whitespace removed.
pub open spec fn cleaned(s: Seq<char>) -> Seq<char> {
    s.filter(|c: char| !is_whitespace_char(c))
}

/// What parsing a duration answer yields: the duration in
/// milliseconds, rejected unless it is a decimal numeral whose value
/// is positive and within the budget's input range.
pub open spec fn spec_parse_duration(s: Seq<char>) -> Result<int, ConvertError> {
    match spec_parse_milli(cleaned(s)) {
        Some(v) => if 1 <= v <= MAX_BUDGET_INPUT {
            Ok(v)
        } else {
            Err(ConvertError::ParseError)
        },
        None => Err(ConvertError::ParseError),
    }
}

/// What parsing an audio bit-rate answer yields: the rate converted
/// from bits per second to milli-kbps (divided by 1024), zero for the
/// sentinel `N/A`, rejected when not numeric or out of range.
pub open spec fn spec_parse_audio_rate(s: Seq<char>) -> Result<int, ConvertError> {
    let t = cleaned(s);
    if t == "N/A"@ {
        Ok(0)
    } else {
        match spec_parse_milli(t) {
            Some(v) => if v / 1024 <= MAX_BUDGET_INPUT {
                Ok(v / 1024)
            } else {
                Err(ConvertError::ParseError)
            },
            None => Err(ConvertError::ParseError),
        }
    }
}

/// Whether the string is exactly the sentinel `N/A`.
fn is_na(s: &str) -> (r: bool)
    ensures
        r == (s@ == "N/A"@),
{
    proof {
        reveal_strlit("N/A");
    }
    let n = s.unicode_len();
    if n != 3 {
        return false;
    }
    let eq = s.get_char(0) == 'N' && s.get_char(1) == '/' && s.get_char(2) == 'A';
    proof {
        if eq {
            assert(s@ =~= "N/A"@);
        }
    }
    eq
}

/// Parses the probe tool's duration answer into milliseconds.
pub fn parse_duration_text(raw: &str) -> (r: Result<u64, ConvertError>)
    ensures
        match r {
            Ok(v) => spec_parse_duration(raw@) == Ok::<int, ConvertError>(v as int),
            Err(e) => spec_parse_duration(raw@) == Err::<int, ConvertError>(e),
        },
{
    let clean = remove_whitespace(raw);
    match parse_milli(clean.as_str()) {
        Some(v) => {
            if 1 <= v && v <= MAX_BUDGET_INPUT {
                Ok(v)
            } else {
                Err(ConvertError::ParseError)
            }
        },
        None => Err(ConvertError::ParseError),
    }
}

/// Parses the probe tool's audio bit-rate answer into milli-kbps,
/// taking the sentinel `N/A` as zero.
pub fn parse_audio_rate_text(raw: &str) -> (r: Result<u64, ConvertError>)
    ensures
        match r {
            Ok(v) => spec_parse_audio_rate(raw@) == Ok::<int, ConvertError>(v as int),
            Err(e) => spec_parse_audio_rate(raw@) == Err::<int, ConvertError>(e),
        },
{
    let clean = remove_whitespace(raw);
    if is_na(clean.as_str()) {
        return Ok(0);
    }
    match parse_milli(clean.as_str()) {
        Some(v) => {
            let kb = v / 1024;
            if kb <= MAX_BUDGET_INPUT {
                Ok(kb)
            } else {
                Err(ConvertError::ParseError)
            }
        },
        None => Err(ConvertError::ParseError),
    }
}

/// Builds the media description from the two probe answers; the first
/// error among them wins.
pub fn media_probe_from_outputs(duration_text: &str, audio_text: &str) -> (r: Result<
    MediaProbe,
    ConvertError,
>)
    ensures
        match r {
            Ok(p) => p.wf() && spec_parse_duration(duration_text@) == Ok::<int, ConvertError>(p.duration_ms as int)
                && spec_parse_audio_rate(audio_text@) == Ok::<int, ConvertError>(p.audio_rate_milli_kbps as int),
            Err(e) => spec_parse_duration(duration_text@) == Err::<int, ConvertError>(e) || (
            spec_parse_duration(duration_text@) is Ok && spec_parse_audio_rate(audio_text@)
                == Err::<int, ConvertError>(e)),
        },
{
    let duration_ms = parse_duration_text(duration_text)?;
    let audio_rate_milli_kbps = parse_audio_rate_text(audio_text)?;
    Ok(MediaProbe { duration_ms, audio_rate_milli_kbps })
}

} // verus!
