//! The converter: one input file, the two external binaries that probe
//! and encode it, and the operations of a conversion expressed over
//! them.

use vstd::prelude::*;
use crate::budget;
use crate::budget::{spec_min_size_micro_mb, spec_video_rate_milli_kbps, MAX_BUDGET_INPUT};
use crate::driver::{
    args_view, convert_first_command, convert_out_command, probe_audio_command,
    probe_duration_command, spec_null_device, spec_pass1_args, spec_pass2_args,
    spec_probe_audio_args, spec_probe_duration_args, CrossCommand, OsFamily,
};
use crate::error::ConvertError;
use crate::paths::{format_input, spec_file_stem, spec_gui_name, spec_join, FileInfo};
use crate::probe::{
    parse_audio_rate_text, parse_duration_text, spec_parse_audio_rate, spec_parse_duration,
};

verus! {

/// A conversion of one input file, holding the paths to the encoder
/// and probe binaries and to the input.
pub struct Converter {
    pub ffmpeg: String,
    pub ffprobe: String,
    pub input: String,
}

impl Converter {
    /// A converter from the two binaries' paths and the input path.
    pub fn new(ffmpeg: String, ffprobe: String, input: String) -> (r: Converter)
        ensures
            r.ffmpeg@ == ffmpeg@,
            r.ffprobe@ == ffprobe@,
            r.input@ == input@,
    {
        Converter { ffmpeg, ffprobe, input }
    }

    /// The desktop convention's output location for the input file:
    /// `<stem>-8m.mp4` in the directory the environment offers.  Fails
    /// exactly when the input has no file stem.
    pub fn get_output(&self) -> (r: Result<String, ConvertError>)
        ensures
            match r {
                Ok(p) => spec_file_stem(self.input@) matches Some(stem) && exists|d: Seq<char>|
                    p@ == #[trigger] spec_join(d, spec_gui_name(stem)),
                Err(e) => e == ConvertError::NoFileStem && spec_file_stem(self.input@) is None,
            },
    {
        let info: FileInfo = format_input(self.input.as_str())?;
        proof {
            assert(info.file_path@ == spec_join(
                info.output_dir@,
                spec_gui_name(spec_file_stem(self.input@).unwrap()),
            ));
        }
        Ok(info.file_path)
    }

    /// Minimum deliverable size in micro-MB; see the budget module.
    pub fn get_target_size(&self, audio_rate: u64, duration: u64) -> (r: u64)
        requires
            audio_rate <= MAX_BUDGET_INPUT,
            duration <= MAX_BUDGET_INPUT,
        ensures
            r == spec_min_size_micro_mb(audio_rate as int, duration as int),
    {
        budget::get_target_size(audio_rate, duration)
    }

    /// Video bitrate in milli-kbps for a target size; see the budget
    /// module.
    pub fn get_target_video_rate(&self, size: u64, duration: u64, audio_rate: u64) -> (r: i64)
        requires
            size <= MAX_BUDGET_INPUT,
            1 <= duration <= MAX_BUDGET_INPUT,
            audio_rate <= MAX_BUDGET_INPUT,
        ensures
            r == spec_video_rate_milli_kbps(size as int, duration as int, audio_rate as int),
    {
        budget::get_target_video_rate(size, duration, audio_rate)
    }

    /// The input's duration in milliseconds, read off the probe
    /// invocation's printed answer.
    pub fn get_duration(&self, probe_output: &str) -> (r: Result<u64, ConvertError>)
        ensures
            match r {
                Ok(v) => spec_parse_duration(probe_output@) == Ok::<int, ConvertError>(v as int),
                Err(e) => spec_parse_duration(probe_output@) == Err::<int, ConvertError>(e),
            },
    {
        parse_duration_text(probe_output)
    }

    /// The input's audio bit rate in milli-kbps, read off the probe
    /// invocation's printed answer; zero for the sentinel `N/A`.
    pub fn get_original_audio_rate(&self, probe_output: &str) -> (r: Result<u64, ConvertError>)
        ensures
            match r {
                Ok(v) => spec_parse_audio_rate(probe_output@) == Ok::<int, ConvertError>(
                    v as int,
                ),
                Err(e) => spec_parse_audio_rate(probe_output@) == Err::<int, ConvertError>(e),
            },
    {
        parse_audio_rate_text(probe_output)
    }

    /// The probe invocation for the input's duration.
    pub fn get_duration_command(&self) -> (r: CrossCommand)
        ensures
            r.program@ == self.ffprobe@,
            args_view(r) == spec_probe_duration_args(self.input@),
    {
        probe_duration_command(self.ffprobe.as_str(), self.input.as_str())
    }

    /// The probe invocation for the input's audio bit rate.
    pub fn get_original_audio_rate_command(&self) -> (r: CrossCommand)
        ensures
            r.program@ == self.ffprobe@,
            args_view(r) == spec_probe_audio_args(self.input@),
    {
        probe_audio_command(self.ffprobe.as_str(), self.input.as_str())
    }

    /// The encoder invocation for the analysis pass.
    pub fn convert_first(
        &self,
        video_bitrate: u64,
        passlog: &str,
        os: OsFamily,
    ) -> (r: CrossCommand)
        ensures
            r.program@ == self.ffmpeg@,
            args_view(r) == spec_pass1_args(
                self.input@,
                passlog@,
                video_bitrate as int,
                spec_null_device(os),
            ),
    {
        convert_first_command(
            self.ffmpeg.as_str(),
            self.input.as_str(),
            passlog,
            video_bitrate,
            os,
        )
    }

    /// The encoder invocation for the output pass.
    pub fn convert_out(
        &self,
        video_bitrate: u64,
        audio_bitrate: u64,
        f_output: &str,
        passlog: &str,
    ) -> (r: CrossCommand)
        ensures
            r.program@ == self.ffmpeg@,
            args_view(r) == spec_pass2_args(
                self.input@,
                passlog@,
                video_bitrate as int,
                audio_bitrate as int,
                f_output@,
            ),
    {
        convert_out_command(
            self.ffmpeg.as_str(),
            self.input.as_str(),
            passlog,
            video_bitrate,
            audio_bitrate,
            f_output,
        )
    }
}

} // verus!
