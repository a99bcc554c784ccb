//! The encode driver: the exact argument lists handed to the external
//! probe and encoder binaries, and the step-by-step decision logic of a
//! conversion job.
//!
//! A job is a strict chain: probe the duration, probe the audio rate,
//! gate on the minimum deliverable size, run the encoder's analysis
//! pass, then its output pass.  The driver never runs a process
//! itself; it hands each planned invocation to its caller and is told
//! how the process fared.

use vstd::prelude::*;
use crate::budget::{
    get_target_size, get_target_video_rate, is_minsize, spec_min_size_micro_mb,
    spec_video_rate_milli_kbps, MAX_BUDGET_INPUT,
};
use crate::error::ConvertError;
use crate::probe::{
    parse_audio_rate_text, parse_duration_text, spec_parse_audio_rate, spec_parse_duration,
};
use crate::text::{format_milli, spec_format_milli};

verus! {

/// A planned invocation of an external program: the program name and
/// its argument list, nothing yet run.
#[derive(Debug)]
pub struct CrossCommand {
    pub program: String,
    pub args: Vec<String>,
}

/// The argument list as a sequence of character sequences.
pub open spec fn args_view(c: CrossCommand) -> Seq<Seq<char>> {
    c.args@.map_values(|s: String| s@)
}

/// The platform family, as far as behaviour differs across platforms.
#[derive(Clone, Copy, Debug, PartialEq, Eq, Structural)]
pub enum OsFamily {
    Windows,
    MacOs,
    Other,
}

/// The platform's discard sink for an unwanted output file.
pub open spec fn spec_null_device(os: OsFamily) -> Seq<char> {
    if os == OsFamily::Windows {
        "nul"@
    } else {
        "/dev/null"@
    }
}

/// The discard sink path for the given platform.
pub fn null_device(os: OsFamily) -> (r: &'static str)
    ensures
        r@ == spec_null_device(os),
{
    match os {
        OsFamily::Windows => "nul",
        _ => "/dev/null",
    }
}

/// A bitrate argument: the fixed-point rate in kilobits per second
/// followed by `k`.
pub open spec fn spec_rate_arg(milli_kbps: int) -> Seq<char> {
    spec_format_milli(milli_kbps) + "k"@
}

/// Probe arguments asking for the container's duration.
pub open spec fn spec_probe_duration_args(input: Seq<char>) -> Seq<Seq<char>> {
    seq!["-v"@, "error"@, "-show_entries"@, "format=duration"@, "-of"@, "csv=p=0"@, input]
}

/// Probe arguments asking for the first audio stream's bit rate.
pub open spec fn spec_probe_audio_args(input: Seq<char>) -> Seq<Seq<char>> {
    seq![
        "-v"@,
        "error"@,
        "-select_streams"@,
        "a:0"@,
        "-show_entries"@,
        "stream=bit_rate"@,
        "-of"@,
        "csv=p=0"@,
        input,
    ]
}

/// Encoder arguments for the analysis pass: video at the computed
/// rate, capped to 1280 wide, audio off, output discarded.
pub open spec fn spec_pass1_args(
    input: Seq<char>,
    passlog: Seq<char>,
    video_milli_kbps: int,
    null_dev: Seq<char>,
) -> Seq<Seq<char>> {
    seq![
        "-y"@,
        "-i"@,
        input,
        "-c:v"@,
        "libx264"@,
        "-passlogfile"@,
        passlog,
        "-filter:v"@,
        "scale=1280:-1"@,
        "-b:v"@,
        spec_rate_arg(video_milli_kbps),
        "-pass"@,
        "1"@,
        "-an"@,
        "-f"@,
        "mp4"@,
        null_dev,
    ]
}

/// Encoder arguments for the output pass: the same video rate and
/// scale, audio re-encoded at the measured rate, written to the
/// resolved output path.
pub open spec fn spec_pass2_args(
    input: Seq<char>,
    passlog: Seq<char>,
    video_milli_kbps: int,
    audio_milli_kbps: int,
    output: Seq<char>,
) -> Seq<Seq<char>> {
    seq![
        "-y"@,
        "-i"@,
        input,
        "-c:v"@,
        "libx264"@,
        "-passlogfile"@,
        passlog,
        "-filter:v"@,
        "scale=1280:-1"@,
        "-b:v"@,
        spec_rate_arg(video_milli_kbps),
        "-pass"@,
        "2"@,
        "-c:a"@,
        "aac"@,
        "-b:a"@,
        spec_rate_arg(audio_milli_kbps),
        output,
    ]
}

/// Whether the command is an output-pass invocation for any input,
/// log, rates and output whatsoever.
pub open spec fn is_pass2_invocation(c: CrossCommand) -> bool {
    exists|
        input: Seq<char>,
        passlog: Seq<char>,
        v: int,
        a: int,
        output: Seq<char>,
    |
        args_view(c) == #[trigger] spec_pass2_args(input, passlog, v, a, output)
}

/// A command whose argument list is not eighteen long is no
/// output-pass invocation.
proof fn lemma_not_pass2_by_len(c: CrossCommand)
    requires
        args_view(c).len() != 18,
    ensures
        !is_pass2_invocation(c),
{
    assert forall|
        input: Seq<char>,
        passlog: Seq<char>,
        v: int,
        a: int,
        output: Seq<char>,
    |
        args_view(c) != #[trigger] spec_pass2_args(input, passlog, v, a, output) by {
        assert(spec_pass2_args(input, passlog, v, a, output).len() == 18);
    }
}

/// The bitrate argument string for a fixed-point rate.
fn rate_arg(milli_kbps: u64) -> (r: String)
    ensures
        r@ == spec_rate_arg(milli_kbps as int),
{
    let mut out = format_milli(milli_kbps);
    out.append("k");
    out
}

/// The probe invocation asking for the input's duration.
pub fn probe_duration_command(ffprobe: &str, input: &str) -> (r: CrossCommand)
    ensures
        r.program@ == ffprobe@,
        args_view(r) == spec_probe_duration_args(input@),
{
    let mut args: Vec<String> = Vec::new();
    args.push("-v".to_owned());
    args.push("error".to_owned());
    args.push("-show_entries".to_owned());
    args.push("format=duration".to_owned());
    args.push("-of".to_owned());
    args.push("csv=p=0".to_owned());
    args.push(input.to_owned());
    let r = CrossCommand { program: ffprobe.to_owned(), args };
    proof {
        assert(args_view(r) =~~= spec_probe_duration_args(input@));
    }
    r
}

/// The probe invocation asking for the input's audio bit rate.
pub fn probe_audio_command(ffprobe: &str, input: &str) -> (r: CrossCommand)
    ensures
        r.program@ == ffprobe@,
        args_view(r) == spec_probe_audio_args(input@),
{
    let mut args: Vec<String> = Vec::new();
    args.push("-v".to_owned());
    args.push("error".to_owned());
    args.push("-select_streams".to_owned());
    args.push("a:0".to_owned());
    args.push("-show_entries".to_owned());
    args.push("stream=bit_rate".to_owned());
    args.push("-of".to_owned());
    args.push("csv=p=0".to_owned());
    args.push(input.to_owned());
    let r = CrossCommand { program: ffprobe.to_owned(), args };
    proof {
        assert(args_view(r) =~~= spec_probe_audio_args(input@));
    }
    r
}

/// The encoder invocation for the analysis pass.
pub fn convert_first_command(
    ffmpeg: &str,
    input: &str,
    passlog: &str,
    video_rate_milli_kbps: u64,
    os: OsFamily,
) -> (r: CrossCommand)
    ensures
        r.program@ == ffmpeg@,
        args_view(r) == spec_pass1_args(
            input@,
            passlog@,
            video_rate_milli_kbps as int,
            spec_null_device(os),
        ),
{
    let mut args: Vec<String> = Vec::new();
    args.push("-y".to_owned());
    args.push("-i".to_owned());
    args.push(input.to_owned());
    args.push("-c:v".to_owned());
    args.push("libx264".to_owned());
    args.push("-passlogfile".to_owned());
    args.push(passlog.to_owned());
    args.push("-filter:v".to_owned());
    args.push("scale=1280:-1".to_owned());
    args.push("-b:v".to_owned());
    args.push(rate_arg(video_rate_milli_kbps));
    args.push("-pass".to_owned());
    args.push("1".to_owned());
    args.push("-an".to_owned());
    args.push("-f".to_owned());
    args.push("mp4".to_owned());
    args.push(null_device(os).to_owned());
    let r = CrossCommand { program: ffmpeg.to_owned(), args };
    proof {
        assert(args_view(r) =~~= spec_pass1_args(
            input@,
            passlog@,
            video_rate_milli_kbps as int,
            spec_null_device(os),
        ));
    }
    r
}

/// The encoder invocation for the output pass.
pub fn convert_out_command(
    ffmpeg: &str,
    input: &str,
    passlog: &str,
    video_rate_milli_kbps: u64,
    audio_rate_milli_kbps: u64,
    output: &str,
) -> (r: CrossCommand)
    ensures
        r.program@ == ffmpeg@,
        args_view(r) == spec_pass2_args(
            input@,
            passlog@,
            video_rate_milli_kbps as int,
            audio_rate_milli_kbps as int,
            output@,
        ),
{
    let mut args: Vec<String> = Vec::new();
    args.push("-y".to_owned());
    args.push("-i".to_owned());
    args.push(input.to_owned());
    args.push("-c:v".to_owned());
    args.push("libx264".to_owned());
    args.push("-passlogfile".to_owned());
    args.push(passlog.to_owned());
    args.push("-filter:v".to_owned());
    args.push("scale=1280:-1".to_owned());
    args.push("-b:v".to_owned());
    args.push(rate_arg(video_rate_milli_kbps));
    args.push("-pass".to_owned());
    args.push("2".to_owned());
    args.push("-c:a".to_owned());
    args.push("aac".to_owned());
    args.push("-b:a".to_owned());
    args.push(rate_arg(audio_rate_milli_kbps));
    args.push(output.to_owned());
    let r = CrossCommand { program: ffmpeg.to_owned(), args };
    proof {
        assert(args_view(r) =~~= spec_pass2_args(
            input@,
            passlog@,
            video_rate_milli_kbps as int,
            audio_rate_milli_kbps as int,
            output@,
        ));
    }
    r
}

/// How to reveal a file in the platform's file manager: a native
/// command on platforms that have one, an error on the rest.
pub fn reveal_strategy(os: OsFamily, path: &str) -> (r: Result<CrossCommand, ConvertError>)
    ensures
        match r {
            Ok(c) => (os == OsFamily::Windows && c.program@ == "explorer"@ && args_view(c)
                =~~= seq!["/select,"@, path@]) || (os == OsFamily::MacOs && c.program@
                == "open"@ && args_view(c) =~~= seq!["-R"@, path@]),
            Err(e) => e == ConvertError::UnsupportedPlatform && os == OsFamily::Other,
        },
{
    match os {
        OsFamily::Windows => {
            let mut args: Vec<String> = Vec::new();
            args.push("/select,".to_owned());
            args.push(path.to_owned());
            let c = CrossCommand { program: "explorer".to_owned(), args };
            proof {
                assert(args_view(c) =~~= seq!["/select,"@, path@]);
            }
            Ok(c)
        },
        OsFamily::MacOs => {
            let mut args: Vec<String> = Vec::new();
            args.push("-R".to_owned());
            args.push(path.to_owned());
            let c = CrossCommand { program: "open".to_owned(), args };
            proof {
                assert(args_view(c) =~~= seq!["-R"@, path@]);
            }
            Ok(c)
        },
        OsFamily::Other => Err(ConvertError::UnsupportedPlatform),
    }
}

/// Everything a conversion job is configured with, passed in once
/// rather than read from the ambient environment.
pub struct JobConfig {
    pub ffmpeg: String,
    pub ffprobe: String,
    pub input: String,
    pub output: String,
    pub passlog: String,
    pub target_size_micro_mb: u64,
    pub os: OsFamily,
}

impl JobConfig {
    /// A configuration the budget arithmetic can take.
    pub open spec fn wf(self) -> bool {
        self.target_size_micro_mb <= MAX_BUDGET_INPUT
    }
}

/// What the encoder is to be driven with, fixed once computed.
pub struct EncodePlan {
    pub video_rate_milli_kbps: u64,
    pub audio_rate_milli_kbps: u64,
    pub output_path: String,
}

/// Where a conversion job stands: which answer it is waiting for, or
/// how it ended.
pub enum JobState {
    /// The duration probe is running.
    AwaitDuration,
    /// The audio bit-rate probe is running.
    AwaitAudioRate { duration_ms: u64 },
    /// The analysis pass is running.
    AwaitPass1 { plan: EncodePlan },
    /// The output pass is running.
    AwaitPass2 { plan: EncodePlan },
    /// Both passes finished; the output stands at the planned path.
    Done { plan: EncodePlan },
    /// The size gate stopped the job: the minimum deliverable size
    /// reached or exceeded the target, or left no positive video
    /// bitrate.  Reported as a value, not an error.
    Rejected { min_size_micro_mb: u64 },
    /// The job aborted.
    Failed { error: ConvertError },
}

/// The values a state carries are inside the budget's input range.
pub open spec fn state_wf(state: JobState) -> bool {
    match state {
        JobState::AwaitAudioRate { duration_ms } => 1 <= duration_ms <= MAX_BUDGET_INPUT,
        _ => true,
    }
}

/// What the driver asks its caller to do next.
pub enum JobAction {
    /// Run this invocation and report back how it exited.
    Run(CrossCommand),
    /// Nothing further: the job reached a terminal state.
    Stop,
}

/// How a requested invocation fared: whether it launched and exited
/// reporting success, and what it printed on standard output.
pub struct JobEvent {
    pub success: bool,
    pub stdout: String,
}

/// Begins a conversion job: the first thing to run is the duration
/// probe.
pub fn job_start(cfg: &JobConfig) -> (r: (JobState, JobAction))
    ensures
        r.0 == JobState::AwaitDuration,
        state_wf(r.0),
        r.1 matches JobAction::Run(c) && c.program@ == cfg.ffprobe@ && args_view(c)
            == spec_probe_duration_args(cfg.input@),
{
    let cmd = probe_duration_command(cfg.ffprobe.as_str(), cfg.input.as_str());
    (JobState::AwaitDuration, JobAction::Run(cmd))
}

/// Advances a conversion job by one completed invocation.
///
/// The strict chain is enforced here: a failed or malformed probe
/// answer aborts the job, the size gate stops it before any encoding,
/// and the output pass is issued only on the analysis pass's success —
/// the last ensures clause states that no event other than a
/// successful analysis pass can ever make the driver issue an
/// output-pass invocation.
pub fn job_step(cfg: &JobConfig, state: JobState, event: &JobEvent) -> (r: (JobState, JobAction))
    requires
        cfg.wf(),
        state_wf(state),
    ensures
        state_wf(r.0),
        (match state {
            JobState::AwaitDuration => {
                if !event.success {
                    r.0 == (JobState::Failed { error: ConvertError::ExternalToolError })
                        && r.1 is Stop
                } else {
                    match spec_parse_duration(event.stdout@) {
                        Ok(d) => r.0 == (JobState::AwaitAudioRate { duration_ms: d as u64 }) && (
                        r.1 matches JobAction::Run(c) && c.program@ == cfg.ffprobe@ && args_view(c)
                            == spec_probe_audio_args(cfg.input@)),
                        Err(e) => r.0 == (JobState::Failed { error: e }) && r.1 is Stop,
                    }
                }
            },
            JobState::AwaitAudioRate { duration_ms } => {
                if !event.success {
                    r.0 == (JobState::Failed { error: ConvertError::ExternalToolError })
                        && r.1 is Stop
                } else {
                    match spec_parse_audio_rate(event.stdout@) {
                        Ok(a) => {
                            let m = spec_min_size_micro_mb(a, duration_ms as int);
                            let v = spec_video_rate_milli_kbps(
                                cfg.target_size_micro_mb as int,
                                duration_ms as int,
                                a,
                            );
                            if m < cfg.target_size_micro_mb && v >= 1 {
                                &&& r.0 matches JobState::AwaitPass1 { plan }
                                &&& plan.video_rate_milli_kbps == v
                                &&& plan.audio_rate_milli_kbps == a
                                &&& plan.output_path@ == cfg.output@
                                &&& (r.1 matches JobAction::Run(c) && c.program@ == cfg.ffmpeg@
                                    && args_view(c) == spec_pass1_args(
                                    cfg.input@,
                                    cfg.passlog@,
                                    v,
                                    spec_null_device(cfg.os),
                                ))
                            } else {
                                r.0 == (JobState::Rejected { min_size_micro_mb: m as u64 })
                                    && r.1 is Stop
                            }
                        },
                        Err(e) => r.0 == (JobState::Failed { error: e }) && r.1 is Stop,
                    }
                }
            },
            JobState::AwaitPass1 { plan } => {
                if event.success {
                    &&& r.0 matches JobState::AwaitPass2 { plan: p2 }
                    &&& p2 == plan
                    &&& (r.1 matches JobAction::Run(c) && c.program@ == cfg.ffmpeg@ && args_view(c)
                        == spec_pass2_args(
                        cfg.input@,
                        cfg.passlog@,
                        plan.video_rate_milli_kbps as int,
                        plan.audio_rate_milli_kbps as int,
                        plan.output_path@,
                    ))
                } else {
                    r.0 == (JobState::Failed { error: ConvertError::ExternalToolError })
                        && r.1 is Stop
                }
            },
            JobState::AwaitPass2 { plan } => {
                if event.success {
                    (r.0 matches JobState::Done { plan: p } && p == plan) && r.1 is Stop
                } else {
                    r.0 == (JobState::Failed { error: ConvertError::ExternalToolError })
                        && r.1 is Stop
                }
            },
            _ => r.0 == state && r.1 is Stop,
        }),
        (r.1 matches JobAction::Run(c) && is_pass2_invocation(c)) ==> (
        state matches JobState::AwaitPass1 { plan } && event.success),
{
    match state {
        JobState::AwaitDuration => {
            if !event.success {
                (JobState::Failed { error: ConvertError::ExternalToolError }, JobAction::Stop)
            } else {
                match parse_duration_text(event.stdout.as_str()) {
                    Ok(d) => {
                        let cmd = probe_audio_command(cfg.ffprobe.as_str(), cfg.input.as_str());
                        proof {
                            assert(args_view(cmd).len() == 9);
                            lemma_not_pass2_by_len(cmd);
                        }
                        (JobState::AwaitAudioRate { duration_ms: d }, JobAction::Run(cmd))
                    },
                    Err(e) => (JobState::Failed { error: e }, JobAction::Stop),
                }
            }
        },
        JobState::AwaitAudioRate { duration_ms } => {
            if !event.success {
                (JobState::Failed { error: ConvertError::ExternalToolError }, JobAction::Stop)
            } else {
                match parse_audio_rate_text(event.stdout.as_str()) {
                    Ok(a) => {
                        let m = get_target_size(a, duration_ms);
                        let v = get_target_video_rate(cfg.target_size_micro_mb, duration_ms, a);
                        if is_minsize(m, cfg.target_size_micro_mb) && v >= 1 {
                            let vu = v as u64;
                            let cmd = convert_first_command(
                                cfg.ffmpeg.as_str(),
                                cfg.input.as_str(),
                                cfg.passlog.as_str(),
                                vu,
                                cfg.os,
                            );
                            let plan = EncodePlan {
                                video_rate_milli_kbps: vu,
                                audio_rate_milli_kbps: a,
                                output_path: cfg.output.clone(),
                            };
                            proof {
                                assert(args_view(cmd).len() == 17);
                                lemma_not_pass2_by_len(cmd);
                            }
                            (JobState::AwaitPass1 { plan }, JobAction::Run(cmd))
                        } else {
                            (JobState::Rejected { min_size_micro_mb: m }, JobAction::Stop)
                        }
                    },
                    Err(e) => (JobState::Failed { error: e }, JobAction::Stop),
                }
            }
        },
        JobState::AwaitPass1 { plan } => {
            if event.success {
                let cmd = convert_out_command(
                    cfg.ffmpeg.as_str(),
                    cfg.input.as_str(),
                    cfg.passlog.as_str(),
                    plan.video_rate_milli_kbps,
                    plan.audio_rate_milli_kbps,
                    plan.output_path.as_str(),
                );
                (JobState::AwaitPass2 { plan }, JobAction::Run(cmd))
            } else {
                (JobState::Failed { error: ConvertError::ExternalToolError }, JobAction::Stop)
            }
        },
        JobState::AwaitPass2 { plan } => {
            if event.success {
                (JobState::Done { plan }, JobAction::Stop)
            } else {
                (JobState::Failed { error: ConvertError::ExternalToolError }, JobAction::Stop)
            }
        },
        terminal => (terminal, JobAction::Stop),
    }
}

} // verus!
