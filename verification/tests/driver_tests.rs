use atem_converter::converter::Converter;
use atem_converter::driver::{
    job_start, job_step, null_device, reveal_strategy, CrossCommand, JobAction, JobConfig,
    JobEvent, JobState, OsFamily,
};
use atem_converter::error::ConvertError;

fn test_config() -> JobConfig {
    JobConfig {
        ffmpeg: "ffmpeg".to_string(),
        ffprobe: "ffprobe".to_string(),
        input: "/videos/clip.mp4".to_string(),
        output: "/videos/clip_out.mp4".to_string(),
        passlog: "/tmp/passlog".to_string(),
        target_size_micro_mb: 15_500_000,
        os: OsFamily::Other,
    }
}

fn ok_event(stdout: &str) -> JobEvent {
    JobEvent { success: true, stdout: stdout.to_string() }
}

fn failed_event() -> JobEvent {
    JobEvent { success: false, stdout: String::new() }
}

fn run_command(action: JobAction) -> CrossCommand {
    match action {
        JobAction::Run(c) => c,
        JobAction::Stop => panic!("expected a command to run"),
    }
}

#[test]
fn null_device_per_platform() {
    assert_eq!(null_device(OsFamily::Windows), "nul");
    assert_eq!(null_device(OsFamily::MacOs), "/dev/null");
    assert_eq!(null_device(OsFamily::Other), "/dev/null");
}

#[test]
fn happy_path_runs_both_passes_in_order() {
    let cfg = test_config();
    let (state, action) = job_start(&cfg);
    let probe = run_command(action);
    assert_eq!(probe.program, "ffprobe");
    assert_eq!(
        probe.args,
        vec![
            "-v",
            "error",
            "-show_entries",
            "format=duration",
            "-of",
            "csv=p=0",
            "/videos/clip.mp4"
        ]
    );

    // Duration: 120 s.
    let (state, action) = job_step(&cfg, state, &ok_event("120.000000\n"));
    match &state {
        JobState::AwaitAudioRate { duration_ms } => assert_eq!(*duration_ms, 120_000),
        _ => panic!("expected the audio probe to be next"),
    }
    let probe = run_command(action);
    assert_eq!(probe.program, "ffprobe");
    assert_eq!(
        probe.args,
        vec![
            "-v",
            "error",
            "-select_streams",
            "a:0",
            "-show_entries",
            "stream=bit_rate",
            "-of",
            "csv=p=0",
            "/videos/clip.mp4"
        ]
    );

    // Audio: 128000 bits/s = 125 kbps; floor 1.8311 MB < 15.5 MB.
    let (state, action) = job_step(&cfg, state, &ok_event("128000\n"));
    match &state {
        JobState::AwaitPass1 { plan } => {
            assert_eq!(plan.audio_rate_milli_kbps, 125_000);
            assert_eq!(plan.video_rate_milli_kbps, 884_114);
            assert_eq!(plan.output_path, "/videos/clip_out.mp4");
        },
        _ => panic!("expected the analysis pass to be next"),
    }
    let pass1 = run_command(action);
    assert_eq!(pass1.program, "ffmpeg");
    assert_eq!(
        pass1.args,
        vec![
            "-y",
            "-i",
            "/videos/clip.mp4",
            "-c:v",
            "libx264",
            "-passlogfile",
            "/tmp/passlog",
            "-filter:v",
            "scale=1280:-1",
            "-b:v",
            "884.114k",
            "-pass",
            "1",
            "-an",
            "-f",
            "mp4",
            "/dev/null"
        ]
    );

    // Pass 1 succeeded: pass 2 follows with audio re-encoded.
    let (state, action) = job_step(&cfg, state, &ok_event(""));
    assert!(matches!(state, JobState::AwaitPass2 { .. }));
    let pass2 = run_command(action);
    assert_eq!(pass2.program, "ffmpeg");
    assert_eq!(
        pass2.args,
        vec![
            "-y",
            "-i",
            "/videos/clip.mp4",
            "-c:v",
            "libx264",
            "-passlogfile",
            "/tmp/passlog",
            "-filter:v",
            "scale=1280:-1",
            "-b:v",
            "884.114k",
            "-pass",
            "2",
            "-c:a",
            "aac",
            "-b:a",
            "125.000k",
            "/videos/clip_out.mp4"
        ]
    );

    // Pass 2 succeeded: done, output at the planned path.
    let (state, action) = job_step(&cfg, state, &ok_event(""));
    match state {
        JobState::Done { plan } => assert_eq!(plan.output_path, "/videos/clip_out.mp4"),
        _ => panic!("expected the job to be done"),
    }
    assert!(matches!(action, JobAction::Stop));
}

#[test]
fn failed_pass1_never_issues_pass2() {
    let cfg = test_config();
    let (state, _) = job_start(&cfg);
    let (state, _) = job_step(&cfg, state, &ok_event("120.0\n"));
    let (state, _) = job_step(&cfg, state, &ok_event("128000\n"));
    assert!(matches!(state, JobState::AwaitPass1 { .. }));
    // The analysis pass exits non-zero: the job aborts, nothing runs.
    let (state, action) = job_step(&cfg, state, &failed_event());
    assert!(matches!(
        state,
        JobState::Failed { error: ConvertError::ExternalToolError }
    ));
    assert!(matches!(action, JobAction::Stop));
    // Stepping a terminal state stays put and runs nothing.
    let (state, action) = job_step(&cfg, state, &ok_event(""));
    assert!(matches!(state, JobState::Failed { .. }));
    assert!(matches!(action, JobAction::Stop));
}

#[test]
fn gate_rejects_before_any_encode() {
    // 600 s at 320 kbps against a 5 MB target: floor 23.4375 MB.
    let mut cfg = test_config();
    cfg.target_size_micro_mb = 5_000_000;
    let (state, _) = job_start(&cfg);
    let (state, _) = job_step(&cfg, state, &ok_event("600.000000\n"));
    let (state, action) = job_step(&cfg, state, &ok_event("327680\n"));
    match state {
        JobState::Rejected { min_size_micro_mb } => assert_eq!(min_size_micro_mb, 23_437_500),
        _ => panic!("expected the size gate to reject"),
    }
    assert!(matches!(action, JobAction::Stop));
}

#[test]
fn probe_failures_abort() {
    let cfg = test_config();
    let (state, _) = job_start(&cfg);
    // Launch failure of the duration probe.
    let (state2, action) = job_step(&cfg, state, &failed_event());
    assert!(matches!(
        state2,
        JobState::Failed { error: ConvertError::ExternalToolError }
    ));
    assert!(matches!(action, JobAction::Stop));
    // Malformed duration output.
    let (state, _) = job_start(&cfg);
    let (state, action) = job_step(&cfg, state, &ok_event("whoops"));
    assert!(matches!(
        state,
        JobState::Failed { error: ConvertError::ParseError }
    ));
    assert!(matches!(action, JobAction::Stop));
}

#[test]
fn reveal_strategy_per_platform() {
    let c = reveal_strategy(OsFamily::Windows, "/videos/clip.mp4").unwrap();
    assert_eq!(c.program, "explorer");
    assert_eq!(c.args, vec!["/select,", "/videos/clip.mp4"]);
    let c = reveal_strategy(OsFamily::MacOs, "/videos/clip.mp4").unwrap();
    assert_eq!(c.program, "open");
    assert_eq!(c.args, vec!["-R", "/videos/clip.mp4"]);
    assert_eq!(
        reveal_strategy(OsFamily::Other, "/videos/clip.mp4").unwrap_err(),
        ConvertError::UnsupportedPlatform
    );
}

#[test]
fn converter_builds_the_same_commands() {
    let conv = Converter::new(
        "ffmpeg".to_string(),
        "ffprobe".to_string(),
        "clip.mp4".to_string(),
    );
    assert_eq!(conv.get_duration_command().program, "ffprobe");
    assert_eq!(
        conv.get_duration_command().args,
        vec!["-v", "error", "-show_entries", "format=duration", "-of", "csv=p=0", "clip.mp4"]
    );
    assert_eq!(
        conv.get_original_audio_rate_command().args,
        vec![
            "-v",
            "error",
            "-select_streams",
            "a:0",
            "-show_entries",
            "stream=bit_rate",
            "-of",
            "csv=p=0",
            "clip.mp4"
        ]
    );
    let pass1 = conv.convert_first(884_114, "/tmp/passlog", OsFamily::Windows);
    assert_eq!(pass1.args[10], "884.114k");
    assert_eq!(pass1.args[16], "nul");
    let pass2 = conv.convert_out(884_114, 125_000, "/videos/clip-8m.mp4", "/tmp/passlog");
    assert_eq!(pass2.args[16], "125.000k");
    assert_eq!(pass2.args[17], "/videos/clip-8m.mp4");
    assert_eq!(conv.get_target_size(125_000, 120_000), 1_831_054);
    assert_eq!(conv.get_target_video_rate(15_500_000, 120_000, 125_000), 884_114);
    assert_eq!(conv.get_duration("120.000000\n").unwrap(), 120_000);
    assert_eq!(conv.get_original_audio_rate("N/A\n").unwrap(), 0);
}
