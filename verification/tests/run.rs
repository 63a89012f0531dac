use tessie::error::TranscodeError;
use tessie::ffmpeg::ProcessOutcome;
use tessie::format::Format;
use tessie::runner::{Action, Event, Options, Runner};

fn options(input: &str) -> Options {
    Options {
        input: Some(input.to_string()),
        format: None,
        start: None,
        end: None,
        duration: None,
        map: Vec::new(),
    }
}

fn ok() -> Event {
    Event::Probed(ProcessOutcome::Exited(0))
}

fn free() -> Event {
    Event::OutputChecked { exists: false }
}

fn youtube_args(input: &str, output: &str) -> Vec<String> {
    let mut args = vec!["-y", "-hwaccel", "cuvid", "-c:v", "h264_cuvid", "-i", input];
    args.extend([
        "-c:v",
        "h264_nvenc",
        "-coder",
        "1",
        "-preset",
        "llhq",
        "-rc:v",
        "vbr_minqp",
        "-qmin:v",
        "21",
        "-qmax:v",
        "23",
        "-b:v",
        "5000k",
        "-maxrate:v",
        "8000k",
        "-profile:v",
        "high",
        "-bf",
        "2",
        "-c:a",
        "aac",
        "-profile:a",
        "aac_low",
        "-b:a",
        "384k",
        "-f",
        "mp4",
        output,
    ]);
    args.into_iter().map(String::from).collect()
}

#[test]
fn movie_without_format_becomes_mp4() {
    let run = Runner::new(options("movie.mov"));
    match run.pending() {
        Action::Probe(cmd) => {
            assert_eq!(cmd.program, "ffmpeg");
            assert_eq!(cmd.args, vec!["-version"]);
        }
        other => panic!("unexpected {:?}", other),
    }
    let run = run.step(ok());
    assert_eq!(run.pending(), Action::CheckOutput("movie.mp4".to_string()));
    let run = run.step(free());
    match run.pending() {
        Action::Transcode(cmd) => {
            assert_eq!(cmd.program, "ffmpeg");
            assert_eq!(cmd.args, youtube_args("movie.mov", "movie.mp4"));
        }
        other => panic!("unexpected {:?}", other),
    }
    let run = run.step(Event::Transcoded(ProcessOutcome::Exited(0)));
    assert_eq!(run, Runner::Executed(Ok(())));
    assert_eq!(run.pending(), Action::Finish(Ok(())));
}

#[test]
fn existing_output_stops_the_run_before_the_transcode() {
    let run = Runner::new(options("movie.mov")).step(ok());
    assert_eq!(run.pending(), Action::CheckOutput("movie.mp4".to_string()));
    let run = run.step(Event::OutputChecked { exists: true });
    let collision = TranscodeError::OutputCollision("movie.mp4".to_string());
    assert_eq!(run.pending(), Action::Finish(Err(collision.clone())));
    let run = run.step(free());
    assert_eq!(run.pending(), Action::Finish(Err(collision.clone())));
    let run = run.step(Event::Transcoded(ProcessOutcome::Exited(0)));
    assert_eq!(run, Runner::Executed(Err(collision)));
}

#[test]
fn failed_probe_stops_the_run_before_anything_else() {
    for outcome in [
        ProcessOutcome::Exited(1),
        ProcessOutcome::NotStarted,
        ProcessOutcome::Interrupted,
    ] {
        let run = Runner::new(options("movie.mov")).step(Event::Probed(outcome));
        assert_eq!(
            run.pending(),
            Action::Finish(Err(TranscodeError::ToolUnavailable))
        );
        let run = run.step(ok()).step(free());
        assert_eq!(run, Runner::Executed(Err(TranscodeError::ToolUnavailable)));
    }
}

#[test]
fn failed_probe_comes_before_every_other_complaint() {
    let bad = Options {
        input: None,
        format: Some("webm".to_string()),
        start: None,
        end: None,
        duration: None,
        map: Vec::new(),
    };
    let run = Runner::new(bad).step(Event::Probed(ProcessOutcome::Exited(2)));
    assert_eq!(run, Runner::Executed(Err(TranscodeError::ToolUnavailable)));
}

#[test]
fn unknown_format_is_found_once_the_tool_is_known() {
    let mut asked = options("movie.mov");
    asked.format = Some("webm".to_string());
    let run = Runner::new(asked);
    assert!(matches!(run.pending(), Action::Probe(_)));
    let run = run.step(ok());
    assert_eq!(
        run,
        Runner::Executed(Err(TranscodeError::UnknownFormat("webm".to_string())))
    );
}

#[test]
fn unknown_format_comes_before_missing_input() {
    let asked = Options {
        input: None,
        format: Some("webm".to_string()),
        start: None,
        end: None,
        duration: None,
        map: Vec::new(),
    };
    assert_eq!(
        Runner::new(asked).step(ok()),
        Runner::Executed(Err(TranscodeError::UnknownFormat("webm".to_string())))
    );
}

#[test]
fn missing_input_ends_the_run() {
    let asked = Options {
        input: None,
        format: Some("gif".to_string()),
        start: None,
        end: None,
        duration: None,
        map: Vec::new(),
    };
    assert_eq!(
        Runner::new(asked).step(ok()),
        Runner::Executed(Err(TranscodeError::MissingArgument))
    );
}

#[test]
fn copy_without_extension_ends_the_run() {
    let mut asked = options("noext");
    asked.format = Some("copy".to_string());
    assert_eq!(
        Runner::new(asked).step(ok()),
        Runner::Executed(Err(TranscodeError::MissingExtension(
            "noext".to_string()
        )))
    );
}

#[test]
fn failed_transcode_is_a_process_failure() {
    let run = Runner::new(options("movie.mov")).step(ok()).step(free());
    let run = run.step(Event::Transcoded(ProcessOutcome::Exited(1)));
    assert_eq!(run, Runner::Executed(Err(TranscodeError::ProcessFailure)));
    assert_eq!(
        run.pending(),
        Action::Finish(Err(TranscodeError::ProcessFailure))
    );
}

#[test]
fn interrupted_transcode_is_a_process_failure() {
    let run = Runner::new(options("movie.mov")).step(ok()).step(free());
    let run = run.step(Event::Transcoded(ProcessOutcome::Interrupted));
    assert_eq!(run, Runner::Executed(Err(TranscodeError::ProcessFailure)));
}

#[test]
fn transcode_that_cannot_start_means_no_tool() {
    let run = Runner::new(options("movie.mov")).step(ok()).step(free());
    let run = run.step(Event::Transcoded(ProcessOutcome::NotStarted));
    assert_eq!(run, Runner::Executed(Err(TranscodeError::ToolUnavailable)));
}

#[test]
fn reports_out_of_turn_change_nothing() {
    let run = Runner::new(options("movie.mov"));
    let run = run.step(free());
    assert_eq!(run, Runner::new(options("movie.mov")));
    let run = run.step(Event::Transcoded(ProcessOutcome::Exited(0)));
    assert!(matches!(run.pending(), Action::Probe(_)));

    let run = run.step(ok());
    let verified = run.pending();
    let run = run.step(ok());
    assert_eq!(run.pending(), verified);
    let run = run.step(Event::Transcoded(ProcessOutcome::Exited(0)));
    assert_eq!(run.pending(), verified);

    let run = run.step(free());
    let assembled = run.pending();
    assert!(matches!(assembled, Action::Transcode(_)));
    let run = run.step(Event::OutputChecked { exists: true });
    assert_eq!(run.pending(), assembled);
    let run = run.step(Event::Probed(ProcessOutcome::Exited(1)));
    assert_eq!(run.pending(), assembled);

    let run = run.step(Event::Transcoded(ProcessOutcome::Exited(0)));
    let run = run.step(Event::Transcoded(ProcessOutcome::Exited(1)));
    assert_eq!(run, Runner::Executed(Ok(())));
}

#[test]
fn options_are_carried_into_the_command() {
    let asked = Options {
        input: Some("talk.mkv".to_string()),
        format: Some("Copy".to_string()),
        start: Some("00:10".to_string()),
        end: Some("00:20".to_string()),
        duration: Some("5".to_string()),
        map: vec!["0:0".to_string(), "0:2".to_string()],
    };
    let run = Runner::new(asked).step(ok());
    match &run {
        Runner::Verified(request) => {
            assert_eq!(request.format, Format::Copy);
            assert_eq!(request.input, "talk.mkv");
            assert_eq!(request.output, "talk.copy.mkv");
            assert_eq!(request.ffmpeg.map, vec!["0:0", "0:2"]);
            assert_eq!(request.ffmpeg.start.as_deref(), Some("00:10"));
            assert_eq!(request.ffmpeg.end.as_deref(), Some("00:20"));
            assert_eq!(request.ffmpeg.duration.as_deref(), Some("5"));
        }
        other => panic!("unexpected {:?}", other),
    }
    assert_eq!(
        run.pending(),
        Action::CheckOutput("talk.copy.mkv".to_string())
    );
    match run.step(free()).pending() {
        Action::Transcode(cmd) => assert_eq!(
            cmd.args,
            vec![
                "-ss",
                "00:10",
                "-to",
                "00:20",
                "-t",
                "5",
                "-i",
                "talk.mkv",
                "-map",
                "0:0",
                "-map",
                "0:2",
                "-c:v",
                "copy",
                "-c:a",
                "copy",
                "talk.copy.mkv",
            ]
        ),
        other => panic!("unexpected {:?}", other),
    }
}

#[test]
fn gif_run_names_the_output_gif() {
    let mut asked = options("clip.mp4");
    asked.format = Some("Gif".to_string());
    let run = Runner::new(asked).step(ok());
    assert_eq!(run.pending(), Action::CheckOutput("clip.gif".to_string()));
}

#[test]
fn transcode_is_asked_for_only_after_both_checks() {
    let events = [
        ok(),
        free(),
        Event::OutputChecked { exists: true },
        Event::Probed(ProcessOutcome::Exited(1)),
        Event::Transcoded(ProcessOutcome::Exited(0)),
    ];
    for a in &events {
        for b in &events {
            for c in &events {
                let mut run = Runner::new(options("movie.mov"));
                let mut told_tool = false;
                let mut told_free = false;
                for e in [a, b, c] {
                    assert!(!matches!(run.pending(), Action::Transcode(_)) || (told_tool && told_free));
                    if *e == ok() {
                        told_tool = true;
                    }
                    if told_tool && *e == free() {
                        told_free = true;
                    }
                    run = run.step(*e);
                }
                assert!(!matches!(run.pending(), Action::Transcode(_)) || (told_tool && told_free));
            }
        }
    }
}
