use tessie::error::TranscodeError;
use tessie::format::Format;
use tessie::invocation::Invocation;

fn args_of(cmd: &Invocation) -> Vec<&str> {
    cmd.args.iter().map(|a| a.as_str()).collect()
}

#[test]
fn lookup_knows_both_spellings_of_each_preset() {
    assert_eq!(Format::lookup("youtube"), Ok(Format::YouTube));
    assert_eq!(Format::lookup("YouTube"), Ok(Format::YouTube));
    assert_eq!(Format::lookup("gif"), Ok(Format::Gif));
    assert_eq!(Format::lookup("Gif"), Ok(Format::Gif));
    assert_eq!(Format::lookup("copy"), Ok(Format::Copy));
    assert_eq!(Format::lookup("Copy"), Ok(Format::Copy));
}

#[test]
fn lookup_gives_the_same_answer_when_asked_again() {
    for token in ["youtube", "YouTube", "gif", "Gif", "copy", "Copy", "webm"] {
        assert_eq!(Format::lookup(token), Format::lookup(token));
    }
}

#[test]
fn lookup_names_the_selector_it_does_not_know() {
    assert_eq!(
        Format::lookup("webm"),
        Err(TranscodeError::UnknownFormat("webm".to_string()))
    );
    assert_eq!(
        Format::lookup(""),
        Err(TranscodeError::UnknownFormat(String::new()))
    );
}

#[test]
fn lookup_takes_no_other_capitals() {
    assert_eq!(
        Format::lookup("YOUTUBE"),
        Err(TranscodeError::UnknownFormat("YOUTUBE".to_string()))
    );
    assert_eq!(
        Format::lookup("GIF"),
        Err(TranscodeError::UnknownFormat("GIF".to_string()))
    );
    assert_eq!(
        Format::lookup("copy "),
        Err(TranscodeError::UnknownFormat("copy ".to_string()))
    );
    assert_eq!(
        Format::lookup("gi"),
        Err(TranscodeError::UnknownFormat("gi".to_string()))
    );
}

#[test]
fn select_defaults_to_youtube() {
    assert_eq!(Format::select(&None), Ok(Format::YouTube));
}

#[test]
fn select_looks_a_given_selector_up() {
    assert_eq!(Format::select(&Some("gif".to_string())), Ok(Format::Gif));
    assert_eq!(Format::select(&Some("Copy".to_string())), Ok(Format::Copy));
    assert_eq!(
        Format::select(&Some("avi".to_string())),
        Err(TranscodeError::UnknownFormat("avi".to_string()))
    );
}

#[test]
fn youtube_input_args_ask_for_overwrite_and_hardware_decode() {
    let mut cmd = Invocation::new("ffmpeg");
    Format::YouTube.input_args(&mut cmd);
    assert_eq!(cmd.program, "ffmpeg");
    assert_eq!(
        args_of(&cmd),
        vec!["-y", "-hwaccel", "cuvid", "-c:v", "h264_cuvid"]
    );
}

#[test]
fn gif_and_copy_have_no_input_args() {
    let mut cmd = Invocation::new("ffmpeg");
    Format::Gif.input_args(&mut cmd);
    assert!(cmd.args.is_empty());
    Format::Copy.input_args(&mut cmd);
    assert!(cmd.args.is_empty());
}

#[test]
fn input_args_keep_what_is_there() {
    let mut cmd = Invocation::new("ffmpeg");
    cmd.arg("-ss");
    cmd.arg("10");
    Format::YouTube.input_args(&mut cmd);
    assert_eq!(
        args_of(&cmd),
        vec!["-ss", "10", "-y", "-hwaccel", "cuvid", "-c:v", "h264_cuvid"]
    );
}

#[test]
fn youtube_output_args_are_the_full_bundle() {
    let mut cmd = Invocation::new("ffmpeg");
    Format::YouTube.output_args(&mut cmd);
    assert_eq!(
        args_of(&cmd),
        vec![
            "-c:v",
            "h264_nvenc",
            "-coder",
            "1",
            "-preset",
            "llhq",
            "-rc:v",
            "vbr_minqp",
            "-qmin:v",
            "21",
            "-qmax:v",
            "23",
            "-b:v",
            "5000k",
            "-maxrate:v",
            "8000k",
            "-profile:v",
            "high",
            "-bf",
            "2",
            "-c:a",
            "aac",
            "-profile:a",
            "aac_low",
            "-b:a",
            "384k",
            "-f",
            "mp4",
        ]
    );
}

#[test]
fn gif_output_args_build_and_use_a_palette() {
    let mut cmd = Invocation::new("ffmpeg");
    Format::Gif.output_args(&mut cmd);
    assert_eq!(
        args_of(&cmd),
        vec![
            "-filter_complex",
            "[0:v] fps=12,scale=280:-1,split [a][b];[a] palettegen [p];[b][p] paletteuse",
            "-f",
            "gif",
        ]
    );
}

#[test]
fn copy_output_args_copy_both_streams() {
    let mut cmd = Invocation::new("ffmpeg");
    Format::Copy.output_args(&mut cmd);
    assert_eq!(args_of(&cmd), vec!["-c:v", "copy", "-c:a", "copy"]);
}

#[test]
fn output_args_keep_what_is_there() {
    let mut cmd = Invocation::new("ffmpeg");
    cmd.args(&["-i", "in.mkv"]);
    Format::Copy.output_args(&mut cmd);
    assert_eq!(
        args_of(&cmd),
        vec!["-i", "in.mkv", "-c:v", "copy", "-c:a", "copy"]
    );
}

#[test]
fn forced_container_is_the_extension_of_the_output() {
    for (format, ext) in [(Format::YouTube, "mp4"), (Format::Gif, "gif")] {
        let mut cmd = Invocation::new("ffmpeg");
        format.output_args(&mut cmd);
        let n = cmd.args.len();
        assert_eq!(cmd.args[n - 2], "-f");
        assert_eq!(cmd.args[n - 1], ext);
        let output = format.output_file("clip.mov").unwrap();
        assert_eq!(output, format!("clip.{}", ext));
    }
}

#[test]
fn invocation_collects_arguments_in_order() {
    let mut cmd = Invocation::new("tool");
    assert_eq!(cmd.program, "tool");
    assert!(cmd.args.is_empty());
    cmd.arg("a");
    cmd.args(&["b", "c"]);
    cmd.args(&[]);
    cmd.arg("d");
    assert_eq!(args_of(&cmd), vec!["a", "b", "c", "d"]);
    let copy = cmd.clone();
    assert_eq!(copy, cmd);
}
