//! The catalog of presets: which flags each one hands to `ffmpeg`, and how
//! each one names its output.

use crate::error::{text_outcome, ErrorView, TranscodeError};
use crate::invocation::Invocation;
use crate::path::{
    extension, holds_separator, is_path_separator, path_extension, path_with_extension,
    separator_free, set_extension,
};
use crate::text::{opt_text, same_text, strs};
use vstd::prelude::*;
use vstd::string::*;

verus! {

/// The format to transcode to.
#[derive(Clone, Copy, Debug, PartialEq, Eq, Structural)]
pub enum Format {
    /// Optimized for streaming sites: H.264 in an MP4 container, decoded and
    /// encoded on the graphics card.
    YouTube,
    /// High-quality animated GIF.
    Gif,
    /// The input's own streams, repackaged without re-encoding.
    Copy,
}

/// What a lookup yields, with the offending token as a plain sequence.
pub open spec fn format_outcome(outcome: Result<Format, TranscodeError>) -> Result<
    Format,
    ErrorView,
> {
    match outcome {
        Ok(format) => Ok(format),
        Err(e) => Err(e@),
    }
}

/// The selectors that the catalog knows.
pub open spec fn supported(token: Seq<char>) -> bool {
    token == "youtube"@ || token == "YouTube"@ || token == "gif"@ || token == "Gif"@ || token
        == "copy"@ || token == "Copy"@
}

impl Format {
    /// The preset that a selector names. Each preset answers to its name in
    /// lower case and with its capitals; nothing else is recognized.
    pub open spec fn catalog(token: Seq<char>) -> Option<Format> {
        if token == "youtube"@ || token == "YouTube"@ {
            Some(Format::YouTube)
        } else if token == "gif"@ || token == "Gif"@ {
            Some(Format::Gif)
        } else if token == "copy"@ || token == "Copy"@ {
            Some(Format::Copy)
        } else {
            None
        }
    }

    /// The preset for an optional selector: the one it names, or
    /// [`Format::YouTube`] where none was given.
    pub open spec fn selection(token: Option<Seq<char>>) -> Result<Format, ErrorView> {
        match token {
            None => Ok(Format::YouTube),
            Some(t) => match Format::catalog(t) {
                Some(format) => Ok(format),
                None => Err(ErrorView::UnknownFormat(t)),
            },
        }
    }

    /// The flags that must stand before the input file.
    pub open spec fn pre_input_flags(self) -> Seq<Seq<char>> {
        match self {
            Format::YouTube => strs(seq!["-y", "-hwaccel", "cuvid", "-c:v", "h264_cuvid"]),
            _ => Seq::empty(),
        }
    }

    /// The flags that stand between the input side and the output file.
    pub open spec fn post_input_flags(self) -> Seq<Seq<char>> {
        match self {
            Format::YouTube => strs(
                seq![
                    "-c:v",
                    "h264_nvenc",
                    "-coder",
                    "1",
                    "-preset",
                    "llhq",
                    "-rc:v",
                    "vbr_minqp",
                    "-qmin:v",
                    "21",
                    "-qmax:v",
                    "23",
                    "-b:v",
                    "5000k",
                    "-maxrate:v",
                    "8000k",
                    "-profile:v",
                    "high",
                    "-bf",
                    "2",
                    "-c:a",
                    "aac",
                    "-profile:a",
                    "aac_low",
                    "-b:a",
                    "384k",
                    "-f",
                    "mp4",
                ],
            ),
            Format::Gif => strs(
                seq![
                    "-filter_complex",
                    "[0:v] fps=12,scale=280:-1,split [a][b];[a] palettegen [p];[b][p] paletteuse",
                    "-f",
                    "gif",
                ],
            ),
            Format::Copy => strs(seq!["-c:v", "copy", "-c:a", "copy"]),
        }
    }

    /// The extension that the preset gives every output, where it has one of
    /// its own. A copy keeps the input's.
    pub open spec fn container(self) -> Option<Seq<char>> {
        match self {
            Format::YouTube => Some("mp4"@),
            Format::Gif => Some("gif"@),
            Format::Copy => None,
        }
    }

    /// The extension of the output for `input`. A preset with a container of
    /// its own gives that. A copy keeps the extension `E` of the input behind
    /// a `copy.`, and asks for an input whose `E` exists and holds no path
    /// separator.
    pub open spec fn output_extension(self, input: Seq<char>) -> Result<Seq<char>, ErrorView> {
        match self.container() {
            Some(ext) => Ok(ext),
            None => match path_extension(input) {
                Some(ext) if separator_free(ext) => Ok("copy."@ + ext),
                _ => Err(ErrorView::MissingExtension(input)),
            },
        }
    }

    /// The output path for `input`: the input with its extension replaced by
    /// [`Format::output_extension`]. A path that comes out empty names no
    /// file, and counts as no input at all.
    pub open spec fn output_name(self, input: Seq<char>) -> Result<Seq<char>, ErrorView> {
        match self.output_extension(input) {
            Err(e) => Err(e),
            Ok(ext) => if path_with_extension(input, ext).len() == 0 {
                Err(ErrorView::MissingArgument)
            } else {
                Ok(path_with_extension(input, ext))
            },
        }
    }

    /// Looks a selector up in the catalog. Fails, naming the selector, where
    /// it is none of the recognized spellings.
    pub fn lookup(token: &str) -> (found: Result<Format, TranscodeError>)
        ensures
            format_outcome(found) == Format::selection(Some(token@)),
    {
        if same_text(token, "youtube") || same_text(token, "YouTube") {
            Ok(Format::YouTube)
        } else if same_text(token, "gif") || same_text(token, "Gif") {
            Ok(Format::Gif)
        } else if same_text(token, "copy") || same_text(token, "Copy") {
            Ok(Format::Copy)
        } else {
            Err(TranscodeError::UnknownFormat(String::from_str(token)))
        }
    }

    /// Chooses the preset for an optional selector: the default where none
    /// was given, else what [`Format::lookup`] finds.
    pub fn select(token: &Option<String>) -> (chosen: Result<Format, TranscodeError>)
        ensures
            format_outcome(chosen) == Format::selection(opt_text(*token)),
    {
        match token {
            None => Ok(Format::YouTube),
            Some(t) => Format::lookup(t.as_str()),
        }
    }

    /// Construct an output file based on the input: the path that
    /// [`Format::output_name`] gives, or the reason there is none.
    pub fn output_file(&self, input: &str) -> (output: Result<String, TranscodeError>)
        ensures
            text_outcome(output) == self.output_name(input@),
            output matches Ok(name) ==> name@.len() > 0,
    {
        let ext = match self {
            Format::YouTube => {
                proof {
                    reveal_strlit("mp4");
                }
                String::from_str("mp4")
            },
            Format::Gif => {
                proof {
                    reveal_strlit("gif");
                }
                String::from_str("gif")
            },
            Format::Copy => match extension(input) {
                Some(e) => {
                    proof {
                        reveal_strlit("copy.");
                    }
                    String::from_str("copy.").concat(e.as_str())
                },
                None => {
                    return Err(TranscodeError::MissingExtension(String::from_str(input)));
                },
            },
        };
        // A preset's own container holds no separator; a copied extension may.
        if holds_separator(ext.as_str()) {
            proof {
                let i = choose|i: int| 0 <= i < ext@.len() && is_path_separator(#[trigger] ext@[i]);
                if *self == Format::Copy {
                    let e = path_extension(input@).unwrap();
                    assert(ext@[i] == e[i - 5]);
                }
            }
            return Err(TranscodeError::MissingExtension(String::from_str(input)));
        }
        proof {
            if *self == Format::Copy {
                let e = path_extension(input@).unwrap();
                assert forall|k: int| 0 <= k < e.len() implies !is_path_separator(
                    #[trigger] e[k],
                ) by {
                    assert(e[k] == ext@[k + 5]);
                }
            }
        }
        let output = set_extension(input, ext.as_str());
        if output.as_str().is_empty() {
            return Err(TranscodeError::MissingArgument);
        }
        Ok(output)
    }

    /// Adds the preset's flags for the input side to `cmd`.
    pub fn input_args(&self, cmd: &mut Invocation)
        ensures
            final(cmd)@.program == old(cmd)@.program,
            final(cmd)@.args == old(cmd)@.args + self.pre_input_flags(),
    {
        match self {
            Format::YouTube => {
                cmd.args(&["-y", "-hwaccel", "cuvid", "-c:v", "h264_cuvid"]);
            },
            _ => {},
        }
    }

    /// Adds the preset's flags for the output side to `cmd`.
    pub fn output_args(&self, cmd: &mut Invocation)
        ensures
            final(cmd)@.program == old(cmd)@.program,
            final(cmd)@.args == old(cmd)@.args + self.post_input_flags(),
    {
        match self {
            Format::YouTube => {
                cmd.args(
                    &[
                        "-c:v",
                        "h264_nvenc",
                        "-coder",
                        "1",
                        "-preset",
                        "llhq",
                        "-rc:v",
                        "vbr_minqp",
                        "-qmin:v",
                        "21",
                        "-qmax:v",
                        "23",
                        "-b:v",
                        "5000k",
                        "-maxrate:v",
                        "8000k",
                        "-profile:v",
                        "high",
                        "-bf",
                        "2",
                        "-c:a",
                        "aac",
                        "-profile:a",
                        "aac_low",
                        "-b:a",
                        "384k",
                        "-f",
                        "mp4",
                    ],
                );
            },
            Format::Gif => {
                cmd.args(
                    &[
                        "-filter_complex",
                        "[0:v] fps=12,scale=280:-1,split [a][b];[a] palettegen [p];[b][p] paletteuse",
                        "-f",
                        "gif",
                    ],
                );
            },
            Format::Copy => {
                cmd.args(&["-c:v", "copy", "-c:a", "copy"]);
            },
        }
    }
}

/// The catalog answers every supported selector with a preset and no other
/// selector with any: a lookup succeeds exactly on the supported selectors,
/// and fails naming the selector on the rest.
pub proof fn catalog_is_total_on_supported(token: Seq<char>)
    ensures
        supported(token) <==> Format::catalog(token) is Some,
        supported(token) <==> Format::selection(Some(token)) is Ok,
        !supported(token) ==> Format::selection(Some(token)) == Err::<Format, ErrorView>(
            ErrorView::UnknownFormat(token),
        ),
{
}

/// A preset with a container of its own ends its output flags by forcing
/// that container, so that the muxer and the name of the output agree.
pub proof fn container_is_forced(format: Format)
    requires
        format.container() is Some,
    ensures
        format.post_input_flags().len() >= 2,
        format.post_input_flags()[format.post_input_flags().len() - 2] == "-f"@,
        format.post_input_flags().last() == format.container().unwrap(),
{
}

} // verus!
