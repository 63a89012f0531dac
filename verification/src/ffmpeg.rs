//! The `ffmpeg` command line: the probe that shows the tool to be usable, and
//! the assembly of the arguments for one transcode.

use crate::error::{unit_outcome, ErrorView, TranscodeError};
use crate::format::Format;
use crate::invocation::{Invocation, InvocationView};
use crate::text::{copy_opt, copy_texts, opt_text, texts};
use vstd::prelude::*;
use vstd::string::*;

verus! {

/// How an attempt to run a program ended, as reported by whoever ran it.
#[derive(Clone, Copy, Debug, PartialEq, Eq)]
pub enum ProcessOutcome {
    /// The program could not be started.
    NotStarted,
    /// The program ran to its end and left this exit code.
    Exited(i32),
    /// The program was started and ended without an exit code.
    Interrupted,
}

impl ProcessOutcome {
    /// A run counts as a success when it ended with exit code zero.
    pub open spec fn succeeded(self) -> bool {
        self == ProcessOutcome::Exited(0)
    }

    /// Whether the run ended with exit code zero.
    pub fn success(&self) -> (ok: bool)
        ensures
            ok == self.succeeded(),
    {
        match self {
            ProcessOutcome::Exited(code) => *code == 0,
            _ => false,
        }
    }
}

/// ffmpeg abstraction: the trims and stream selections of one transcode.
#[derive(Debug, PartialEq, Eq)]
pub struct Ffmpeg {
    /// Stream selectors, each handed to `-map`, in this order.
    pub map: Vec<String>,
    /// The timestamp at which to start.
    pub start: Option<String>,
    /// The timestamp at which to end.
    pub end: Option<String>,
    /// How much of the input to take.
    pub duration: Option<String>,
}

/// What an [`Ffmpeg`] holds, as plain sequences.
pub struct FfmpegView {
    pub map: Seq<Seq<char>>,
    pub start: Option<Seq<char>>,
    pub end: Option<Seq<char>>,
    pub duration: Option<Seq<char>>,
}

impl View for Ffmpeg {
    type V = FfmpegView;

    open spec fn view(&self) -> FfmpegView {
        FfmpegView {
            map: texts(self.map@),
            start: opt_text(self.start),
            end: opt_text(self.end),
            duration: opt_text(self.duration),
        }
    }
}

/// The flag and value of one optional trim: both where the value is set,
/// nothing where it is not.
pub open spec fn trim_flags(flag: Seq<char>, value: Option<Seq<char>>) -> Seq<Seq<char>> {
    match value {
        Some(v) => seq![flag, v],
        None => Seq::empty(),
    }
}

/// One `-map` and its selector for each entry of `maps`, in the order of `maps`.
pub open spec fn map_flags(maps: Seq<Seq<char>>) -> Seq<Seq<char>> {
    Seq::new(
        2 * maps.len(),
        |i: int|
            if i % 2 == 0 {
                "-map"@
            } else {
                maps[i / 2]
            },
    )
}

/// The command line of the version query.
pub open spec fn probe_invocation() -> InvocationView {
    InvocationView { program: "ffmpeg"@, args: seq!["-version"@] }
}

impl FfmpegView {
    /// Settings without trims and without stream selections.
    pub open spec fn empty() -> FfmpegView {
        FfmpegView { map: Seq::empty(), start: None, end: None, duration: None }
    }

    /// The same stream selections without any trim.
    pub open spec fn untrimmed(self) -> FfmpegView {
        FfmpegView { map: self.map, start: None, end: None, duration: None }
    }

    /// The trim arguments: start, end and duration, in this order, each
    /// present exactly when it is set.
    pub open spec fn trims(self) -> Seq<Seq<char>> {
        trim_flags("-ss"@, self.start) + trim_flags("-to"@, self.end) + trim_flags(
            "-t"@,
            self.duration,
        )
    }

    /// The full argument list of one transcode: trims, the preset's input
    /// flags, the input file, the stream selections, the preset's output
    /// flags, and the output file last.
    pub open spec fn arguments(self, format: Format, input: Seq<char>, output: Seq<char>) -> Seq<
        Seq<char>,
    > {
        self.trims() + format.pre_input_flags() + seq!["-i"@, input] + map_flags(self.map)
            + format.post_input_flags() + seq![output]
    }

    /// The command line of one transcode.
    pub open spec fn invocation(
        self,
        format: Format,
        input: Seq<char>,
        output: Seq<char>,
    ) -> InvocationView {
        InvocationView { program: "ffmpeg"@, args: self.arguments(format, input, output) }
    }
}

/// What the probe's outcome makes of the tool: default settings to fill in
/// where the probe succeeded, no tool where it did not.
pub open spec fn probed(outcome: ProcessOutcome) -> Result<FfmpegView, ErrorView> {
    if outcome.succeeded() {
        Ok(FfmpegView::empty())
    } else {
        Err(ErrorView::ToolUnavailable)
    }
}

/// What the outcome of the transcode makes of the run. A tool that could not
/// be started is as unavailable as one that fails its probe; one that ran
/// and did not end with exit code zero has failed.
pub open spec fn concluded(outcome: ProcessOutcome) -> Result<(), ErrorView> {
    match outcome {
        ProcessOutcome::NotStarted => Err(ErrorView::ToolUnavailable),
        ProcessOutcome::Exited(code) if code == 0 => Ok(()),
        _ => Err(ErrorView::ProcessFailure),
    }
}

/// The settings of a freshly probed tool, as plain sequences.
pub open spec fn ffmpeg_outcome(outcome: Result<Ffmpeg, TranscodeError>) -> Result<
    FfmpegView,
    ErrorView,
> {
    match outcome {
        Ok(ffmpeg) => Ok(ffmpeg@),
        Err(e) => Err(e@),
    }
}

/// Every stream selection appears as one `-map` followed by its selector:
/// as many pairs as there are selections, in the order of the selections.
pub proof fn map_flags_are_pairs(maps: Seq<Seq<char>>)
    ensures
        map_flags(maps).len() == 2 * maps.len(),
        forall|i: int|
            0 <= i < maps.len() ==> map_flags(maps)[2 * i] == "-map"@ && #[trigger] map_flags(
                maps,
            )[2 * i + 1] == maps[i],
{
}

/// The trims stand in front of the argument list and touch nothing behind
/// them: whichever of start, end and duration are set, what follows their
/// pairs is what settings with the same stream selections and no trim at all
/// would give.
pub proof fn trims_shift_nothing(
    ffmpeg: FfmpegView,
    format: Format,
    input: Seq<char>,
    output: Seq<char>,
)
    ensures
        ffmpeg.arguments(format, input, output) == ffmpeg.trims() + ffmpeg.untrimmed().arguments(
            format,
            input,
            output,
        ),
        ffmpeg.untrimmed().trims() == Seq::<Seq<char>>::empty(),
{
    let rest = ffmpeg.untrimmed().arguments(format, input, output);
    assert(ffmpeg.untrimmed().trims() =~= Seq::<Seq<char>>::empty());
    assert(ffmpeg.arguments(format, input, output) =~= ffmpeg.trims() + rest);
}

/// The output file is the last argument, and the input file follows `-i`
/// right behind the trims and the preset's input flags.
pub proof fn input_and_output_have_fixed_places(
    ffmpeg: FfmpegView,
    format: Format,
    input: Seq<char>,
    output: Seq<char>,
)
    ensures
        ffmpeg.arguments(format, input, output).last() == output,
        ({
            let at = (ffmpeg.trims().len() + format.pre_input_flags().len()) as int;
            &&& at + 1 < ffmpeg.arguments(format, input, output).len()
            &&& ffmpeg.arguments(format, input, output)[at] == "-i"@
            &&& ffmpeg.arguments(format, input, output)[at + 1] == input
        }),
{
}

/// Leaving one trim out removes its flag and value and nothing else: the
/// arguments before the pair and those behind it stay as they are and in
/// their order. A trim that is set takes two places, one that is not set
/// takes none.
pub proof fn omitting_a_trim_removes_its_pair(
    ffmpeg: FfmpegView,
    format: Format,
    input: Seq<char>,
    output: Seq<char>,
)
    ensures
        ({
            let all = ffmpeg.arguments(format, input, output);
            let start = trim_flags("-ss"@, ffmpeg.start);
            let end = trim_flags("-to"@, ffmpeg.end);
            let duration = trim_flags("-t"@, ffmpeg.duration);
            let s = start.len() as int;
            let e = s + end.len();
            let d = e + duration.len();
            &&& start.len() == if ffmpeg.start is Some { 2nat } else { 0nat }
            &&& end.len() == if ffmpeg.end is Some { 2nat } else { 0nat }
            &&& duration.len() == if ffmpeg.duration is Some { 2nat } else { 0nat }
            &&& d < all.len()
            &&& all.subrange(0, s) == start
            &&& all.subrange(s, e) == end
            &&& all.subrange(e, d) == duration
            &&& (FfmpegView { start: None, ..ffmpeg }).arguments(format, input, output)
                == all.subrange(s, all.len() as int)
            &&& (FfmpegView { end: None, ..ffmpeg }).arguments(format, input, output)
                == all.subrange(0, s) + all.subrange(e, all.len() as int)
            &&& (FfmpegView { duration: None, ..ffmpeg }).arguments(format, input, output)
                == all.subrange(0, e) + all.subrange(d, all.len() as int)
        }),
{
    let all = ffmpeg.arguments(format, input, output);
    let start = trim_flags("-ss"@, ffmpeg.start);
    let end = trim_flags("-to"@, ffmpeg.end);
    let duration = trim_flags("-t"@, ffmpeg.duration);
    let rest = ffmpeg.untrimmed().arguments(format, input, output);
    let s = start.len() as int;
    let e = s + end.len();
    let d = e + duration.len();
    trims_shift_nothing(ffmpeg, format, input, output);
    assert(ffmpeg.untrimmed().trims() + rest =~= rest);
    assert(all =~= start + end + duration + rest);
    assert(all.subrange(0, s) =~= start);
    assert(all.subrange(s, e) =~= end);
    assert(all.subrange(e, d) =~= duration);
    assert(all.subrange(d, all.len() as int) =~= rest);
    let no_start = FfmpegView { start: None, ..ffmpeg };
    trims_shift_nothing(no_start, format, input, output);
    assert(no_start.untrimmed() == ffmpeg.untrimmed());
    assert(no_start.trims() =~= end + duration);
    assert(no_start.arguments(format, input, output) =~= all.subrange(s, all.len() as int));
    let no_end = FfmpegView { end: None, ..ffmpeg };
    trims_shift_nothing(no_end, format, input, output);
    assert(no_end.untrimmed() == ffmpeg.untrimmed());
    assert(no_end.trims() =~= start + duration);
    assert(no_end.arguments(format, input, output) =~= all.subrange(0, s) + all.subrange(
        e,
        all.len() as int,
    ));
    let no_duration = FfmpegView { duration: None, ..ffmpeg };
    trims_shift_nothing(no_duration, format, input, output);
    assert(no_duration.untrimmed() == ffmpeg.untrimmed());
    assert(no_duration.trims() =~= start + end);
    assert(no_duration.arguments(format, input, output) =~= all.subrange(0, e) + all.subrange(
        d,
        all.len() as int,
    ));
}

impl Default for Ffmpeg {
    fn default() -> (ffmpeg: Ffmpeg)
        ensures
            ffmpeg@ == FfmpegView::empty(),
    {
        let ffmpeg = Ffmpeg { map: Vec::new(), start: None, end: None, duration: None };
        assert(texts(ffmpeg.map@) =~= Seq::<Seq<char>>::empty());
        ffmpeg
    }
}

impl Clone for Ffmpeg {
    fn clone(&self) -> (copy: Self)
        ensures
            copy@ == self@,
    {
        Ffmpeg {
            map: copy_texts(&self.map),
            start: copy_opt(&self.start),
            end: copy_opt(&self.end),
            duration: copy_opt(&self.duration),
        }
    }
}

impl Ffmpeg {
    /// The version query whose outcome [`Ffmpeg::new`] judges.
    pub fn probe() -> (cmd: Invocation)
        ensures
            cmd@ == probe_invocation(),
    {
        let mut cmd = Invocation::new("ffmpeg");
        cmd.arg("-version");
        assert(cmd@.args =~= seq!["-version"@]);
        cmd
    }

    /// Create a new ffmpeg abstraction from the outcome of the version
    /// query: only a tool that answered it with success is workable.
    pub fn new(probe: ProcessOutcome) -> (ffmpeg: Result<Ffmpeg, TranscodeError>)
        ensures
            ffmpeg_outcome(ffmpeg) == probed(probe),
    {
        if !probe.success() {
            return Err(TranscodeError::ToolUnavailable);
        }
        Ok(Ffmpeg::default())
    }

    /// Adds `flag` and the value of one trim to `cmd`, where the value is set.
    fn trim(cmd: &mut Invocation, flag: &str, value: &Option<String>)
        ensures
            final(cmd)@.program == old(cmd)@.program,
            final(cmd)@.args == old(cmd)@.args + trim_flags(flag@, opt_text(*value)),
    {
        if let Some(v) = value {
            cmd.arg(flag);
            cmd.arg(v.as_str());
            assert(cmd@.args =~= old(cmd)@.args + seq![flag@, v@]);
        }
    }

    /// Adds one `-map` and selector to `cmd` for each entry of the stream map.
    fn maps(&self, cmd: &mut Invocation)
        ensures
            final(cmd)@.program == old(cmd)@.program,
            final(cmd)@.args == old(cmd)@.args + map_flags(self@.map),
    {
        let mut i: usize = 0;
        while i < self.map.len()
            invariant
                i <= self.map.len(),
                cmd@.program == old(cmd)@.program,
                cmd@.args == old(cmd)@.args + map_flags(texts(self.map@.take(i as int))),
            decreases self.map.len() - i,
        {
            cmd.arg("-map");
            cmd.arg(self.map[i].as_str());
            proof {
                let done = texts(self.map@.take(i as int));
                let next = texts(self.map@.take(i + 1));
                assert(next =~= done.push(self.map@[i as int]@));
                assert(map_flags(next) =~= map_flags(done) + seq!["-map"@, self.map@[i as int]@]);
            }
            i += 1;
        }
        assert(self.map@.take(i as int) == self.map@);
    }

    /// Assembles the command line that transcodes `input` to `output` in the
    /// given format. The order of the arguments is fixed; see
    /// [`FfmpegView::arguments`].
    pub fn transcode(&self, format: Format, input: &str, output: &str) -> (cmd: Invocation)
        ensures
            cmd@ == self@.invocation(format, input@, output@),
    {
        let mut cmd = Invocation::new("ffmpeg");
        Ffmpeg::trim(&mut cmd, "-ss", &self.start);
        Ffmpeg::trim(&mut cmd, "-to", &self.end);
        Ffmpeg::trim(&mut cmd, "-t", &self.duration);
        format.input_args(&mut cmd);
        cmd.arg("-i");
        cmd.arg(input);
        self.maps(&mut cmd);
        format.output_args(&mut cmd);
        cmd.arg(output);
        assert(cmd@.args =~= self@.arguments(format, input@, output@));
        cmd
    }

    /// Judges the outcome of the transcode.
    pub fn conclude(outcome: ProcessOutcome) -> (end: Result<(), TranscodeError>)
        ensures
            unit_outcome(end) == concluded(outcome),
    {
        match outcome {
            ProcessOutcome::NotStarted => Err(TranscodeError::ToolUnavailable),
            ProcessOutcome::Exited(code) => {
                if code == 0 {
                    Ok(())
                } else {
                    Err(TranscodeError::ProcessFailure)
                }
            },
            ProcessOutcome::Interrupted => Err(TranscodeError::ProcessFailure),
        }
    }
}

} // verus!
