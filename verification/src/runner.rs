//! The run of one transcode, as a state machine.
//!
//! A run asks for three things in turn: the version query, a look at the
//! output path, the transcode itself. The caller does what is pending and
//! reports what came of it; the runner decides what follows.

use crate::error::{unit_outcome, ErrorView, TranscodeError};
use crate::ffmpeg::{concluded, probe_invocation, probed, Ffmpeg, FfmpegView, ProcessOutcome};
use crate::format::Format;
use crate::invocation::{Invocation, InvocationView};
use crate::text::{opt_text, texts};
use vstd::prelude::*;
use vstd::string::*;

verus! {

/// What the command line asked for, before anything is checked.
#[derive(Debug, PartialEq, Eq)]
pub struct Options {
    /// The file to transcode.
    pub input: Option<String>,
    /// The selector of the format; the default format where absent.
    pub format: Option<String>,
    /// The timestamp at which to start.
    pub start: Option<String>,
    /// The timestamp at which to end.
    pub end: Option<String>,
    /// How much of the input to take.
    pub duration: Option<String>,
    /// Stream selectors, in the order given.
    pub map: Vec<String>,
}

/// What [`Options`] hold, as plain sequences.
pub struct OptionsView {
    pub input: Option<Seq<char>>,
    pub format: Option<Seq<char>>,
    pub start: Option<Seq<char>>,
    pub end: Option<Seq<char>>,
    pub duration: Option<Seq<char>>,
    pub map: Seq<Seq<char>>,
}

impl View for Options {
    type V = OptionsView;

    open spec fn view(&self) -> OptionsView {
        OptionsView {
            input: opt_text(self.input),
            format: opt_text(self.format),
            start: opt_text(self.start),
            end: opt_text(self.end),
            duration: opt_text(self.duration),
            map: texts(self.map@),
        }
    }
}

/// The resolved parameters of one run.
#[derive(Debug, PartialEq, Eq)]
pub struct Request {
    /// Trims and stream selections.
    pub ffmpeg: Ffmpeg,
    /// The preset to transcode with.
    pub format: Format,
    /// The file to read.
    pub input: String,
    /// The file to write, which must not exist yet.
    pub output: String,
}

/// What a [`Request`] holds, as plain sequences.
pub struct RequestView {
    pub ffmpeg: FfmpegView,
    pub format: Format,
    pub input: Seq<char>,
    pub output: Seq<char>,
}

impl View for Request {
    type V = RequestView;

    open spec fn view(&self) -> RequestView {
        RequestView {
            ffmpeg: self.ffmpeg@,
            format: self.format,
            input: self.input@,
            output: self.output@,
        }
    }
}

impl OptionsView {
    /// The request that these options amount to. The format is settled
    /// first, then the input, then the name of the output; the first of
    /// them to fail gives the error.
    pub open spec fn resolved(self) -> Result<RequestView, ErrorView> {
        match Format::selection(self.format) {
            Err(e) => Err(e),
            Ok(format) => match self.input {
                None => Err(ErrorView::MissingArgument),
                Some(input) => match format.output_name(input) {
                    Err(e) => Err(e),
                    Ok(output) => Ok(
                        RequestView {
                            ffmpeg: FfmpegView {
                                map: self.map,
                                start: self.start,
                                end: self.end,
                                duration: self.duration,
                            },
                            format,
                            input,
                            output,
                        },
                    ),
                },
            },
        }
    }
}

/// A resolved request or the reason there is none, as plain sequences.
pub open spec fn request_outcome(outcome: Result<Request, TranscodeError>) -> Result<
    RequestView,
    ErrorView,
> {
    match outcome {
        Ok(request) => Ok(request@),
        Err(e) => Err(e@),
    }
}

impl Options {
    /// Resolves the options into a request for the probed tool `ffmpeg`,
    /// whose trims and stream selections are replaced by those asked for.
    pub fn resolve(self, ffmpeg: Ffmpeg) -> (request: Result<Request, TranscodeError>)
        ensures
            request_outcome(request) == self@.resolved(),
    {
        let format = match Format::select(&self.format) {
            Ok(format) => format,
            Err(e) => {
                return Err(e);
            },
        };
        let mut ffmpeg = ffmpeg;
        ffmpeg.map = self.map;
        ffmpeg.start = self.start;
        ffmpeg.end = self.end;
        ffmpeg.duration = self.duration;
        let input = match self.input {
            Some(input) => input,
            None => {
                return Err(TranscodeError::MissingArgument);
            },
        };
        let output = match format.output_file(input.as_str()) {
            Ok(output) => output,
            Err(e) => {
                return Err(e);
            },
        };
        Ok(Request { ffmpeg, format, input, output })
    }
}

/// What the caller reports back to the runner.
#[derive(Clone, Copy, Debug, PartialEq, Eq)]
pub enum Event {
    /// The version query ended in this way.
    Probed(ProcessOutcome),
    /// The output path was looked at: a regular file exists there, or not.
    OutputChecked { exists: bool },
    /// The transcode ended in this way.
    Transcoded(ProcessOutcome),
}

/// What the runner asks of the caller.
#[derive(Debug, PartialEq, Eq)]
pub enum Action {
    /// Run the version query and report [`Event::Probed`].
    Probe(Invocation),
    /// Look for a regular file at this path and report [`Event::OutputChecked`].
    CheckOutput(String),
    /// Run the transcode and report [`Event::Transcoded`].
    Transcode(Invocation),
    /// Nothing more: the run has ended in this way.
    Finish(Result<(), TranscodeError>),
}

/// An [`Action`], as plain sequences.
pub enum ActionView {
    Probe(InvocationView),
    CheckOutput(Seq<char>),
    Transcode(InvocationView),
    Finish(Result<(), ErrorView>),
}

impl View for Action {
    type V = ActionView;

    open spec fn view(&self) -> ActionView {
        match self {
            Action::Probe(cmd) => ActionView::Probe(cmd@),
            Action::CheckOutput(path) => ActionView::CheckOutput(path@),
            Action::Transcode(cmd) => ActionView::Transcode(cmd@),
            Action::Finish(end) => ActionView::Finish(unit_outcome(*end)),
        }
    }
}

/// The stage that a run has reached.
#[derive(Debug, PartialEq, Eq)]
pub enum Runner {
    /// Nothing is known of the tool yet.
    Created(Options),
    /// The tool is available and the request is resolved.
    Verified(Request),
    /// The output path is free and the command line is built.
    Assembled(Invocation),
    /// The run is over.
    Executed(Result<(), TranscodeError>),
}

/// A [`Runner`], as plain sequences.
pub enum RunnerView {
    Created(OptionsView),
    Verified(RequestView),
    Assembled(InvocationView),
    Executed(Result<(), ErrorView>),
}

impl View for Runner {
    type V = RunnerView;

    open spec fn view(&self) -> RunnerView {
        match self {
            Runner::Created(options) => RunnerView::Created(options@),
            Runner::Verified(request) => RunnerView::Verified(request@),
            Runner::Assembled(cmd) => RunnerView::Assembled(cmd@),
            Runner::Executed(end) => RunnerView::Executed(unit_outcome(*end)),
        }
    }
}

impl RunnerView {
    /// What the run waits for at this stage.
    pub open spec fn pending(self) -> ActionView {
        match self {
            RunnerView::Created(_) => ActionView::Probe(probe_invocation()),
            RunnerView::Verified(request) => ActionView::CheckOutput(request.output),
            RunnerView::Assembled(cmd) => ActionView::Transcode(cmd),
            RunnerView::Executed(end) => ActionView::Finish(end),
        }
    }

    /// The stage that follows on `event`. An event that is not the answer
    /// to what is pending changes nothing.
    pub open spec fn next(self, event: Event) -> RunnerView {
        match (self, event) {
            (RunnerView::Created(options), Event::Probed(outcome)) => match probed(outcome) {
                Err(e) => RunnerView::Executed(Err(e)),
                Ok(_) => match options.resolved() {
                    Ok(request) => RunnerView::Verified(request),
                    Err(e) => RunnerView::Executed(Err(e)),
                },
            },
            (RunnerView::Verified(request), Event::OutputChecked { exists }) => if exists {
                RunnerView::Executed(Err(ErrorView::OutputCollision(request.output)))
            } else {
                RunnerView::Assembled(
                    request.ffmpeg.invocation(request.format, request.input, request.output),
                )
            },
            (RunnerView::Assembled(_), Event::Transcoded(outcome)) => RunnerView::Executed(
                concluded(outcome),
            ),
            _ => self,
        }
    }

    /// The stage reached from this one by a sequence of events.
    pub open spec fn after(self, events: Seq<Event>) -> RunnerView
        decreases events.len(),
    {
        if events.len() == 0 {
            self
        } else {
            self.after(events.drop_last()).next(events.last())
        }
    }

    /// Whether the run, at this stage, asks for the transcode to be started.
    pub open spec fn wants_transcode(self) -> bool {
        self.pending() is Transcode
    }

    /// How far the run has come: each stage counts one more than the one before it.
    pub open spec fn rank(self) -> nat {
        match self {
            RunnerView::Created(_) => 0,
            RunnerView::Verified(_) => 1,
            RunnerView::Assembled(_) => 2,
            RunnerView::Executed(_) => 3,
        }
    }
}

/// The report of a version query that succeeded.
pub open spec fn reports_tool(event: Event) -> bool {
    event matches Event::Probed(outcome) && outcome.succeeded()
}

/// The report that no file stands at the output path.
pub open spec fn reports_free_output(event: Event) -> bool {
    event == (Event::OutputChecked { exists: false })
}

/// Reporting two sequences of events one after the other is reporting
/// their concatenation.
pub proof fn runs_compose(stage: RunnerView, first: Seq<Event>, then: Seq<Event>)
    ensures
        stage.after(first + then) == stage.after(first).after(then),
    decreases then.len(),
{
    if then.len() == 0 {
        assert(first + then =~= first);
    } else {
        assert((first + then).drop_last() =~= first + then.drop_last());
        runs_compose(stage, first, then.drop_last());
    }
}

/// No sequence of events takes a run back to an earlier stage.
pub proof fn stages_only_advance(stage: RunnerView, events: Seq<Event>)
    ensures
        stage.after(events).rank() >= stage.rank(),
    decreases events.len(),
{
    if events.len() > 0 {
        stages_only_advance(stage, events.drop_last());
    }
}

/// A run that is over stays as it ended, whatever is reported to it.
pub proof fn executed_is_final(end: Result<(), ErrorView>, events: Seq<Event>)
    ensures
        RunnerView::Executed(end).after(events) == RunnerView::Executed(end),
    decreases events.len(),
{
    if events.len() > 0 {
        executed_is_final(end, events.drop_last());
    }
}

/// The stage after the first `j` events bounds the rank of every earlier one,
/// and the stage after any later prefix is reached from it.
proof fn prefix_runs(stage: RunnerView, events: Seq<Event>, i: int, j: int)
    requires
        0 <= i <= j <= events.len(),
    ensures
        stage.after(events.take(j)) == stage.after(events.take(i)).after(events.subrange(i, j)),
        stage.after(events.take(i)).rank() <= stage.after(events.take(j)).rank(),
{
    assert(events.take(j) =~= events.take(i) + events.subrange(i, j));
    runs_compose(stage, events.take(i), events.subrange(i, j));
    stages_only_advance(stage.after(events.take(i)), events.subrange(i, j));
}

/// The stage after `j + 1` events is the one that follows the stage after
/// `j` events on the event at `j`.
proof fn prefix_step(stage: RunnerView, events: Seq<Event>, j: int)
    requires
        0 <= j < events.len(),
    ensures
        stage.after(events.take(j + 1)) == stage.after(events.take(j)).next(events[j]),
{
    assert(events.take(j + 1).drop_last() =~= events.take(j));
}

/// If the version query does not succeed, the run ends with
/// `ToolUnavailable` and at no time asks for the transcode: not before the
/// report, not on it, and not on anything reported afterwards. Up to the
/// report it asks for the version query alone, so no file is looked at
/// either.
pub proof fn failed_probe_prevents_transcode(
    options: OptionsView,
    events: Seq<Event>,
    k: int,
    outcome: ProcessOutcome,
)
    requires
        0 <= k < events.len(),
        RunnerView::Created(options).after(events.take(k)) is Created,
        events[k] == Event::Probed(outcome),
        !outcome.succeeded(),
    ensures
        forall|j: int|
            0 <= j <= events.len() ==> !(#[trigger] RunnerView::Created(options).after(
                events.take(j),
            )).wants_transcode(),
        forall|j: int|
            0 <= j <= k ==> (#[trigger] RunnerView::Created(options).after(
                events.take(j),
            )).pending() is Probe,
        forall|j: int|
            k < j <= events.len() ==> #[trigger] RunnerView::Created(options).after(events.take(j))
                == RunnerView::Executed(Err(ErrorView::ToolUnavailable)),
{
    let start = RunnerView::Created(options);
    let end = RunnerView::Executed(Err(ErrorView::ToolUnavailable));
    prefix_step(start, events, k);
    assert(start.after(events.take(k + 1)) == end);
    assert forall|j: int| 0 <= j <= events.len() implies {
        &&& !(#[trigger] start.after(events.take(j))).wants_transcode()
        &&& j <= k ==> start.after(events.take(j)).pending() is Probe
        &&& k < j ==> start.after(events.take(j)) == end
    } by {
        if j <= k {
            prefix_runs(start, events, j, k);
        } else {
            prefix_runs(start, events, k + 1, j);
            executed_is_final(Err(ErrorView::ToolUnavailable), events.subrange(k + 1, j));
        }
    }
}

/// If a file is found at the output path, the run ends with
/// `OutputCollision`, naming that path, and at no time asks for the
/// transcode: not before the report, not on it, and not on anything
/// reported afterwards.
pub proof fn collision_prevents_transcode(
    options: OptionsView,
    events: Seq<Event>,
    k: int,
    request: RequestView,
)
    requires
        0 <= k < events.len(),
        RunnerView::Created(options).after(events.take(k)) == RunnerView::Verified(request),
        events[k] == (Event::OutputChecked { exists: true }),
    ensures
        forall|j: int|
            0 <= j <= events.len() ==> !(#[trigger] RunnerView::Created(options).after(
                events.take(j),
            )).wants_transcode(),
        forall|j: int|
            k < j <= events.len() ==> #[trigger] RunnerView::Created(options).after(events.take(j))
                == RunnerView::Executed(Err(ErrorView::OutputCollision(request.output))),
{
    let start = RunnerView::Created(options);
    let end = RunnerView::Executed(Err(ErrorView::OutputCollision(request.output)));
    prefix_step(start, events, k);
    assert(start.after(events.take(k + 1)) == end);
    assert forall|j: int| 0 <= j <= events.len() implies {
        &&& !(#[trigger] start.after(events.take(j))).wants_transcode()
        &&& k < j ==> start.after(events.take(j)) == end
    } by {
        if j <= k {
            prefix_runs(start, events, j, k);
        } else {
            prefix_runs(start, events, k + 1, j);
            executed_is_final(
                Err(ErrorView::OutputCollision(request.output)),
                events.subrange(k + 1, j),
            );
        }
    }
}

/// A run whose options resolve and that is told, in turn, that the version
/// query succeeded, that the output path is free and that the transcode
/// exited with zero, asks for exactly the transcode of its request and ends
/// in success.
pub proof fn clean_run_succeeds(options: OptionsView, request: RequestView)
    requires
        options.resolved() == Ok::<RequestView, ErrorView>(request),
    ensures
        ({
            let start = RunnerView::Created(options);
            let told = seq![
                Event::Probed(ProcessOutcome::Exited(0)),
                Event::OutputChecked { exists: false },
                Event::Transcoded(ProcessOutcome::Exited(0)),
            ];
            &&& start.after(told.take(1)).pending() == ActionView::CheckOutput(request.output)
            &&& start.after(told.take(2)).pending() == ActionView::Transcode(
                request.ffmpeg.invocation(request.format, request.input, request.output),
            )
            &&& start.after(told) == RunnerView::Executed(Ok(()))
        }),
{
    let start = RunnerView::Created(options);
    let told = seq![
        Event::Probed(ProcessOutcome::Exited(0)),
        Event::OutputChecked { exists: false },
        Event::Transcoded(ProcessOutcome::Exited(0)),
    ];
    assert(told.take(0) =~= Seq::<Event>::empty());
    assert(start.after(told.take(0)) == start);
    prefix_step(start, told, 0);
    prefix_step(start, told, 1);
    prefix_step(start, told, 2);
    assert(told.take(3) =~= told);
}

/// A run that has verified the tool was told of a version query that succeeded.
proof fn verified_follows_probe(options: OptionsView, events: Seq<Event>)
    requires
        RunnerView::Created(options).after(events) is Verified,
    ensures
        exists|i: int| 0 <= i < events.len() && reports_tool(#[trigger] events[i]),
    decreases events.len(),
{
    let start = RunnerView::Created(options);
    if events.len() > 0 {
        let before = start.after(events.drop_last());
        if before is Verified {
            verified_follows_probe(options, events.drop_last());
            let i = choose|i: int|
                0 <= i < events.drop_last().len() && reports_tool(#[trigger] events.drop_last()[i]);
            assert(reports_tool(events[i]));
        } else {
            assert(before is Created);
            assert(reports_tool(events[events.len() - 1]));
        }
    }
}

/// A run asks for the transcode only after it was told, in this order, that
/// the version query succeeded and that no file stands at the output path.
pub proof fn transcode_follows_both_checks(options: OptionsView, events: Seq<Event>)
    requires
        RunnerView::Created(options).after(events).wants_transcode(),
    ensures
        exists|i: int, j: int|
            0 <= i < j < events.len() && reports_tool(#[trigger] events[i])
                && reports_free_output(#[trigger] events[j]),
    decreases events.len(),
{
    let start = RunnerView::Created(options);
    if events.len() > 0 {
        let earlier = events.drop_last();
        let before = start.after(earlier);
        if before is Assembled {
            transcode_follows_both_checks(options, earlier);
            let (i, j) = choose|i: int, j: int|
                0 <= i < j < earlier.len() && reports_tool(#[trigger] earlier[i])
                    && reports_free_output(#[trigger] earlier[j]);
            assert(reports_tool(events[i]) && reports_free_output(events[j]));
        } else {
            assert(before is Verified);
            verified_follows_probe(options, earlier);
            let i = choose|i: int| 0 <= i < earlier.len() && reports_tool(#[trigger] earlier[i]);
            let j = events.len() - 1;
            assert(reports_tool(events[i]) && reports_free_output(events[j]));
        }
    }
}

impl Runner {
    /// A run of `options` that has not started yet.
    pub fn new(options: Options) -> (runner: Runner)
        ensures
            runner@ == RunnerView::Created(options@),
    {
        Runner::Created(options)
    }

    /// What the caller has to do next.
    pub fn pending(&self) -> (action: Action)
        ensures
            action@ == self@.pending(),
    {
        match self {
            Runner::Created(_) => Action::Probe(Ffmpeg::probe()),
            Runner::Verified(request) => Action::CheckOutput(request.output.clone()),
            Runner::Assembled(cmd) => Action::Transcode(cmd.clone()),
            Runner::Executed(end) => Action::Finish(
                match end {
                    Ok(()) => Ok(()),
                    Err(e) => Err(e.clone()),
                },
            ),
        }
    }

    /// Takes the caller's report and moves to the stage that follows.
    pub fn step(self, event: Event) -> (next: Runner)
        ensures
            next@ == self@.next(event),
    {
        match self {
            Runner::Created(options) => match event {
                Event::Probed(outcome) => match Ffmpeg::new(outcome) {
                    Err(e) => Runner::Executed(Err(e)),
                    Ok(ffmpeg) => match options.resolve(ffmpeg) {
                        Ok(request) => Runner::Verified(request),
                        Err(e) => Runner::Executed(Err(e)),
                    },
                },
                _ => Runner::Created(options),
            },
            Runner::Verified(request) => match event {
                Event::OutputChecked { exists } => {
                    if exists {
                        Runner::Executed(Err(TranscodeError::OutputCollision(request.output)))
                    } else {
                        Runner::Assembled(
                            request.ffmpeg.transcode(
                                request.format,
                                request.input.as_str(),
                                request.output.as_str(),
                            ),
                        )
                    }
                },
                _ => Runner::Verified(request),
            },
            Runner::Assembled(cmd) => match event {
                Event::Transcoded(outcome) => Runner::Executed(Ffmpeg::conclude(outcome)),
                _ => Runner::Assembled(cmd),
            },
            Runner::Executed(end) => Runner::Executed(end),
        }
    }
}

} // verus!
