use crate::text::{debug_quoted, push_debug_quoted};
use vstd::prelude::*;

verus! {

/// The summarizer's subcommands.
pub enum Commands {
    /// Generate a response using Ollama: send the input file's text to
    /// `model` and append the reply to the output file.
    Ollama { model: String, input: String, output: String },
}

/// The summarizer's command line.
pub struct Args {
    pub debug: bool,
    /// Write the reply piece by piece as it streams in.
    pub stream: bool,
    pub command: Commands,
}

/// The model used when none is given.
pub fn default_model() -> (r: &'static str)
    ensures
        r@ == "llama2"@,
{
    "llama2"
}

/// Why a summarizer run failed.
#[derive(Debug)]
pub enum SummarizeError {
    /// The output file exists already; it is never overwritten.
    OutputExists(String),
    /// The input file could not be read.
    InputUnreadable { path: String, message: String },
    /// Another outside call failed with this message.
    Outside(String),
    /// An event arrived that the current phase does not expect.
    UnexpectedEvent,
}

/// What the run asks the caller to do next.
#[derive(Debug)]
pub enum RunAction {
    /// Find out whether this path exists; send `OutputExists` (or `CheckFailed`).
    CheckOutputExists(String),
    /// Read this file as text; send `InputRead`.
    ReadInput(String),
    /// Create the directories above this path; send `Done`.
    PrepareOutputDir(String),
    /// Open this file for appending, creating it if needed; send `Done`.
    OpenOutput(String),
    /// Send `content` as a user message to `model`; with `stream`, then send
    /// each piece of the reply as `Reply` and `StreamEnded` at the end,
    /// else send the whole reply as `Reply`.
    SendChat { model: String, content: String, stream: bool },
    /// Append this text to the opened output file and flush it; send `Done`.
    Write(String),
    /// Wait for the next piece of a streamed reply.
    NextPiece,
    /// The run is over.
    Finish(Result<(), SummarizeError>),
}

/// What the caller reports back after performing an action.
pub enum RunEvent {
    OutputExists(bool),
    /// Whether the output exists could not be found out.
    CheckFailed,
    InputRead(String),
    Done,
    Reply(String),
    /// The stream ended or failed.
    StreamEnded,
    CallFailed(String),
}

pub enum RunPhase {
    CheckingOutput,
    ReadingInput,
    PreparingDir { content: String },
    Opening { content: String },
    AwaitingReply,
    AwaitingPiece,
    Writing,
    Finished,
}

/// A summarizer run, driven step by step.
pub struct SummarizerRun {
    pub model: String,
    pub input: String,
    pub output: String,
    pub stream: bool,
    pub phase: RunPhase,
}

// ---------------------------------------------------------------- views

pub enum SummarizeErrorView {
    OutputExists(Seq<char>),
    InputUnreadable { path: Seq<char>, message: Seq<char> },
    Outside(Seq<char>),
    UnexpectedEvent,
}

pub enum RunActionView {
    CheckOutputExists(Seq<char>),
    ReadInput(Seq<char>),
    PrepareOutputDir(Seq<char>),
    OpenOutput(Seq<char>),
    SendChat { model: Seq<char>, content: Seq<char>, stream: bool },
    Write(Seq<char>),
    NextPiece,
    Finish(Result<(), SummarizeErrorView>),
}

pub enum RunEventView {
    OutputExists(bool),
    CheckFailed,
    InputRead(Seq<char>),
    Done,
    Reply(Seq<char>),
    StreamEnded,
    CallFailed(Seq<char>),
}

pub enum RunPhaseView {
    CheckingOutput,
    ReadingInput,
    PreparingDir { content: Seq<char> },
    Opening { content: Seq<char> },
    AwaitingReply,
    AwaitingPiece,
    Writing,
    Finished,
}

pub struct RunView {
    pub model: Seq<char>,
    pub input: Seq<char>,
    pub output: Seq<char>,
    pub stream: bool,
    pub phase: RunPhaseView,
}

impl View for SummarizeError {
    type V = SummarizeErrorView;

    open spec fn view(&self) -> SummarizeErrorView {
        match self {
            SummarizeError::OutputExists(p) => SummarizeErrorView::OutputExists(p@),
            SummarizeError::InputUnreadable { path, message } => SummarizeErrorView::InputUnreadable {
                path: path@,
                message: message@,
            },
            SummarizeError::Outside(m) => SummarizeErrorView::Outside(m@),
            SummarizeError::UnexpectedEvent => SummarizeErrorView::UnexpectedEvent,
        }
    }
}

impl View for RunAction {
    type V = RunActionView;

    open spec fn view(&self) -> RunActionView {
        match self {
            RunAction::CheckOutputExists(p) => RunActionView::CheckOutputExists(p@),
            RunAction::ReadInput(p) => RunActionView::ReadInput(p@),
            RunAction::PrepareOutputDir(p) => RunActionView::PrepareOutputDir(p@),
            RunAction::OpenOutput(p) => RunActionView::OpenOutput(p@),
            RunAction::SendChat { model, content, stream } => RunActionView::SendChat {
                model: model@,
                content: content@,
                stream: *stream,
            },
            RunAction::Write(c) => RunActionView::Write(c@),
            RunAction::NextPiece => RunActionView::NextPiece,
            RunAction::Finish(r) => RunActionView::Finish(
                match r {
                    Ok(()) => Ok(()),
                    Err(e) => Err(e@),
                },
            ),
        }
    }
}

impl View for RunEvent {
    type V = RunEventView;

    open spec fn view(&self) -> RunEventView {
        match self {
            RunEvent::OutputExists(b) => RunEventView::OutputExists(*b),
            RunEvent::CheckFailed => RunEventView::CheckFailed,
            RunEvent::InputRead(c) => RunEventView::InputRead(c@),
            RunEvent::Done => RunEventView::Done,
            RunEvent::Reply(c) => RunEventView::Reply(c@),
            RunEvent::StreamEnded => RunEventView::StreamEnded,
            RunEvent::CallFailed(m) => RunEventView::CallFailed(m@),
        }
    }
}

impl View for RunPhase {
    type V = RunPhaseView;

    open spec fn view(&self) -> RunPhaseView {
        match self {
            RunPhase::CheckingOutput => RunPhaseView::CheckingOutput,
            RunPhase::ReadingInput => RunPhaseView::ReadingInput,
            RunPhase::PreparingDir { content } => RunPhaseView::PreparingDir { content: content@ },
            RunPhase::Opening { content } => RunPhaseView::Opening { content: content@ },
            RunPhase::AwaitingReply => RunPhaseView::AwaitingReply,
            RunPhase::AwaitingPiece => RunPhaseView::AwaitingPiece,
            RunPhase::Writing => RunPhaseView::Writing,
            RunPhase::Finished => RunPhaseView::Finished,
        }
    }
}

impl View for SummarizerRun {
    type V = RunView;

    open spec fn view(&self) -> RunView {
        RunView {
            model: self.model@,
            input: self.input@,
            output: self.output@,
            stream: self.stream,
            phase: self.phase@,
        }
    }
}

// ---------------------------------------------------------------- the protocol

impl RunView {
    pub open spec fn with_phase(self, phase: RunPhaseView) -> RunView {
        RunView { phase, ..self }
    }
}

pub open spec fn finish_run(s: RunView, r: Result<(), SummarizeErrorView>) -> (RunView, RunActionView) {
    (s.with_phase(RunPhaseView::Finished), RunActionView::Finish(r))
}

pub open spec fn fail_outside(s: RunView, m: Seq<char>) -> (RunView, RunActionView) {
    finish_run(s, Err(SummarizeErrorView::Outside(m)))
}

pub open spec fn unexpected(s: RunView) -> (RunView, RunActionView) {
    finish_run(s, Err(SummarizeErrorView::UnexpectedEvent))
}

/// The run for `args`: it starts by checking whether the output exists.
pub open spec fn run_initial(model: Seq<char>, input: Seq<char>, output: Seq<char>, stream: bool) -> (
    RunView,
    RunActionView,
) {
    (
        RunView { model, input, output, stream, phase: RunPhaseView::CheckingOutput },
        RunActionView::CheckOutputExists(output),
    )
}

/// One step of a run: the next state and action after `e`.
pub open spec fn run_transition(s: RunView, e: RunEventView) -> (RunView, RunActionView) {
    match s.phase {
        RunPhaseView::CheckingOutput => match e {
            RunEventView::OutputExists(true) => finish_run(
                s,
                Err(SummarizeErrorView::OutputExists(s.output)),
            ),
            RunEventView::OutputExists(false) | RunEventView::CheckFailed => (
                s.with_phase(RunPhaseView::ReadingInput),
                RunActionView::ReadInput(s.input),
            ),
            _ => unexpected(s),
        },
        RunPhaseView::ReadingInput => match e {
            RunEventView::InputRead(content) => (
                s.with_phase(RunPhaseView::PreparingDir { content }),
                RunActionView::PrepareOutputDir(s.output),
            ),
            RunEventView::CallFailed(m) => finish_run(
                s,
                Err(SummarizeErrorView::InputUnreadable { path: s.input, message: m }),
            ),
            _ => unexpected(s),
        },
        RunPhaseView::PreparingDir { content } => match e {
            RunEventView::Done => (
                s.with_phase(RunPhaseView::Opening { content }),
                RunActionView::OpenOutput(s.output),
            ),
            RunEventView::CallFailed(m) => fail_outside(s, m),
            _ => unexpected(s),
        },
        RunPhaseView::Opening { content } => match e {
            RunEventView::Done => (
                s.with_phase(
                    if s.stream {
                        RunPhaseView::AwaitingPiece
                    } else {
                        RunPhaseView::AwaitingReply
                    },
                ),
                RunActionView::SendChat { model: s.model, content, stream: s.stream },
            ),
            RunEventView::CallFailed(m) => fail_outside(s, m),
            _ => unexpected(s),
        },
        RunPhaseView::AwaitingReply => match e {
            RunEventView::Reply(text) => (
                s.with_phase(RunPhaseView::Writing),
                RunActionView::Write(text),
            ),
            RunEventView::CallFailed(m) => fail_outside(s, m),
            _ => unexpected(s),
        },
        RunPhaseView::AwaitingPiece => match e {
            RunEventView::Reply(text) => (
                s.with_phase(RunPhaseView::Writing),
                RunActionView::Write(text),
            ),
            RunEventView::StreamEnded => finish_run(s, Ok(())),
            RunEventView::CallFailed(m) => fail_outside(s, m),
            _ => unexpected(s),
        },
        RunPhaseView::Writing => match e {
            RunEventView::Done => if s.stream {
                (s.with_phase(RunPhaseView::AwaitingPiece), RunActionView::NextPiece)
            } else {
                finish_run(s, Ok(()))
            },
            RunEventView::CallFailed(m) => fail_outside(s, m),
            _ => unexpected(s),
        },
        RunPhaseView::Finished => unexpected(s),
    }
}

/// The message an error is reported with.
pub open spec fn summarize_error_message(e: SummarizeErrorView) -> Seq<char> {
    match e {
        SummarizeErrorView::OutputExists(p) => "Output file already exists: "@ + p,
        SummarizeErrorView::InputUnreadable { path, .. } => "Failed to read input file from "@
            + debug_quoted(path),
        SummarizeErrorView::Outside(m) => m,
        SummarizeErrorView::UnexpectedEvent => "The run received an unexpected event"@,
    }
}

// ---------------------------------------------------------------- execution

impl SummarizeError {
    /// The message this error is reported with.
    pub fn message(&self) -> (r: String)
        ensures
            r@ == summarize_error_message(self@),
    {
        match self {
            SummarizeError::OutputExists(p) => {
                let mut r = String::from_str("Output file already exists: ");
                r.append(p.as_str());
                r
            },
            SummarizeError::InputUnreadable { path, .. } => {
                let mut r = String::from_str("Failed to read input file from ");
                push_debug_quoted(&mut r, path.as_str());
                r
            },
            SummarizeError::Outside(m) => m.clone(),
            SummarizeError::UnexpectedEvent => String::from_str(
                "The run received an unexpected event",
            ),
        }
    }
}

/// The line logged when a run succeeded.
pub fn written_message(output: &String) -> (r: String)
    ensures
        r@ == "Response written to "@ + output@,
{
    let mut r = String::from_str("Response written to ");
    r.append(output.as_str());
    r
}

impl SummarizerRun {
    /// Starts the run that `args` asks for.
    pub fn start(args: Args) -> (r: (SummarizerRun, RunAction))
        ensures
            args.command matches Commands::Ollama { model, input, output } && (r.0@, r.1@)
                == run_initial(model@, input@, output@, args.stream),
    {
        match args.command {
            Commands::Ollama { model, input, output } => {
                let action = RunAction::CheckOutputExists(output.clone());
                (
                    SummarizerRun {
                        model,
                        input,
                        output,
                        stream: args.stream,
                        phase: RunPhase::CheckingOutput,
                    },
                    action,
                )
            },
        }
    }

    fn finished(self, r: Result<(), SummarizeError>) -> (res: (SummarizerRun, RunAction))
        ensures
            (res.0@, res.1@) == finish_run(
                self@,
                match r {
                    Ok(()) => Ok(()),
                    Err(e) => Err(e@),
                },
            ),
    {
        (SummarizerRun { phase: RunPhase::Finished, ..self }, RunAction::Finish(r))
    }

    /// Advances the run by the outcome of the last action.
    pub fn step(self, event: RunEvent) -> (r: (SummarizerRun, RunAction))
        ensures
            (r.0@, r.1@) == run_transition(self@, event@),
    {
        let SummarizerRun { model, input, output, stream, phase } = self;
        let s = SummarizerRun { model, input, output, stream, phase: RunPhase::Finished };
        match phase {
            RunPhase::CheckingOutput => match event {
                RunEvent::OutputExists(true) => {
                    let out = s.output.clone();
                    s.finished(Err(SummarizeError::OutputExists(out)))
                },
                RunEvent::OutputExists(false) | RunEvent::CheckFailed => {
                    let action = RunAction::ReadInput(s.input.clone());
                    (SummarizerRun { phase: RunPhase::ReadingInput, ..s }, action)
                },
                _ => s.finished(Err(SummarizeError::UnexpectedEvent)),
            },
            RunPhase::ReadingInput => match event {
                RunEvent::InputRead(content) => {
                    let action = RunAction::PrepareOutputDir(s.output.clone());
                    (SummarizerRun { phase: RunPhase::PreparingDir { content }, ..s }, action)
                },
                RunEvent::CallFailed(m) => {
                    let path = s.input.clone();
                    s.finished(Err(SummarizeError::InputUnreadable { path, message: m }))
                },
                _ => s.finished(Err(SummarizeError::UnexpectedEvent)),
            },
            RunPhase::PreparingDir { content } => match event {
                RunEvent::Done => {
                    let action = RunAction::OpenOutput(s.output.clone());
                    (SummarizerRun { phase: RunPhase::Opening { content }, ..s }, action)
                },
                RunEvent::CallFailed(m) => s.finished(Err(SummarizeError::Outside(m))),
                _ => s.finished(Err(SummarizeError::UnexpectedEvent)),
            },
            RunPhase::Opening { content } => match event {
                RunEvent::Done => {
                    let action = RunAction::SendChat {
                        model: s.model.clone(),
                        content,
                        stream: s.stream,
                    };
                    let next = if s.stream {
                        RunPhase::AwaitingPiece
                    } else {
                        RunPhase::AwaitingReply
                    };
                    (SummarizerRun { phase: next, ..s }, action)
                },
                RunEvent::CallFailed(m) => s.finished(Err(SummarizeError::Outside(m))),
                _ => s.finished(Err(SummarizeError::UnexpectedEvent)),
            },
            RunPhase::AwaitingReply => match event {
                RunEvent::Reply(text) => (
                    SummarizerRun { phase: RunPhase::Writing, ..s },
                    RunAction::Write(text),
                ),
                RunEvent::CallFailed(m) => s.finished(Err(SummarizeError::Outside(m))),
                _ => s.finished(Err(SummarizeError::UnexpectedEvent)),
            },
            RunPhase::AwaitingPiece => match event {
                RunEvent::Reply(text) => (
                    SummarizerRun { phase: RunPhase::Writing, ..s },
                    RunAction::Write(text),
                ),
                RunEvent::StreamEnded => s.finished(Ok(())),
                RunEvent::CallFailed(m) => s.finished(Err(SummarizeError::Outside(m))),
                _ => s.finished(Err(SummarizeError::UnexpectedEvent)),
            },
            RunPhase::Writing => match event {
                RunEvent::Done => {
                    if s.stream {
                        (SummarizerRun { phase: RunPhase::AwaitingPiece, ..s }, RunAction::NextPiece)
                    } else {
                        s.finished(Ok(()))
                    }
                },
                RunEvent::CallFailed(m) => s.finished(Err(SummarizeError::Outside(m))),
                _ => s.finished(Err(SummarizeError::UnexpectedEvent)),
            },
            RunPhase::Finished => s.finished(Err(SummarizeError::UnexpectedEvent)),
        }
    }
}

// ---------------------------------------------------------------- laws

/// The states and actions of a run driven by `events`: event `i` answers
/// the action before it.
pub open spec fn run_trace(s: RunView, events: Seq<RunEventView>) -> (RunView, Seq<RunActionView>)
    decreases events.len(),
{
    if events.len() == 0 {
        (s, seq![])
    } else {
        let prev = run_trace(s, events.drop_last());
        let next = run_transition(prev.0, events.last());
        (next.0, prev.1.push(next.1))
    }
}

/// Every action of a run: the first one, then one per event.
pub open spec fn run_actions(
    model: Seq<char>,
    input: Seq<char>,
    output: Seq<char>,
    stream: bool,
    events: Seq<RunEventView>,
) -> Seq<RunActionView> {
    let init = run_initial(model, input, output, stream);
    seq![init.1] + run_trace(init.0, events).1
}

proof fn lemma_finished_stays(s: RunView, events: Seq<RunEventView>)
    requires
        s.phase is Finished,
    ensures
        run_trace(s, events).0.phase is Finished,
        forall|i: int|
            0 <= i < run_trace(s, events).1.len() ==> run_trace(s, events).1[i] == RunActionView::Finish(
                Err(SummarizeErrorView::UnexpectedEvent),
            ),
        run_trace(s, events).1.len() == events.len(),
    decreases events.len(),
{
    if events.len() > 0 {
        lemma_finished_stays(s, events.drop_last());
    }
}

proof fn lemma_trace_split(s: RunView, first: RunEventView, rest: Seq<RunEventView>)
    ensures
        run_trace(s, seq![first] + rest).0 == run_trace(run_transition(s, first).0, rest).0,
        run_trace(s, seq![first] + rest).1 == seq![run_transition(s, first).1] + run_trace(
            run_transition(s, first).0,
            rest,
        ).1,
    decreases rest.len(),
{
    let all = seq![first] + rest;
    let t = run_transition(s, first);
    if rest.len() == 0 {
        assert(all.drop_last() =~= Seq::<RunEventView>::empty());
        assert(run_trace(s, all.drop_last()) == (s, Seq::<RunActionView>::empty()));
        assert(all.last() == first);
        assert(run_trace(s, all) == (t.0, Seq::<RunActionView>::empty().push(t.1)));
        assert(run_trace(t.0, rest) == (t.0, Seq::<RunActionView>::empty()));
        assert(seq![t.1] + Seq::<RunActionView>::empty() =~= Seq::<RunActionView>::empty().push(t.1));
    } else {
        let shorter = rest.drop_last();
        lemma_trace_split(s, first, shorter);
        assert(all.drop_last() =~= seq![first] + shorter);
        assert(all.last() == rest.last());
        let p = run_trace(t.0, shorter);
        let u = run_transition(p.0, rest.last());
        assert(run_trace(t.0, rest) == (u.0, p.1.push(u.1)));
        assert(run_trace(s, all) == (u.0, (seq![t.1] + p.1).push(u.1)));
        assert((seq![t.1] + p.1).push(u.1) =~= seq![t.1] + p.1.push(u.1));
    }
}

/// An output file that exists already is never opened nor written: once the
/// check finds it, the run fails with `OutputExists`, whose message starts
/// with "Output file already exists", and every later action is a failure.
pub proof fn law_existing_output_never_written(
    model: Seq<char>,
    input: Seq<char>,
    output: Seq<char>,
    stream: bool,
    events: Seq<RunEventView>,
    i: int,
)
    requires
        events.len() > 0,
        events[0] == RunEventView::OutputExists(true),
        1 <= i < run_actions(model, input, output, stream, events).len(),
    ensures
        run_actions(model, input, output, stream, events)[1] == RunActionView::Finish(
            Err(SummarizeErrorView::OutputExists(output)),
        ),
        summarize_error_message(SummarizeErrorView::OutputExists(output)).take(26)
            == "Output file already exists"@,
        run_actions(model, input, output, stream, events)[i] is Finish,
        run_actions(model, input, output, stream, events)[i] != RunActionView::Finish(Ok(())),
{
    let init = run_initial(model, input, output, stream);
    let rest = events.subrange(1, events.len() as int);
    assert(events =~= seq![events[0]] + rest);
    lemma_trace_split(init.0, events[0], rest);
    let t = run_transition(init.0, events[0]);
    lemma_finished_stays(t.0, rest);
    let acts = run_actions(model, input, output, stream, events);
    assert(acts =~= seq![init.1] + (seq![t.1] + run_trace(t.0, rest).1));
    if i >= 2 {
        assert(acts[i] == run_trace(t.0, rest).1[i - 2]);
    }
    assert(("Output file already exists: "@ + output).take(26) =~= "Output file already exists"@)
        by {
        reveal_strlit("Output file already exists: ");
        reveal_strlit("Output file already exists");
    }
}

/// What the run writes is exactly what the model replied, piece by piece.
pub proof fn law_writes_are_replies(s: RunView, e: RunEventView, text: Seq<char>)
    requires
        run_transition(s, e).1 == RunActionView::Write(text),
    ensures
        e == RunEventView::Reply(text),
        s.phase is AwaitingReply || s.phase is AwaitingPiece,
{
}

/// The model is sent the input file's whole text, in the requested mode,
/// and only once the output file is open.
pub proof fn law_chat_carries_input(s: RunView, e: RunEventView, model: Seq<char>, content: Seq<char>, stream: bool)
    requires
        run_transition(s, e).1 == (RunActionView::SendChat { model, content, stream }),
    ensures
        s.phase == (RunPhaseView::Opening { content }),
        e == RunEventView::Done,
        model == s.model,
        stream == s.stream,
{
}

/// A reply sent in one piece finishes the run after it is written; a
/// streamed reply asks for the next piece instead.
pub proof fn law_after_write(s: RunView)
    requires
        s.phase is Writing,
    ensures
        !s.stream ==> run_transition(s, RunEventView::Done).1 == RunActionView::Finish(Ok(())),
        s.stream ==> run_transition(s, RunEventView::Done).1 == RunActionView::NextPiece,
{
}


/// The phases in which no chat request has been sent yet.
pub open spec fn before_chat(p: RunPhaseView) -> bool {
    p is CheckingOutput || p is ReadingInput || p is PreparingDir || p is Opening
}

/// Action `a` names no path but the run's own: the output is checked,
/// prepared and opened, the input is read.
pub open spec fn stays_on_paths(a: RunActionView, input: Seq<char>, output: Seq<char>) -> bool {
    match a {
        RunActionView::CheckOutputExists(p) => p == output,
        RunActionView::ReadInput(p) => p == input,
        RunActionView::PrepareOutputDir(p) => p == output,
        RunActionView::OpenOutput(p) => p == output,
        _ => true,
    }
}

pub open spec fn paths_inv(s: RunView, actions: Seq<RunActionView>, input: Seq<char>, output: Seq<char>) -> bool {
    &&& s.input == input
    &&& s.output == output
    &&& forall|i: int| 0 <= i < actions.len() ==> stays_on_paths(#[trigger] actions[i], input, output)
    &&& forall|i: int, j: int|
        0 <= i < j < actions.len() ==> !(#[trigger] actions[i] is SendChat && #[trigger] actions[j] is SendChat)
    &&& before_chat(s.phase) ==> forall|i: int| 0 <= i < actions.len() ==> !(#[trigger] actions[i] is SendChat)
}

proof fn lemma_paths_step(s: RunView, actions: Seq<RunActionView>, input: Seq<char>, output: Seq<char>, e: RunEventView)
    requires
        paths_inv(s, actions, input, output),
    ensures
        paths_inv(run_transition(s, e).0, actions.push(run_transition(s, e).1), input, output),
{
    let t = run_transition(s, e);
    let a2 = actions.push(t.1);
    assert forall|i: int| 0 <= i < a2.len() implies stays_on_paths(#[trigger] a2[i], input, output) by {
        if i < actions.len() {
            assert(a2[i] == actions[i]);
        }
    }
    assert forall|i: int, j: int|
        0 <= i < j < a2.len() implies !(#[trigger] a2[i] is SendChat && #[trigger] a2[j] is SendChat) by {
        assert(a2[i] == actions[i]);
        if j < actions.len() {
            assert(a2[j] == actions[j]);
        }
    }
    if before_chat(t.0.phase) {
        assert forall|i: int| 0 <= i < a2.len() implies !(#[trigger] a2[i] is SendChat) by {
            if i < actions.len() {
                assert(a2[i] == actions[i]);
            }
        }
    }
}

proof fn lemma_paths_run(model: Seq<char>, input: Seq<char>, output: Seq<char>, stream: bool, events: Seq<RunEventView>)
    ensures
        paths_inv(
            run_trace(run_initial(model, input, output, stream).0, events).0,
            run_actions(model, input, output, stream, events),
            input,
            output,
        ),
    decreases events.len(),
{
    let init = run_initial(model, input, output, stream);
    if events.len() == 0 {
        assert(run_actions(model, input, output, stream, events) =~= seq![init.1]);
    } else {
        let prev = events.drop_last();
        lemma_paths_run(model, input, output, stream, prev);
        let s = run_trace(init.0, prev).0;
        lemma_paths_step(s, run_actions(model, input, output, stream, prev), input, output, events.last());
        assert(run_actions(model, input, output, stream, events) =~= run_actions(model, input, output, stream, prev).push(
            run_transition(s, events.last()).1,
        ));
    }
}

/// Whatever the answers, a run names only its own two paths (it checks,
/// prepares and opens the output and reads the input; it writes only to the
/// file it opened) and sends the model at most one chat request.
pub proof fn law_run_touches_only_its_paths(
    model: Seq<char>,
    input: Seq<char>,
    output: Seq<char>,
    stream: bool,
    events: Seq<RunEventView>,
    i: int,
    j: int,
)
    requires
        0 <= i < run_actions(model, input, output, stream, events).len(),
        0 <= j < run_actions(model, input, output, stream, events).len(),
        i != j,
    ensures
        stays_on_paths(run_actions(model, input, output, stream, events)[i], input, output),
        !(run_actions(model, input, output, stream, events)[i] is SendChat && run_actions(
            model,
            input,
            output,
            stream,
            events,
        )[j] is SendChat),
{
    lemma_paths_run(model, input, output, stream, events);
    let acts = run_actions(model, input, output, stream, events);
    if i < j {
        assert(!(acts[i] is SendChat && acts[j] is SendChat));
    } else {
        assert(!(acts[j] is SendChat && acts[i] is SendChat));
    }
}

/// When the input cannot be read, the run fails at once, naming the input
/// path as `{:?}` shows it: no directory is made, nothing is opened or sent.
pub proof fn law_unreadable_input_stops_the_run(s: RunView, message: Seq<char>)
    requires
        s.phase is ReadingInput,
    ensures
        run_transition(s, RunEventView::CallFailed(message)).1 == RunActionView::Finish(
            Err(SummarizeErrorView::InputUnreadable { path: s.input, message }),
        ),
        summarize_error_message(SummarizeErrorView::InputUnreadable { path: s.input, message })
            == "Failed to read input file from "@ + debug_quoted(s.input),
        run_transition(s, RunEventView::CallFailed(message)).0.phase is Finished,
{
}


/// Before event `bound`, the input was read and gave `content`.
pub open spec fn read_before(events: Seq<RunEventView>, content: Seq<char>, bound: int) -> bool {
    exists|k: int| 0 <= k < bound && k < events.len() && #[trigger] events[k] == RunEventView::InputRead(content)
}

pub open spec fn content_inv(s: RunView, actions: Seq<RunActionView>, events: Seq<RunEventView>) -> bool {
    &&& actions.len() == events.len() + 1
    &&& (s.phase matches RunPhaseView::PreparingDir { content } ==> read_before(events, content, events.len() as int))
    &&& (s.phase matches RunPhaseView::Opening { content } ==> read_before(events, content, events.len() as int))
    &&& forall|i: int|
        0 <= i < actions.len() ==> (#[trigger] actions[i] matches RunActionView::SendChat { content, .. }
            ==> read_before(events, content, i))
}

proof fn lemma_read_before_extends(events: Seq<RunEventView>, e: RunEventView, c: Seq<char>, bound: int)
    requires
        read_before(events, c, bound),
    ensures
        read_before(events.push(e), c, bound),
{
    let k = choose|k: int| 0 <= k < bound && k < events.len() && #[trigger] events[k] == RunEventView::InputRead(c);
    assert(events.push(e)[k] == events[k]);
}

proof fn lemma_content_step(s: RunView, actions: Seq<RunActionView>, events: Seq<RunEventView>, e: RunEventView)
    requires
        content_inv(s, actions, events),
    ensures
        content_inv(run_transition(s, e).0, actions.push(run_transition(s, e).1), events.push(e)),
{
    let t = run_transition(s, e);
    let a2 = actions.push(t.1);
    let e2 = events.push(e);
    let n = events.len() as int;
    assert(e2[n] == e);
    match s.phase {
        RunPhaseView::PreparingDir { content } => {
            lemma_read_before_extends(events, e, content, n);
        },
        RunPhaseView::Opening { content } => {
            lemma_read_before_extends(events, e, content, n);
        },
        _ => {},
    }
    if let RunEventView::InputRead(c) = e {
        assert(read_before(e2, c, n + 1));
    }
    assert forall|i: int|
        0 <= i < a2.len() implies (#[trigger] a2[i] matches RunActionView::SendChat { content, .. }
            ==> read_before(e2, content, i)) by {
        if i < actions.len() {
            assert(a2[i] == actions[i]);
            if let RunActionView::SendChat { content, .. } = actions[i] {
                lemma_read_before_extends(events, e, content, i);
            }
        } else {
            if let RunActionView::SendChat { content, .. } = t.1 {
                assert(s.phase == (RunPhaseView::Opening { content }));
                lemma_read_before_extends(events, e, content, n);
            }
        }
    }
}

proof fn lemma_content_run(model: Seq<char>, input: Seq<char>, output: Seq<char>, stream: bool, events: Seq<RunEventView>)
    ensures
        content_inv(
            run_trace(run_initial(model, input, output, stream).0, events).0,
            run_actions(model, input, output, stream, events),
            events,
        ),
    decreases events.len(),
{
    let init = run_initial(model, input, output, stream);
    if events.len() == 0 {
        assert(run_actions(model, input, output, stream, events) =~= seq![init.1]);
    } else {
        let prev = events.drop_last();
        lemma_content_run(model, input, output, stream, prev);
        let st = run_trace(init.0, prev).0;
        lemma_content_step(st, run_actions(model, input, output, stream, prev), prev, events.last());
        assert(prev.push(events.last()) =~= events);
        assert(run_actions(model, input, output, stream, events) =~= run_actions(model, input, output, stream, prev).push(
            run_transition(st, events.last()).1,
        ));
    }
}

/// In every run, whatever its answers and stream mode, the chat request
/// carries as its message exactly the text that reading the input gave,
/// read earlier in the same run.
pub proof fn law_chat_sends_whole_input(
    model: Seq<char>,
    input: Seq<char>,
    output: Seq<char>,
    stream: bool,
    events: Seq<RunEventView>,
    i: int,
    content: Seq<char>,
    sent_stream: bool,
    sent_model: Seq<char>,
)
    requires
        0 <= i < run_actions(model, input, output, stream, events).len(),
        run_actions(model, input, output, stream, events)[i] == (RunActionView::SendChat {
            model: sent_model,
            content,
            stream: sent_stream,
        }),
    ensures
        exists|k: int| 0 <= k < i && events[k] == RunEventView::InputRead(content),
        sent_model == model,
        sent_stream == stream,
{
    lemma_content_run(model, input, output, stream, events);
    let acts = run_actions(model, input, output, stream, events);
    assert(acts[i] matches RunActionView::SendChat { content: c, .. } && c == content);
    assert(read_before(events, content, i));
    lemma_model_run(model, input, output, stream, events);
}

pub open spec fn model_inv(s: RunView, actions: Seq<RunActionView>, model: Seq<char>, stream: bool) -> bool {
    &&& s.model == model
    &&& s.stream == stream
    &&& forall|i: int|
        0 <= i < actions.len() ==> (#[trigger] actions[i] matches RunActionView::SendChat { model: m, stream: st, .. }
            ==> m == model && st == stream)
}

proof fn lemma_model_run(model: Seq<char>, input: Seq<char>, output: Seq<char>, stream: bool, events: Seq<RunEventView>)
    ensures
        model_inv(
            run_trace(run_initial(model, input, output, stream).0, events).0,
            run_actions(model, input, output, stream, events),
            model,
            stream,
        ),
    decreases events.len(),
{
    let init = run_initial(model, input, output, stream);
    if events.len() == 0 {
        assert(run_actions(model, input, output, stream, events) =~= seq![init.1]);
    } else {
        let prev = events.drop_last();
        lemma_model_run(model, input, output, stream, prev);
        let st = run_trace(init.0, prev).0;
        let acts = run_actions(model, input, output, stream, prev);
        let t = run_transition(st, events.last());
        assert(prev.push(events.last()) =~= events);
        assert(run_actions(model, input, output, stream, events) =~= acts.push(t.1));
        let a2 = acts.push(t.1);
        assert forall|i: int|
            0 <= i < a2.len() implies (#[trigger] a2[i] matches RunActionView::SendChat { model: m, stream: sm, .. }
                ==> m == model && sm == stream) by {
            if i < acts.len() {
                assert(a2[i] == acts[i]);
            }
        }
    }
}

} // verus!
