//! The runner facade: which phases an operation mode goes through, in which
//! order, and what the run amounts to once the host has reported on them.
//!
//! A `Run` performs no phase itself. It says which phase is due, the host
//! carries it out with whatever engine it drives and reports back, and the
//! run decides what follows. The first failure ends the run with the error
//! of the phase that failed; nothing is retried and no other backend is
//! tried in its place.

use crate::backend::Backend;
use crate::cache::{
    is_key, load_entry, spec_artifact_key, spec_is_key, store_artifact, store_entry,
};
use vstd::prelude::*;
use vstd::slice::slice_to_vec;

verus! {

/// The name under which every module exports its entry point, a function
/// from one `u32` to one `u32`.
pub const ENTRY_POINT: &'static str = "ext_run";

/// Why a run ended without a result.
#[derive(Clone, Copy, Debug, PartialEq, Eq, Structural)]
pub enum AotError {
    /// The module is malformed or the backend cannot compile it.
    CompileError,
    /// Nothing is stored under the requested key.
    CacheMiss,
    /// Something is stored under the key, but the backend cannot use it.
    CacheCorrupt,
    /// The artifact could not be linked into an instance.
    InstantiationError,
    /// The entry point is missing, has another signature, or trapped.
    CallError,
    /// The artifact could not be persisted.
    IOError,
}

/// The shapes of operation that are measured.
#[derive(Clone, Copy, Debug, PartialEq, Eq, Structural)]
pub enum Mode {
    /// Compile and nothing else: the artifact stays in memory and the cache
    /// is left as it was.
    Compile,
    /// Compile, instantiate and call, with no cache in between.
    Jit,
    /// Compile and store; the result is the key.
    AotCompile,
    /// Load what a key names, instantiate and call.
    AotExecute,
    /// `AotCompile`, then `AotExecute` on the key it gave.
    AotTotal,
    /// Compile and instantiate, leaving an instance ready to be called.
    Prepare,
    /// Call an instance that is ready.
    Execute,
}

/// One step of a run, carried out by the host.
#[derive(Clone, Copy, Debug, PartialEq, Eq, Structural)]
pub enum Phase {
    /// Compile the module bytes under the run's backend.
    Compile,
    /// Persist the compiled artifact under its key.
    Store,
    /// Read back the artifact that the run's key names.
    Load,
    /// Link the artifact against the empty import set.
    Instantiate,
    /// Invoke the entry point with the run's argument.
    Call,
}

/// What the host says of the phase it was asked to carry out.
#[derive(Clone, Debug, PartialEq, Eq)]
pub enum Report {
    /// The module was compiled.
    Compiled,
    /// The artifact was stored under this key.
    Stored(String),
    /// The artifact was read back and is usable under the backend.
    Loaded,
    /// No entry exists under the key.
    Missing,
    /// An entry exists, but its bytes are not an artifact of the backend.
    Corrupt,
    /// An instance was created.
    Instantiated,
    /// The entry point returned this value.
    Returned(u32),
    /// The phase failed.
    Failed,
}

/// What a finished run hands back.
#[derive(Clone, Debug, PartialEq, Eq)]
pub enum Output {
    /// The key under which the artifact was stored.
    Key(String),
    /// The value that the entry point returned.
    Value(u32),
    /// Nothing but the instance, which the host holds.
    Instance,
    /// Nothing but the compiled artifact, which the host holds.
    Artifact,
}

/// How a call of the entry point ended, as an engine tells it.
#[derive(Clone, Copy, Debug, PartialEq, Eq, Structural)]
pub enum CallOutcome {
    /// The function returned this value.
    Returned(u32),
    /// The guest yielded instead of returning.
    Yielded,
    /// The function was not found, has another signature, or trapped
    /// while it ran.
    Failed,
}

/// A `Report` as a mathematical value.
pub enum ReportView {
    Compiled,
    Stored(Seq<char>),
    Loaded,
    Missing,
    Corrupt,
    Instantiated,
    Returned(u32),
    Failed,
}

/// An `Output` as a mathematical value.
pub enum OutputView {
    Key(Seq<char>),
    Value(u32),
    Instance,
    Artifact,
}

impl View for Report {
    type V = ReportView;

    open spec fn view(&self) -> ReportView {
        match self {
            Report::Compiled => ReportView::Compiled,
            Report::Stored(key) => ReportView::Stored(key@),
            Report::Loaded => ReportView::Loaded,
            Report::Missing => ReportView::Missing,
            Report::Corrupt => ReportView::Corrupt,
            Report::Instantiated => ReportView::Instantiated,
            Report::Returned(value) => ReportView::Returned(*value),
            Report::Failed => ReportView::Failed,
        }
    }
}

impl View for Output {
    type V = OutputView;

    open spec fn view(&self) -> OutputView {
        match self {
            Output::Key(key) => OutputView::Key(key@),
            Output::Value(value) => OutputView::Value(*value),
            Output::Instance => OutputView::Instance,
            Output::Artifact => OutputView::Artifact,
        }
    }
}

/// The phases of a mode, in the order in which they are carried out.
pub open spec fn plan(mode: Mode) -> Seq<Phase> {
    match mode {
        Mode::Compile => seq![Phase::Compile],
        Mode::Jit => seq![Phase::Compile, Phase::Instantiate, Phase::Call],
        Mode::AotCompile => seq![Phase::Compile, Phase::Store],
        Mode::AotExecute => seq![Phase::Load, Phase::Instantiate, Phase::Call],
        Mode::AotTotal => seq![
            Phase::Compile,
            Phase::Store,
            Phase::Load,
            Phase::Instantiate,
            Phase::Call,
        ],
        Mode::Prepare => seq![Phase::Compile, Phase::Instantiate],
        Mode::Execute => seq![Phase::Call],
    }
}

/// The phase at a position of a mode's plan, if the plan is that long.
pub open spec fn phase_at(mode: Mode, position: nat) -> Option<Phase> {
    if position < plan(mode).len() {
        Some(plan(mode)[position as int])
    } else {
        None
    }
}

/// Whether a report says that its phase succeeded, and the error if not.
///
/// A report that answers another phase than the one asked for counts as a
/// failure of the phase asked for. A store fails too where the key it
/// reports has not the shape of a key, or is another than the one the run
/// already has: the entry would not be found again.
pub open spec fn verdict(phase: Phase, key: Option<Seq<char>>, report: ReportView) -> Option<
    AotError,
> {
    match phase {
        Phase::Compile => match report {
            ReportView::Compiled => None,
            _ => Some(AotError::CompileError),
        },
        Phase::Store => match report {
            ReportView::Stored(stored) => if !spec_is_key(stored) || (key is Some && key != Some(
                stored,
            )) {
                Some(AotError::IOError)
            } else {
                None
            },
            _ => Some(AotError::IOError),
        },
        Phase::Load => match report {
            ReportView::Loaded => None,
            ReportView::Missing => Some(AotError::CacheMiss),
            _ => Some(AotError::CacheCorrupt),
        },
        Phase::Instantiate => match report {
            ReportView::Instantiated => None,
            _ => Some(AotError::InstantiationError),
        },
        Phase::Call => match report {
            ReportView::Returned(_) => None,
            _ => Some(AotError::CallError),
        },
    }
}

/// What a run hands back when `report` is the success of its last phase.
pub open spec fn yield_of(report: ReportView) -> OutputView {
    match report {
        ReportView::Stored(key) => OutputView::Key(key),
        ReportView::Returned(value) => OutputView::Value(value),
        ReportView::Compiled => OutputView::Artifact,
        _ => OutputView::Instance,
    }
}

/// Whether an output is of the kind that a mode hands back: a key from
/// a compile, an instance from a preparation, a value from everything that
/// ends in a call.
pub open spec fn fits(mode: Mode, output: OutputView) -> bool {
    match mode {
        Mode::Compile => output is Artifact,
        Mode::AotCompile => output matches OutputView::Key(key) && spec_is_key(key),
        Mode::Prepare => output is Instance,
        _ => output is Value,
    }
}

/// Whether a run of a mode can end with an error: only with the error of
/// a phase that the mode goes through.
pub open spec fn may_fail_with(mode: Mode, error: AotError) -> bool {
    match error {
        AotError::CompileError => mode != Mode::AotExecute && mode != Mode::Execute,
        AotError::IOError => mode == Mode::AotCompile || mode == Mode::AotTotal,
        AotError::CacheMiss | AotError::CacheCorrupt => mode == Mode::AotExecute || mode
            == Mode::AotTotal,
        AotError::InstantiationError => mode != Mode::Compile && mode != Mode::AotCompile && mode
            != Mode::Execute,
        AotError::CallError => mode != Mode::Compile && mode != Mode::AotCompile && mode
            != Mode::Prepare,
    }
}

/// Whether a key is there and has the shape of a key.
pub open spec fn has_key(key: Option<Seq<char>>) -> bool {
    match key {
        Some(given) => spec_is_key(given),
        None => false,
    }
}

/// A run as a mathematical value.
pub struct RunState {
    pub backend: Backend,
    pub mode: Mode,
    pub module: Seq<u8>,
    pub arg: u32,
    pub key: Option<Seq<char>>,
    pub position: nat,
    pub outcome: Option<Result<OutputView, AotError>>,
}

impl RunState {
    /// Whether a run has a key to load under: every mode but the one that
    /// begins with a load makes its key itself or needs none, and that one
    /// must be given a text that has the shape of a key.
    pub open spec fn can_begin(mode: Mode, key: Option<Seq<char>>) -> bool {
        mode == Mode::AotExecute ==> has_key(key)
    }

    /// The state in which every run begins. A run that is to load under
    /// no key, or under a text that no store can have given as a key, has
    /// ended before it began: with a cache miss, and with no phase asked of
    /// the host.
    pub open spec fn start(
        backend: Backend,
        mode: Mode,
        module: Seq<u8>,
        key: Option<Seq<char>>,
        arg: u32,
    ) -> RunState {
        RunState {
            backend,
            mode,
            module,
            arg,
            key,
            position: 0,
            outcome: if Self::can_begin(mode, key) {
                None
            } else {
                Some(Err(AotError::CacheMiss))
            },
        }
    }

    /// A run has a phase due until it has an outcome, a load is only due
    /// under a key of the right shape, and the outcome is one that the mode
    /// can end with.
    pub open spec fn wf(self) -> bool {
        match self.outcome {
            None => self.position < plan(self.mode).len() && (phase_at(self.mode, self.position)
                == Some(Phase::Load) ==> has_key(self.key)),
            Some(Ok(output)) => fits(self.mode, output),
            Some(Err(error)) => may_fail_with(self.mode, error),
        }
    }

    /// How many phases are still to be carried out, at most.
    pub open spec fn remaining(self) -> nat {
        if self.outcome is Some || self.position >= plan(self.mode).len() {
            0
        } else {
            (plan(self.mode).len() - self.position) as nat
        }
    }

    /// The phase that the host is asked to carry out, if any is left.
    pub open spec fn next(self) -> Option<Phase> {
        if self.outcome is Some {
            None
        } else {
            phase_at(self.mode, self.position)
        }
    }

    /// The state after the host has reported on the phase that was due.
    pub open spec fn step(self, report: ReportView) -> RunState {
        match self.next() {
            None => self,
            Some(phase) => match verdict(phase, self.key, report) {
                Some(error) => RunState { outcome: Some(Err(error)), ..self },
                None => RunState {
                    key: match report {
                        ReportView::Stored(key) => Some(key),
                        _ => self.key,
                    },
                    position: self.position + 1,
                    outcome: if self.position + 1 == plan(self.mode).len() {
                        Some(Ok(yield_of(report)))
                    } else {
                        None
                    },
                    ..self
                },
            },
        }
    }

    /// The state after a sequence of reports, taken one by one.
    pub open spec fn run(self, reports: Seq<ReportView>) -> RunState
        decreases reports.len(),
    {
        if reports.len() == 0 {
            self
        } else {
            self.step(reports[0]).run(reports.drop_first())
        }
    }
}

/// Whether a report is one that a phase can be answered with by whoever
/// carries it out: its success, or one of the failures of its kind.
pub open spec fn answers(phase: Phase, report: ReportView) -> bool {
    match phase {
        Phase::Compile => report == ReportView::Compiled || report == ReportView::Failed,
        Phase::Store => report is Stored || report == ReportView::Failed,
        Phase::Load => report == ReportView::Loaded || report == ReportView::Missing || report
            == ReportView::Corrupt,
        Phase::Instantiate => report == ReportView::Instantiated || report == ReportView::Failed,
        Phase::Call => report is Returned || report == ReportView::Failed,
    }
}

/// Whether a sequence of reports is what carrying out phases of `own`
/// gives from `state` on: each report answers the phase that was due when
/// it was made, and that phase is one of `own`.
pub open spec fn carried_out(state: RunState, reports: Seq<ReportView>, own: Set<Phase>) -> bool
    decreases reports.len(),
{
    if reports.len() == 0 {
        true
    } else {
        match state.next() {
            Some(phase) => own.contains(phase) && answers(phase, reports[0]) && carried_out(
                state.step(reports[0]),
                reports.drop_first(),
                own,
            ),
            None => false,
        }
    }
}

/// What a read of a cache entry amounts to as the report on a load:
/// missing where nothing was found, loaded or corrupt as the backend can or
/// cannot use what was found.
pub open spec fn read_report(found: Option<Seq<u8>>, usable: bool) -> ReportView {
    match found {
        None => ReportView::Missing,
        Some(_) => if usable {
            ReportView::Loaded
        } else {
            ReportView::Corrupt
        },
    }
}

/// One run of one mode under one backend.
pub struct Run {
    backend: Backend,
    mode: Mode,
    module: Vec<u8>,
    arg: u32,
    key: Option<String>,
    position: usize,
    outcome: Option<Result<Output, AotError>>,
}

impl View for Run {
    type V = RunState;

    closed spec fn view(&self) -> RunState {
        RunState {
            backend: self.backend,
            mode: self.mode,
            module: self.module@,
            arg: self.arg,
            key: match self.key {
                Some(key) => Some(key@),
                None => None,
            },
            position: self.position as nat,
            outcome: match self.outcome {
                Some(Ok(output)) => Some(Ok(output@)),
                Some(Err(error)) => Some(Err(error)),
                None => None,
            },
        }
    }
}

/// The phase at a position of a mode's plan.
fn nth_phase(mode: Mode, position: usize) -> (phase: Option<Phase>)
    ensures
        phase == phase_at(mode, position as nat),
{
    match mode {
        Mode::Compile => match position {
            0 => Some(Phase::Compile),
            _ => None,
        },
        Mode::Jit => match position {
            0 => Some(Phase::Compile),
            1 => Some(Phase::Instantiate),
            2 => Some(Phase::Call),
            _ => None,
        },
        Mode::AotCompile => match position {
            0 => Some(Phase::Compile),
            1 => Some(Phase::Store),
            _ => None,
        },
        Mode::AotExecute => match position {
            0 => Some(Phase::Load),
            1 => Some(Phase::Instantiate),
            2 => Some(Phase::Call),
            _ => None,
        },
        Mode::AotTotal => match position {
            0 => Some(Phase::Compile),
            1 => Some(Phase::Store),
            2 => Some(Phase::Load),
            3 => Some(Phase::Instantiate),
            4 => Some(Phase::Call),
            _ => None,
        },
        Mode::Prepare => match position {
            0 => Some(Phase::Compile),
            1 => Some(Phase::Instantiate),
            _ => None,
        },
        Mode::Execute => match position {
            0 => Some(Phase::Call),
            _ => None,
        },
    }
}

/// Judges a report on a phase.
fn judge(phase: Phase, key: &Option<String>, report: &Report) -> (error: Option<AotError>)
    ensures
        error == verdict(
            phase,
            match *key {
                Some(k) => Some(k@),
                None => None,
            },
            report@,
        ),
{
    match phase {
        Phase::Compile => match report {
            Report::Compiled => None,
            _ => Some(AotError::CompileError),
        },
        Phase::Store => match report {
            Report::Stored(stored) => {
                if !is_key(stored.as_str()) {
                    Some(AotError::IOError)
                } else {
                    match key {
                        Some(known) => {
                            if *known == *stored {
                                None
                            } else {
                                Some(AotError::IOError)
                            }
                        },
                        None => None,
                    }
                }
            },
            _ => Some(AotError::IOError),
        },
        Phase::Load => match report {
            Report::Loaded => None,
            Report::Missing => Some(AotError::CacheMiss),
            _ => Some(AotError::CacheCorrupt),
        },
        Phase::Instantiate => match report {
            Report::Instantiated => None,
            _ => Some(AotError::InstantiationError),
        },
        Phase::Call => match report {
            Report::Returned(_) => None,
            _ => Some(AotError::CallError),
        },
    }
}

/// How a call ended, given what the lookup of the entry point and the call
/// itself gave: `None` where no function of the right signature was found
/// under the name, `Some(None)` where the function was found and trapped,
/// `Some(Some(value))` where it returned. Only the last is a return; a
/// missing export is never answered with a value.
pub fn classify_lookup(called: Option<Option<u32>>) -> (outcome: CallOutcome)
    ensures
        outcome == (match called {
            Some(Some(value)) => CallOutcome::Returned(value),
            _ => CallOutcome::Failed,
        }),
{
    match called {
        Some(Some(value)) => CallOutcome::Returned(value),
        _ => CallOutcome::Failed,
    }
}

/// The error that a phase of an engine ends with where it fails.
pub open spec fn engine_error(phase: Phase) -> AotError {
    match phase {
        Phase::Compile => AotError::CompileError,
        Phase::Store => AotError::IOError,
        Phase::Load => AotError::CacheCorrupt,
        Phase::Instantiate => AotError::InstantiationError,
        Phase::Call => AotError::CallError,
    }
}

/// What a call amounts to, given how it ended: the returned value, or a
/// call error for everything else. No outcome is turned into a value that
/// the guest did not return.
pub fn classify_call(outcome: CallOutcome) -> (result: Result<u32, AotError>)
    ensures
        result == (match outcome {
            CallOutcome::Returned(value) => Ok::<u32, AotError>(value),
            _ => Err(AotError::CallError),
        }),
{
    match outcome {
        CallOutcome::Returned(value) => Ok(value),
        _ => Err(AotError::CallError),
    }
}

/// Says what a read of a cache entry amounts to as the report on a load.
///
/// `found` holds the bytes at the entry's path, or `None` where no file is
/// there; `usable` says whether the backend could make a module of them.
/// Nothing found is a miss, whatever `usable` says; bytes that are of no
/// use are a corrupt entry.
pub fn report_load(found: &Option<Vec<u8>>, usable: bool) -> (report: Report)
    ensures
        report@ == read_report(
            match *found {
                Some(bytes) => Some(bytes@),
                None => None,
            },
            usable,
        ),
{
    match found {
        None => Report::Missing,
        Some(_) => if usable {
            Report::Loaded
        } else {
            Report::Corrupt
        },
    }
}

/// The report with which a host hands on an error that the engine gave
/// for a phase: a cache miss is reported as `Missing`, a corrupt entry as
/// `Corrupt`, every other error as `Failed`.
pub fn failure_report(error: AotError) -> (report: Report)
    ensures
        report@ == (match error {
            AotError::CacheMiss => ReportView::Missing,
            AotError::CacheCorrupt => ReportView::Corrupt,
            _ => ReportView::Failed,
        }),
{
    match error {
        AotError::CacheMiss => Report::Missing,
        AotError::CacheCorrupt => Report::Corrupt,
        _ => Report::Failed,
    }
}

impl Run {
    /// Begins a run of `mode` under `backend`.
    ///
    /// `module` holds the bytes to compile, `key` the key that is already
    /// known, `arg` the argument for the entry point. A run that begins with
    /// a load and is given no key, or a text that is no key, has ended with a
    /// cache miss as soon as it is made.
    pub fn start(backend: Backend, mode: Mode, module: &[u8], key: Option<String>, arg: u32) -> (run:
        Run)
        ensures
            run@ == RunState::start(
                backend,
                mode,
                module@,
                match key {
                    Some(k) => Some(k@),
                    None => None,
                },
                arg,
            ),
            run@.wf(),
    {
        let can_begin = match mode {
            Mode::AotExecute => match &key {
                Some(given) => is_key(given.as_str()),
                None => false,
            },
            _ => true,
        };
        let outcome = if can_begin {
            None
        } else {
            Some(Err(AotError::CacheMiss))
        };
        Run { backend, mode, module: slice_to_vec(module), arg, key, position: 0, outcome }
    }

    /// The phase that the host is asked to carry out next; `None` once the
    /// run has ended.
    pub fn next(&self) -> (phase: Option<Phase>)
        ensures
            phase == self@.next(),
    {
        if self.outcome.is_some() {
            None
        } else {
            nth_phase(self.mode, self.position)
        }
    }

    /// Takes the host's report on the phase that was due.
    ///
    /// A success moves the run to its next phase, or ends it with its result
    /// if that was the last one. A failure ends the run with the error of
    /// the phase. A run that has ended ignores the report.
    pub fn report(&mut self, report: Report)
        ensures
            final(self)@ == old(self)@.step(report@),
            old(self)@.wf() ==> final(self)@.wf(),
            old(self)@.next() is Some ==> final(self)@.remaining() < old(self)@.remaining(),
    {
        if self.outcome.is_some() {
            return ;
        }
        let phase = match nth_phase(self.mode, self.position) {
            Some(phase) => phase,
            None => {
                return ;
            },
        };
        match judge(phase, &self.key, &report) {
            Some(error) => {
                self.outcome = Some(Err(error));
            },
            None => {
                let last = nth_phase(self.mode, self.position + 1).is_none();
                self.position = self.position + 1;
                match report {
                    Report::Stored(key) => {
                        if last {
                            self.outcome = Some(Ok(Output::Key(key.clone())));
                        }
                        self.key = Some(key);
                    },
                    Report::Returned(value) => {
                        if last {
                            self.outcome = Some(Ok(Output::Value(value)));
                        }
                    },
                    Report::Compiled => {
                        if last {
                            self.outcome = Some(Ok(Output::Artifact));
                        }
                    },
                    _ => {
                        if last {
                            self.outcome = Some(Ok(Output::Instance));
                        }
                    },
                }
            },
        }
    }

    /// The result of the run; `None` while a phase is still due.
    pub fn result(&self) -> (result: Option<Result<Output, AotError>>)
        ensures
            match result {
                Some(Ok(output)) => self@.outcome == Some(Ok::<OutputView, AotError>(output@)),
                Some(Err(error)) => self@.outcome == Some(Err::<OutputView, AotError>(error)),
                None => self@.outcome is None,
            },
    {
        match &self.outcome {
            Some(Ok(Output::Key(key))) => Some(Ok(Output::Key(key.clone()))),
            Some(Ok(Output::Value(value))) => Some(Ok(Output::Value(*value))),
            Some(Ok(Output::Instance)) => Some(Ok(Output::Instance)),
            Some(Ok(Output::Artifact)) => Some(Ok(Output::Artifact)),
            Some(Err(error)) => Some(Err(*error)),
            None => None,
        }
    }

    /// The backend under which the run compiles and loads.
    pub fn backend(&self) -> (backend: Backend)
        ensures
            backend == self@.backend,
    {
        self.backend
    }

    /// The mode of the run.
    pub fn mode(&self) -> (mode: Mode)
        ensures
            mode == self@.mode,
    {
        self.mode
    }

    /// The module bytes that the compile phase works on.
    pub fn module(&self) -> (module: &[u8])
        ensures
            module@ == self@.module,
    {
        self.module.as_slice()
    }

    /// The argument that the call phase passes to the entry point.
    pub fn arg(&self) -> (arg: u32)
        ensures
            arg == self@.arg,
    {
        self.arg
    }

    /// The key of the artifact, once it is known.
    pub fn key(&self) -> (key: Option<String>)
        ensures
            match key {
                Some(k) => self@.key == Some(k@),
                None => self@.key is None,
            },
    {
        match &self.key {
            Some(key) => Some(key.clone()),
            None => None,
        }
    }
}

/// Taking a report first and the rest afterwards is the same as taking them
/// all in one sequence.
pub proof fn lemma_run_first(state: RunState, first: ReportView, rest: Seq<ReportView>)
    ensures
        state.run(seq![first] + rest) == state.step(first).run(rest),
{
    let all = seq![first] + rest;
    assert(all[0] == first);
    assert(all.drop_first() =~= rest);
}

/// Taking one more report after a sequence is the same as taking the
/// sequence with the report at its end.
pub proof fn lemma_run_last(state: RunState, reports: Seq<ReportView>, last: ReportView)
    ensures
        state.run(reports.push(last)) == state.run(reports).step(last),
    decreases reports.len(),
{
    let all = reports.push(last);
    if reports.len() == 0 {
        assert(all.drop_first() =~= Seq::<ReportView>::empty());
        assert(state.step(last).run(Seq::<ReportView>::empty()) == state.step(last));
    } else {
        assert(all[0] == reports[0]);
        assert(all.drop_first() =~= reports.drop_first().push(last));
        lemma_run_last(state.step(reports[0]), reports.drop_first(), last);
    }
}

/// One more report that answers a phase of `own`, made when that phase was
/// due, keeps a sequence of reports one that carrying out phases of `own`
/// gives.
pub proof fn lemma_carried_out_last(
    state: RunState,
    reports: Seq<ReportView>,
    last: ReportView,
    own: Set<Phase>,
)
    requires
        carried_out(state, reports, own),
        state.run(reports).next() matches Some(phase) && own.contains(phase) && answers(
            phase,
            last,
        ),
    ensures
        carried_out(state, reports.push(last), own),
    decreases reports.len(),
{
    let all = reports.push(last);
    if reports.len() == 0 {
        assert(all[0] == last);
        assert(all.drop_first() =~= Seq::<ReportView>::empty());
        assert(state.run(reports) == state);
        assert(carried_out(state.step(last), all.drop_first(), own));
    } else {
        let first = reports[0];
        assert(all[0] == first);
        assert(all.drop_first() =~= reports.drop_first().push(last));
        assert(state.run(reports) == state.step(first).run(reports.drop_first()));
        assert(carried_out(state.step(first), reports.drop_first(), own));
        lemma_carried_out_last(state.step(first), reports.drop_first(), last, own);
    }
}

/// Nothing is carried out for a run whose next phase is not one of `own`:
/// the only sequence of reports that fits is the empty one.
pub proof fn lemma_carried_out_nothing(state: RunState, reports: Seq<ReportView>, own: Set<Phase>)
    requires
        carried_out(state, reports, own),
        state.next() matches Some(phase) ==> !own.contains(phase),
    ensures
        reports.len() == 0,
        state.run(reports) == state,
{
}

/// A run that has ended stays as it is, whatever is reported to it.
pub proof fn lemma_ended_run_is_final(state: RunState, reports: Seq<ReportView>)
    requires
        state.outcome is Some,
    ensures
        state.run(reports) == state,
    decreases reports.len(),
{
    if reports.len() > 0 {
        lemma_ended_run_is_final(state, reports.drop_first());
    }
}

/// The first failure ends the run with the error of the phase that failed,
/// and no later report changes that: nothing is retried.
pub proof fn lemma_first_failure_is_final(
    state: RunState,
    failing: ReportView,
    later: Seq<ReportView>,
)
    requires
        state.next() is Some,
        verdict(state.next().unwrap(), state.key, failing) is Some,
    ensures
        state.step(failing).outcome == Some(
            Err::<OutputView, AotError>(verdict(state.next().unwrap(), state.key, failing).unwrap()),
        ),
        state.step(failing).run(later) == state.step(failing),
{
    lemma_ended_run_is_final(state.step(failing), later);
}

/// The error of each phase: a failed compile is a `CompileError`, a store
/// that fails an `IOError`, a load that finds nothing a `CacheMiss`, a load
/// that finds something unusable a `CacheCorrupt`, a failed instantiation an
/// `InstantiationError`, and a call that does not return a `CallError`.
pub proof fn lemma_error_of_each_phase(key: Option<Seq<char>>, report: ReportView)
    ensures
        verdict(Phase::Compile, key, report) is Some ==> verdict(Phase::Compile, key, report)
            == Some(AotError::CompileError),
        verdict(Phase::Store, key, report) is Some ==> verdict(Phase::Store, key, report) == Some(
            AotError::IOError,
        ),
        verdict(Phase::Load, key, ReportView::Missing) == Some(AotError::CacheMiss),
        verdict(Phase::Load, key, ReportView::Corrupt) == Some(AotError::CacheCorrupt),
        verdict(Phase::Load, key, report) is Some && report != ReportView::Missing ==> verdict(
            Phase::Load,
            key,
            report,
        ) == Some(AotError::CacheCorrupt),
        verdict(Phase::Instantiate, key, report) is Some ==> verdict(
            Phase::Instantiate,
            key,
            report,
        ) == Some(AotError::InstantiationError),
        verdict(Phase::Call, key, report) is Some ==> verdict(Phase::Call, key, report) == Some(
            AotError::CallError,
        ),
        verdict(Phase::Call, key, report) is None <==> report is Returned,
{
}

/// A well-formed run has a phase due exactly as long as it has no outcome.
pub proof fn lemma_progress(state: RunState)
    requires
        state.wf(),
    ensures
        state.next() is Some <==> state.outcome is None,
{
}

/// An error that a phase can end with, handed on as `failure_report` makes
/// it, ends the run with that same error.
pub proof fn lemma_failure_report_keeps_error(
    phase: Phase,
    key: Option<Seq<char>>,
    error: AotError,
    report: ReportView,
)
    requires
        report == (match error {
            AotError::CacheMiss => ReportView::Missing,
            AotError::CacheCorrupt => ReportView::Corrupt,
            _ => ReportView::Failed,
        }),
        match phase {
            Phase::Compile => error == AotError::CompileError,
            Phase::Store => error == AotError::IOError,
            Phase::Load => error == AotError::CacheMiss || error == AotError::CacheCorrupt,
            Phase::Instantiate => error == AotError::InstantiationError,
            Phase::Call => error == AotError::CallError,
        },
    ensures
        verdict(phase, key, report) == Some(error),
{
}

/// A well-formed run stays well-formed.
pub proof fn lemma_step_keeps_wf(state: RunState, report: ReportView)
    requires
        state.wf(),
    ensures
        state.step(report).wf(),
{
}

/// The three phases that end in a call, taken from a state in which they
/// are all that is left: the outcome is the value that the call returned,
/// or the error of the first of them that failed.
proof fn lemma_last_three(
    state: RunState,
    first: Phase,
    a: ReportView,
    instantiated: ReportView,
    returned: ReportView,
)
    requires
        state.outcome is None,
        first != Phase::Store,
        state.position + 3 == plan(state.mode).len(),
        plan(state.mode)[state.position as int] == first,
        plan(state.mode)[(state.position + 1) as int] == Phase::Instantiate,
        plan(state.mode)[(state.position + 2) as int] == Phase::Call,
    ensures
        state.run(seq![a, instantiated, returned]).outcome == (match verdict(first, state.key, a) {
            Some(error) => Some(Err::<OutputView, AotError>(error)),
            None => match verdict(Phase::Instantiate, state.key, instantiated) {
                Some(error) => Some(Err(error)),
                None => match verdict(Phase::Call, state.key, returned) {
                    Some(error) => Some(Err(error)),
                    None => Some(Ok(yield_of(returned))),
                },
            },
        }),
{
    let s1 = state.step(a);
    let s2 = s1.step(instantiated);
    let s3 = s2.step(returned);
    assert(seq![a, instantiated, returned] =~= seq![a] + seq![instantiated, returned]);
    lemma_run_first(state, a, seq![instantiated, returned]);
    assert(seq![instantiated, returned] =~= seq![instantiated] + seq![returned]);
    lemma_run_first(s1, instantiated, seq![returned]);
    assert(seq![returned] =~= seq![returned] + Seq::<ReportView>::empty());
    lemma_run_first(s2, returned, Seq::<ReportView>::empty());
    assert(s3.run(Seq::<ReportView>::empty()) == s3);
    assert(state.run(seq![a, instantiated, returned]) == s3);
    if verdict(first, state.key, a) is Some {
        lemma_ended_run_is_final(s1, seq![instantiated, returned]);
    } else {
        assert(s1.key == state.key);
        if verdict(Phase::Instantiate, s1.key, instantiated) is Some {
            lemma_ended_run_is_final(s2, seq![returned]);
        }
    }
}

/// The outcome of a JIT run: the value that the call returned, or the
/// error of the first phase that failed.
pub proof fn lemma_jit_outcome(
    backend: Backend,
    module: Seq<u8>,
    arg: u32,
    compiled: ReportView,
    instantiated: ReportView,
    returned: ReportView,
)
    ensures
        RunState::start(backend, Mode::Jit, module, None, arg).run(
            seq![compiled, instantiated, returned],
        ).outcome == (match verdict(Phase::Compile, None, compiled) {
            Some(error) => Some(Err::<OutputView, AotError>(error)),
            None => match verdict(Phase::Instantiate, None, instantiated) {
                Some(error) => Some(Err(error)),
                None => match verdict(Phase::Call, None, returned) {
                    Some(error) => Some(Err(error)),
                    None => Some(Ok(yield_of(returned))),
                },
            },
        }),
{
    let start = RunState::start(backend, Mode::Jit, module, None, arg);
    lemma_last_three(start, Phase::Compile, compiled, instantiated, returned);
}

/// The outcome of an AOT-execute run on a key: the value that the call
/// returned, or the error of the first phase that failed.
pub proof fn lemma_aot_execute_outcome(
    backend: Backend,
    key: Seq<char>,
    arg: u32,
    loaded: ReportView,
    instantiated: ReportView,
    returned: ReportView,
)
    requires
        spec_is_key(key),
    ensures
        RunState::start(backend, Mode::AotExecute, Seq::empty(), Some(key), arg).run(
            seq![loaded, instantiated, returned],
        ).outcome == (match verdict(Phase::Load, Some(key), loaded) {
            Some(error) => Some(Err::<OutputView, AotError>(error)),
            None => match verdict(Phase::Instantiate, Some(key), instantiated) {
                Some(error) => Some(Err(error)),
                None => match verdict(Phase::Call, Some(key), returned) {
                    Some(error) => Some(Err(error)),
                    None => Some(Ok(yield_of(returned))),
                },
            },
        }),
{
    let start = RunState::start(backend, Mode::AotExecute, Seq::empty(), Some(key), arg);
    lemma_last_three(start, Phase::Load, loaded, instantiated, returned);
}

/// The outcome of an AOT-compile run: the key under which the artifact was
/// stored, or the error of the phase that failed.
pub proof fn lemma_aot_compile_outcome(
    backend: Backend,
    module: Seq<u8>,
    key: Option<Seq<char>>,
    compiled: ReportView,
    stored: ReportView,
)
    ensures
        RunState::start(backend, Mode::AotCompile, module, key, 0).run(
            seq![compiled, stored],
        ).outcome == (match verdict(Phase::Compile, key, compiled) {
            Some(error) => Some(Err::<OutputView, AotError>(error)),
            None => match verdict(Phase::Store, key, stored) {
                Some(error) => Some(Err(error)),
                None => Some(Ok(yield_of(stored))),
            },
        }),
        verdict(Phase::Compile, key, compiled) is None && verdict(Phase::Store, key, stored)
            is None ==> stored is Stored && yield_of(stored) == OutputView::Key(stored->Stored_0),
{
    let start = RunState::start(backend, Mode::AotCompile, module, key, 0);
    let s1 = start.step(compiled);
    let s2 = s1.step(stored);
    assert(seq![compiled, stored] =~= seq![compiled] + seq![stored]);
    lemma_run_first(start, compiled, seq![stored]);
    assert(seq![stored] =~= seq![stored] + Seq::<ReportView>::empty());
    lemma_run_first(s1, stored, Seq::<ReportView>::empty());
    assert(s2.run(Seq::<ReportView>::empty()) == s2);
    if verdict(Phase::Compile, key, compiled) is Some {
        lemma_ended_run_is_final(s1, seq![stored]);
    }
}

/// AOT-total is AOT-compile followed by AOT-execute on the key it gave:
/// where the compile part fails, the run ends with its error; where it
/// gives a key, the run ends as an AOT-execute run on that key does.
pub proof fn lemma_aot_total_composes(
    backend: Backend,
    module: Seq<u8>,
    key: Option<Seq<char>>,
    arg: u32,
    compiled: ReportView,
    stored: ReportView,
    loaded: ReportView,
    instantiated: ReportView,
    returned: ReportView,
)
    ensures
        RunState::start(backend, Mode::AotTotal, module, key, arg).run(
            seq![compiled, stored, loaded, instantiated, returned],
        ).outcome == (match RunState::start(backend, Mode::AotCompile, module, key, 0).run(
            seq![compiled, stored],
        ).outcome {
            Some(Ok(OutputView::Key(given))) => RunState::start(
                backend,
                Mode::AotExecute,
                Seq::empty(),
                Some(given),
                arg,
            ).run(seq![loaded, instantiated, returned]).outcome,
            Some(Ok(_)) => None,
            Some(Err(error)) => Some(Err(error)),
            None => None,
        }),
{
    let total = RunState::start(backend, Mode::AotTotal, module, key, arg);
    let all = seq![compiled, stored, loaded, instantiated, returned];
    let tail = seq![loaded, instantiated, returned];
    let t1 = total.step(compiled);
    let t2 = t1.step(stored);
    lemma_aot_compile_outcome(backend, module, key, compiled, stored);
    assert(all =~= seq![compiled] + (seq![stored] + tail));
    lemma_run_first(total, compiled, seq![stored] + tail);
    lemma_run_first(t1, stored, tail);
    assert(total.run(all) == t2.run(tail));
    if verdict(Phase::Compile, key, compiled) is Some {
        lemma_ended_run_is_final(t1, seq![stored] + tail);
        lemma_ended_run_is_final(t2, tail);
    } else if verdict(Phase::Store, key, stored) is Some {
        lemma_ended_run_is_final(t2, tail);
    } else {
        let given = stored->Stored_0;
        lemma_last_three(t2, Phase::Load, loaded, instantiated, returned);
        lemma_aot_execute_outcome(backend, given, arg, loaded, instantiated, returned);
    }
}

/// With a cache that stores and loads without fault, AOT-total and JIT end
/// alike: whatever compile, instantiate and call report, both runs give the
/// same value or the same error.
pub proof fn lemma_aot_total_agrees_with_jit(
    backend: Backend,
    module: Seq<u8>,
    arg: u32,
    key: Seq<char>,
    compiled: ReportView,
    instantiated: ReportView,
    returned: ReportView,
)
    requires
        spec_is_key(key),
    ensures
        RunState::start(backend, Mode::AotTotal, module, None, arg).run(
            seq![compiled, ReportView::Stored(key), ReportView::Loaded, instantiated, returned],
        ).outcome == RunState::start(backend, Mode::Jit, module, None, arg).run(
            seq![compiled, instantiated, returned],
        ).outcome,
{
    lemma_aot_total_composes(
        backend,
        module,
        None,
        arg,
        compiled,
        ReportView::Stored(key),
        ReportView::Loaded,
        instantiated,
        returned,
    );
    lemma_aot_compile_outcome(backend, module, None, compiled, ReportView::Stored(key));
    lemma_aot_execute_outcome(backend, key, arg, ReportView::Loaded, instantiated, returned);
    lemma_jit_outcome(backend, module, arg, compiled, instantiated, returned);
}

/// A run that is to load under no key, or under a text that has not the
/// shape of a key, ends with a cache miss before any phase is asked of the
/// host, and stays so whatever is reported.
pub proof fn lemma_no_key_is_cache_miss(
    backend: Backend,
    key: Option<Seq<char>>,
    arg: u32,
    reports: Seq<ReportView>,
)
    requires
        !has_key(key),
    ensures
        RunState::start(backend, Mode::AotExecute, Seq::empty(), key, arg).next() is None,
        RunState::start(backend, Mode::AotExecute, Seq::empty(), key, arg).run(reports).outcome
            == Some(Err::<OutputView, AotError>(AotError::CacheMiss)),
{
    lemma_ended_run_is_final(
        RunState::start(backend, Mode::AotExecute, Seq::empty(), key, arg),
        reports,
    );
}

/// A compile leaves the cache alone: a run of that mode asks for the one
/// compile and never for a store or a load, whatever is reported to it.
pub proof fn lemma_compile_leaves_cache(
    backend: Backend,
    module: Seq<u8>,
    reports: Seq<ReportView>,
)
    ensures
        RunState::start(backend, Mode::Compile, module, None, 0).run(reports).next() != Some(
            Phase::Store,
        ),
        RunState::start(backend, Mode::Compile, module, None, 0).run(reports).next() != Some(
            Phase::Load,
        ),
{
    lemma_mode_keeps(RunState::start(backend, Mode::Compile, module, None, 0), reports);
}

/// Reports change neither the mode of a run nor what it was begun with.
pub proof fn lemma_mode_keeps(state: RunState, reports: Seq<ReportView>)
    ensures
        state.run(reports).mode == state.mode,
        state.run(reports).backend == state.backend,
        state.run(reports).module == state.module,
        state.run(reports).arg == state.arg,
    decreases reports.len(),
{
    if reports.len() > 0 {
        lemma_mode_keeps(state.step(reports[0]), reports.drop_first());
    }
}

/// The key of an AOT-compile run is the key of the artifact that was
/// stored: where the host stores an artifact under the key that its bytes
/// give it, the run ends with that key, the same on every run and for every
/// artifact of the same bytes, and the directory holds the artifact under
/// it.
pub proof fn lemma_aot_compile_gives_artifact_key(
    backend: Backend,
    module: Seq<u8>,
    artifact: Seq<u8>,
    dir: Map<Seq<char>, Seq<u8>>,
    root: Seq<char>,
)
    requires
        spec_is_key(spec_artifact_key(artifact)),
    ensures
        RunState::start(backend, Mode::AotCompile, module, None, 0).run(
            seq![ReportView::Compiled, ReportView::Stored(spec_artifact_key(artifact))],
        ).outcome == Some(
            Ok::<OutputView, AotError>(OutputView::Key(spec_artifact_key(artifact))),
        ),
        load_entry(
            store_artifact(dir, root, backend, artifact),
            root,
            backend,
            spec_artifact_key(artifact),
        ) == Some(artifact),
{
    lemma_aot_compile_outcome(
        backend,
        module,
        None,
        ReportView::Compiled,
        ReportView::Stored(spec_artifact_key(artifact)),
    );
}

/// What an honest host reports of a load: `Missing` where the directory
/// holds no entry for the backend and the key, else `Loaded` or `Corrupt`
/// as the backend can or cannot use the bytes it finds.
pub open spec fn load_report(
    dir: Map<Seq<char>, Seq<u8>>,
    root: Seq<char>,
    backend: Backend,
    key: Seq<char>,
    usable: spec_fn(Seq<u8>) -> bool,
) -> ReportView {
    match load_entry(dir, root, backend, key) {
        None => read_report(None, false),
        Some(bytes) => read_report(Some(bytes), usable(bytes)),
    }
}

/// An AOT-execute run on a key that was never stored ends with a cache
/// miss, whatever is reported afterwards.
pub proof fn lemma_never_stored_is_cache_miss(
    dir: Map<Seq<char>, Seq<u8>>,
    root: Seq<char>,
    backend: Backend,
    key: Seq<char>,
    arg: u32,
    usable: spec_fn(Seq<u8>) -> bool,
    later: Seq<ReportView>,
)
    requires
        load_entry(dir, root, backend, key) is None,
    ensures
        RunState::start(backend, Mode::AotExecute, Seq::empty(), Some(key), arg).run(
            seq![load_report(dir, root, backend, key, usable)] + later,
        ).outcome == Some(Err::<OutputView, AotError>(AotError::CacheMiss)),
{
    let start = RunState::start(backend, Mode::AotExecute, Seq::empty(), Some(key), arg);
    let report = load_report(dir, root, backend, key, usable);
    if spec_is_key(key) {
        lemma_run_first(start, report, later);
        lemma_first_failure_is_final(start, report, later);
    } else {
        lemma_ended_run_is_final(start, seq![report] + later);
    }
}

/// A store under one backend does not make the artifact loadable under
/// another: where the other backend had no entry for the key before, an
/// AOT-execute run under it still ends with a cache miss.
pub proof fn lemma_load_under_other_backend_fails(
    dir: Map<Seq<char>, Seq<u8>>,
    root: Seq<char>,
    stored_under: Backend,
    key: Seq<char>,
    artifact: Seq<u8>,
    loaded_under: Backend,
    arg: u32,
    usable: spec_fn(Seq<u8>) -> bool,
    later: Seq<ReportView>,
)
    requires
        stored_under != loaded_under,
        load_entry(dir, root, loaded_under, key) is None,
    ensures
        RunState::start(loaded_under, Mode::AotExecute, Seq::empty(), Some(key), arg).run(
            seq![
                load_report(
                    store_entry(dir, root, stored_under, key, artifact),
                    root,
                    loaded_under,
                    key,
                    usable,
                ),
            ] + later,
        ).outcome == Some(Err::<OutputView, AotError>(AotError::CacheMiss)),
{
    crate::cache::lemma_backends_isolated(
        dir,
        root,
        stored_under,
        key,
        artifact,
        loaded_under,
        key,
    );
    lemma_never_stored_is_cache_miss(
        store_entry(dir, root, stored_under, key, artifact),
        root,
        loaded_under,
        key,
        arg,
        usable,
        later,
    );
}

/// An entry that the backend cannot use ends an AOT-execute run with
/// `CacheCorrupt`: its bytes are never taken for an artifact.
pub proof fn lemma_unusable_entry_is_corrupt(
    dir: Map<Seq<char>, Seq<u8>>,
    root: Seq<char>,
    backend: Backend,
    key: Seq<char>,
    arg: u32,
    usable: spec_fn(Seq<u8>) -> bool,
    later: Seq<ReportView>,
)
    requires
        spec_is_key(key),
        load_entry(dir, root, backend, key) matches Some(bytes) && !usable(bytes),
    ensures
        RunState::start(backend, Mode::AotExecute, Seq::empty(), Some(key), arg).run(
            seq![load_report(dir, root, backend, key, usable)] + later,
        ).outcome == Some(Err::<OutputView, AotError>(AotError::CacheCorrupt)),
{
    let start = RunState::start(backend, Mode::AotExecute, Seq::empty(), Some(key), arg);
    let report = load_report(dir, root, backend, key, usable);
    lemma_run_first(start, report, later);
    lemma_first_failure_is_final(start, report, later);
}

} // verus!
