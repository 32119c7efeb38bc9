//! The ahead-of-time backend: modules compiled to shared objects and run
//! by the Lucet runtime.
//!
//! Instantiating and calling go through `lucet_runtime`, one by one or, for
//! a run, in a `Session`. Compiling a module and loading a shared object
//! are the host's part: after a compile and after a load the host hands in
//! what the loader gave for the shared object, a module or a fault, and the
//! library decides what it amounts to.

use crate::backend::Backend;
use crate::cache::{entry_path, is_key, spec_entry_path, spec_is_key};
use crate::runner::{
    carried_out, classify_call, engine_error, failure_report, lemma_carried_out_last,
    lemma_run_last, AotError, CallOutcome, Mode, OutputView, Phase, Report, ReportView, Run,
    RunState, ENTRY_POINT,
};
use lucet_runtime::{DlModule, InstanceHandle, Limits, MmapRegion, Region, RunResult};
use std::sync::Arc;
use vstd::prelude::*;

verus! {

/// A module that was loaded from a shared object. Opaque: it is only
/// handed on to the runtime.
#[verifier::external_type_specification]
#[verifier::external_body]
pub struct ExDlModule(lucet_runtime::DlModule);

/// A region of memory in which instances live. Opaque.
#[verifier::external_type_specification]
#[verifier::external_body]
pub struct ExMmapRegion(lucet_runtime::MmapRegion);

/// An instance of a module, with its memory. Opaque.
#[verifier::external_type_specification]
#[verifier::external_body]
pub struct ExInstanceHandle(lucet_runtime::InstanceHandle);

/// Why a shared object could not be loaded.
#[derive(Clone, Copy, Debug, PartialEq, Eq, Structural)]
pub enum LoadFault {
    /// No file exists at the path.
    NotFound,
    /// A file exists, but it is not a module that this runtime can use.
    Unusable,
}

/// The directory under which compiled modules are kept.
pub const CACHE_ROOT: &'static str = "./tmp";

/// How many instances a region is made for.
pub const INSTANCE_CAPACITY: usize = 1;

/// The most heap that an instance may back with memory: 8 MiB.
pub const HEAP_MEMORY_SIZE: usize = 8 * 1024 * 1024;

/// The size of an instance's stack: 128 KiB.
pub const STACK_SIZE: usize = 128 * 1024;

/// Calls `lucet_runtime::MmapRegion::create` with the default limits but
/// for the two sizes given.
///
/// Trusted: nothing is claimed of the outcome, which depends on the memory
/// that the system grants. The bounds keep the sum of the sizes that the
/// runtime adds up within `usize` and the capacity within what a vector
/// can hold.
#[verifier::external_body]
fn create_region(capacity: usize, heap_memory_size: usize, stack_size: usize) -> (region: Option<
    Arc<MmapRegion>,
>)
    requires
        capacity <= 0x1_0000,
        stack_size <= 0x4000_0000,
{
    let limits = Limits { heap_memory_size, stack_size, ..Limits::default() };
    MmapRegion::create(capacity, &limits).ok()
}

/// Calls `lucet_runtime::Region::new_instance` on the region.
///
/// Trusted: nothing is claimed of the outcome. The module's start section,
/// if it has one, runs during the call.
#[verifier::external_body]
fn new_instance(region: &Arc<MmapRegion>, module: Arc<DlModule>) -> (instance: Option<
    InstanceHandle,
>) {
    region.new_instance(module).ok()
}

/// Calls `lucet_runtime::Instance::run` with the one argument, and reads a
/// returned value with `UntypedRetVal::as_u32`.
///
/// Trusted: nothing is claimed of the outcome, which is up to the guest
/// code. A guest that loops forever keeps the call from returning.
#[verifier::external_body]
fn run_entry(instance: &mut InstanceHandle, entry: &str, arg: u32) -> (outcome: CallOutcome) {
    match instance.run(entry, &[arg.into()]) {
        Ok(RunResult::Returned(value)) => CallOutcome::Returned(value.as_u32()),
        Ok(RunResult::Yielded(_)) => CallOutcome::Yielded,
        Err(_) => CallOutcome::Failed,
    }
}

/// The path of the shared object that `key` names, under `CACHE_ROOT`.
///
/// A text that has not the shape of a key names no entry: it is a cache
/// miss, and no path is made of it.
pub fn shared_object_path(key: &str) -> (path: Result<String, AotError>)
    ensures
        match path {
            Ok(path) => spec_is_key(key@) && path@ == spec_entry_path(
                CACHE_ROOT@,
                Backend::Lucet,
                key@,
            ),
            Err(error) => !spec_is_key(key@) && error == AotError::CacheMiss,
        },
{
    if is_key(key) {
        Ok(entry_path(CACHE_ROOT, Backend::Lucet, key))
    } else {
        Err(AotError::CacheMiss)
    }
}

/// Begins a run that compiles `wasm_bytes` and does nothing else: the
/// artifact stays with the host and the cache is left as it was.
pub fn compile(wasm_bytes: &[u8]) -> (run: Run)
    ensures
        run@ == RunState::start(Backend::Lucet, Mode::Compile, wasm_bytes@, None, 0),
        run@.wf(),
        run@.next() == Some(Phase::Compile),
{
    Run::start(Backend::Lucet, Mode::Compile, wasm_bytes, None, 0)
}

/// Begins a run that compiles `wasm_bytes` and stores the artifact; its
/// result is the key that the artifact's own bytes give it.
pub fn aot_c(wasm_bytes: &[u8]) -> (run: Run)
    ensures
        run@ == RunState::start(Backend::Lucet, Mode::AotCompile, wasm_bytes@, None, 0),
        run@.wf(),
        run@.next() == Some(Phase::Compile),
{
    Run::start(Backend::Lucet, Mode::AotCompile, wasm_bytes, None, 0)
}

/// Begins a run that compiles `wasm_bytes`, stores the artifact, loads it
/// again under the key that the store gave, and calls the entry point with
/// `arg`.
pub fn aot_t(wasm_bytes: &[u8], arg: u32) -> (run: Run)
    ensures
        run@ == RunState::start(Backend::Lucet, Mode::AotTotal, wasm_bytes@, None, arg),
        run@.wf(),
        run@.next() == Some(Phase::Compile),
{
    Run::start(Backend::Lucet, Mode::AotTotal, wasm_bytes, None, arg)
}

/// Begins a run that compiles `wasm_bytes` and leaves an instance ready to
/// be called.
pub fn prepare(wasm_bytes: &[u8]) -> (run: Run)
    ensures
        run@ == RunState::start(Backend::Lucet, Mode::Prepare, wasm_bytes@, None, 0),
        run@.wf(),
        run@.next() == Some(Phase::Compile),
{
    Run::start(Backend::Lucet, Mode::Prepare, wasm_bytes, None, 0)
}

/// What a load amounts to, given what the loader said: a missing file is a
/// cache miss, a file that is no usable module is a corrupt entry.
pub fn classify_load(loaded: Result<Arc<DlModule>, LoadFault>) -> (result: Result<
    Arc<DlModule>,
    AotError,
>)
    ensures
        match loaded {
            Ok(module) => result == Ok::<Arc<DlModule>, AotError>(module),
            Err(LoadFault::NotFound) => result == Err::<Arc<DlModule>, AotError>(
                AotError::CacheMiss,
            ),
            Err(LoadFault::Unusable) => result == Err::<Arc<DlModule>, AotError>(
                AotError::CacheCorrupt,
            ),
        },
{
    match loaded {
        Ok(module) => Ok(module),
        Err(LoadFault::NotFound) => Err(AotError::CacheMiss),
        Err(LoadFault::Unusable) => Err(AotError::CacheCorrupt),
    }
}

/// What an instantiation amounts to, given what the runtime made: the
/// instance, or an instantiation error where it made none.
pub fn classify_instance(created: Option<InstanceHandle>) -> (result: Result<
    InstanceHandle,
    AotError,
>)
    ensures
        match created {
            Some(instance) => result == Ok::<InstanceHandle, AotError>(instance),
            None => result == Err::<InstanceHandle, AotError>(AotError::InstantiationError),
        },
{
    match created {
        Some(instance) => Ok(instance),
        None => Err(AotError::InstantiationError),
    }
}

/// Creates an instance of a loaded module, in a region of its own that
/// allows `HEAP_MEMORY_SIZE` of heap and `STACK_SIZE` of stack.
pub fn instantiate_loaded(module: Arc<DlModule>) -> (result: Result<InstanceHandle, AotError>)
    ensures
        result matches Err(error) ==> error == AotError::InstantiationError,
{
    // Without a region there is nothing to create the instance in, and so
    // no instance.
    let created = match create_region(INSTANCE_CAPACITY, HEAP_MEMORY_SIZE, STACK_SIZE) {
        Some(region) => new_instance(&region, module),
        None => None,
    };
    classify_instance(created)
}

/// Goes on from a load: a load that failed is handed on as it is, with no
/// instantiation tried; a module that was loaded is instantiated.
pub fn instantiate_if_loaded(loaded: Result<Arc<DlModule>, AotError>) -> (result: Result<
    InstanceHandle,
    AotError,
>)
    ensures
        match loaded {
            Err(error) => result == Err::<InstanceHandle, AotError>(error),
            Ok(_) => result matches Err(error) ==> error == AotError::InstantiationError,
        },
{
    match loaded {
        Ok(module) => instantiate_loaded(module),
        Err(error) => Err(error),
    }
}

/// Creates an instance of what the loader gave for a module id.
///
/// A missing shared object is a cache miss and one that cannot be used a
/// corrupt entry, with no instantiation tried; a loaded module is
/// instantiated.
pub fn instantiate(loaded: Result<Arc<DlModule>, LoadFault>) -> (result: Result<
    InstanceHandle,
    AotError,
>)
    ensures
        match loaded {
            Err(LoadFault::NotFound) => result == Err::<InstanceHandle, AotError>(
                AotError::CacheMiss,
            ),
            Err(LoadFault::Unusable) => result == Err::<InstanceHandle, AotError>(
                AotError::CacheCorrupt,
            ),
            Ok(_) => result matches Err(error) ==> error == AotError::InstantiationError,
        },
{
    instantiate_if_loaded(classify_load(loaded))
}

/// Calls the entry point of the instance with `arg`.
pub fn call(instance: &mut InstanceHandle, arg: u32) -> (result: Result<u32, AotError>)
    ensures
        result matches Err(error) ==> error == AotError::CallError,
{
    classify_call(run_entry(instance, ENTRY_POINT, arg))
}

/// Goes on from an instantiation: one that failed is handed on as it is,
/// with no call tried; the entry point of an instance is called with `arg`.
pub fn call_if_ready(instantiated: Result<InstanceHandle, AotError>, arg: u32) -> (result: Result<
    u32,
    AotError,
>)
    ensures
        match instantiated {
            Err(error) => result == Err::<u32, AotError>(error),
            Ok(_) => result matches Err(error) ==> error == AotError::CallError,
        },
{
    match instantiated {
        Ok(instance) => {
            let mut instance = instance;
            call(&mut instance, arg)
        },
        Err(error) => Err(error),
    }
}

/// Instantiates what the loader gave for a module id and calls its entry
/// point with `arg`.
///
/// A missing shared object is a cache miss and one that cannot be used a
/// corrupt entry; neither is instantiated or called, and neither gives a
/// value.
pub fn aot_e(loaded: Result<Arc<DlModule>, LoadFault>, arg: u32) -> (result: Result<u32, AotError>)
    ensures
        match loaded {
            Err(LoadFault::NotFound) => result == Err::<u32, AotError>(AotError::CacheMiss),
            Err(LoadFault::Unusable) => result == Err::<u32, AotError>(AotError::CacheCorrupt),
            Ok(_) => result matches Err(error) ==> error == AotError::InstantiationError || error
                == AotError::CallError,
        },
{
    let instantiated = instantiate(loaded);
    call_if_ready(instantiated, arg)
}

/// What can be said of a session without looking into the runtime.
pub struct SessionState {
    /// Whether the session holds a loaded module that has no instance yet.
    pub loaded: bool,
    /// Whether the session holds an instance.
    pub ready: bool,
}

impl SessionState {
    /// Whether a session in this state cannot carry out `phase` of a run
    /// under `backend`, before the runtime is even asked: the run is of
    /// another backend, the phase is the host's, or the session lacks what
    /// the phase needs.
    pub open spec fn cannot(self, backend: Backend, phase: Phase) -> bool {
        backend != Backend::Lucet || (match phase {
            Phase::Instantiate => !self.loaded,
            Phase::Call => !self.ready,
            _ => true,
        })
    }
}

/// The runtime with what it holds between the phases of a run: the module
/// that the host loaded, and the instance made from it.
pub struct Session {
    module: Option<Arc<DlModule>>,
    instance: Option<InstanceHandle>,
}

impl View for Session {
    type V = SessionState;

    closed spec fn view(&self) -> SessionState {
        SessionState { loaded: self.module is Some, ready: self.instance is Some }
    }
}

/// The phases that the runtime carries out itself.
pub open spec fn own_phases() -> Set<Phase> {
    set![Phase::Instantiate, Phase::Call]
}

/// Tells whether a backend is the one of this runtime.
fn is_lucet(backend: Backend) -> (yes: bool)
    ensures
        yes == (backend == Backend::Lucet),
{
    backend == Backend::Lucet
}

impl Session {
    /// A fresh session, with nothing loaded yet.
    pub fn new() -> (session: Session)
        ensures
            session@ == (SessionState { loaded: false, ready: false }),
    {
        Session { module: None, instance: None }
    }

    /// Takes what the loader gave for the shared object that the compiler
    /// has just written, and says what that amounts to as the report on a
    /// compile. The host hands this in after every compile, whatever the
    /// mode of the run: a module is the compiled artifact and is kept for an
    /// instantiation; a fault of either kind means that the compile gave
    /// nothing of use, and the session stays as it was.
    pub fn compiled(&mut self, loaded: Result<Arc<DlModule>, LoadFault>) -> (report: Report)
        ensures
            match loaded {
                Ok(_) => report@ == ReportView::Compiled && final(self)@ == (SessionState {
                    loaded: true,
                    ..old(self)@
                }),
                Err(_) => report@ == ReportView::Failed && final(self)@ == old(self)@,
            },
    {
        match loaded {
            Ok(module) => {
                self.module = Some(module);
                Report::Compiled
            },
            Err(_) => Report::Failed,
        }
    }

    /// Takes what the loader gave for the shared object of a run, and says
    /// what that amounts to as the report on a load: a module is kept for
    /// the instantiation, a missing file is reported as missing, a file that
    /// cannot be used as corrupt.
    pub fn adopt(&mut self, loaded: Result<Arc<DlModule>, LoadFault>) -> (report: Report)
        ensures
            match loaded {
                Ok(_) => report@ == ReportView::Loaded && final(self)@ == (SessionState {
                    loaded: true,
                    ..old(self)@
                }),
                Err(LoadFault::NotFound) => report@ == ReportView::Missing && final(self)@ == old(self)@,
                Err(LoadFault::Unusable) => report@ == ReportView::Corrupt && final(self)@ == old(self)@,
            },
    {
        match classify_load(loaded) {
            Ok(module) => {
                self.module = Some(module);
                Report::Loaded
            },
            Err(error) => failure_report(error),
        }
    }

    /// Instantiates the module that the session holds. The module goes
    /// into the instance, whether that can be made or not.
    ///
    /// Fails with `InstantiationError`, and always does so where the session
    /// holds no module.
    pub fn instantiate(&mut self) -> (result: Result<(), AotError>)
        ensures
            !old(self)@.loaded ==> result is Err && final(self)@ == old(self)@,
            !final(self)@.loaded,
            match result {
                Ok(()) => final(self)@.ready,
                Err(error) => error == AotError::InstantiationError && final(self)@.ready == old(self)@.ready,
            },
    {
        let instance = match self.module.take() {
            Some(module) => instantiate_loaded(module),
            None => Err(AotError::InstantiationError),
        };
        match instance {
            Ok(instance) => {
                self.instance = Some(instance);
                Ok(())
            },
            Err(error) => Err(error),
        }
    }

    /// Calls the entry point of the session's instance with `arg`.
    ///
    /// Fails with `CallError`, and always does so where the session holds
    /// no instance.
    pub fn call(&mut self, arg: u32) -> (result: Result<u32, AotError>)
        ensures
            final(self)@ == old(self)@,
            !old(self)@.ready ==> result is Err,
            result matches Err(error) ==> error == AotError::CallError,
    {
        match &mut self.instance {
            Some(instance) => call(instance, arg),
            None => Err(AotError::CallError),
        }
    }

    /// Carries out `phase` of `run` where the runtime can, and says how it
    /// went. A run of another backend is not carried out, and neither are
    /// compiling, storing and loading, which are the host's: they are
    /// reported as failed, and the session stays as it was.
    pub fn perform(&mut self, run: &Run, phase: Phase) -> (report: Report)
        ensures
            match phase {
                Phase::Instantiate => report@ == ReportView::Instantiated || report@
                    == ReportView::Failed,
                Phase::Call => report@ is Returned || report@ == ReportView::Failed,
                _ => report@ == ReportView::Failed,
            },
            old(self)@.cannot(run@.backend, phase) ==> report@ == ReportView::Failed && final(self)@
                == old(self)@,
            phase != Phase::Instantiate ==> final(self)@.loaded == old(self)@.loaded,
            phase == Phase::Instantiate && !old(self)@.cannot(run@.backend, phase) ==> !final(self)@.loaded,
            final(self)@.ready == (old(self)@.ready || report@ == ReportView::Instantiated),
    {
        if !is_lucet(run.backend()) {
            return Report::Failed;
        }
        match phase {
            Phase::Instantiate => match self.instantiate() {
                Ok(()) => Report::Instantiated,
                Err(error) => failure_report(error),
            },
            Phase::Call => match self.call(run.arg()) {
                Ok(value) => Report::Returned(value),
                Err(error) => failure_report(error),
            },
            _ => Report::Failed,
        }
    }

    /// Carries `run` through its phases for as long as the one that is due
    /// is the runtime's: until the run has ended, or a phase is due that is
    /// the host's to carry out. A run that asks for a phase of the host is
    /// left as it is. A run that the session cannot carry out, for want of
    /// a module or an instance, or because it is of another backend, ends
    /// with the error of the phase that was due.
    pub fn drive(&mut self, run: &mut Run)
        requires
            old(run)@.wf(),
        ensures
            final(run)@.wf(),
            final(run)@.backend == old(run)@.backend,
            final(run)@.mode == old(run)@.mode,
            final(run)@.module == old(run)@.module,
            final(run)@.arg == old(run)@.arg,
            final(run)@.next() matches Some(phase) ==> !own_phases().contains(phase),
            old(run)@.next() matches Some(phase) ==> !own_phases().contains(phase) ==> final(run)@
                == old(run)@ && final(self)@ == old(self)@,
            old(run)@.next() is None ==> final(run)@ == old(run)@ && final(self)@ == old(self)@,
            old(run)@.next() matches Some(phase) ==> own_phases().contains(phase) && old(self)@.cannot(
                old(run)@.backend,
                phase,
            ) ==> final(run)@.outcome == Some(Err::<OutputView, AotError>(engine_error(phase)))
                && final(self)@ == old(self)@,
            exists|reports: Seq<ReportView>|
                final(run)@ == old(run)@.run(reports) && carried_out(
                    old(run)@,
                    reports,
                    own_phases(),
                ),
    {
        let ghost mut reports = Seq::<ReportView>::empty();
        loop
            invariant
                run@ == old(run)@.run(reports),
                carried_out(old(run)@, reports, own_phases()),
                reports.len() == 0 ==> self@ == old(self)@,
                run@.wf(),
                run@.backend == old(run)@.backend,
                run@.mode == old(run)@.mode,
                run@.module == old(run)@.module,
                run@.arg == old(run)@.arg,
                old(run)@.next() is None ==> reports.len() == 0,
                old(run)@.next() matches Some(phase) ==> !own_phases().contains(phase)
                    ==> reports.len() == 0,
                old(run)@.next() matches Some(phase) ==> reports.len() > 0 && old(self)@.cannot(
                    old(run)@.backend,
                    phase,
                ) ==> run@.outcome == Some(Err::<OutputView, AotError>(engine_error(phase)))
                    && self@ == old(self)@,
            ensures
                run@.next() matches Some(phase) ==> !own_phases().contains(phase),
            decreases run@.remaining(),
        {
            let phase = match run.next() {
                Some(Phase::Instantiate) => Phase::Instantiate,
                Some(Phase::Call) => Phase::Call,
                _ => {
                    break ;
                },
            };
            let report = self.perform(run, phase);
            proof {
                lemma_run_last(old(run)@, reports, report@);
                lemma_carried_out_last(old(run)@, reports, report@, own_phases());
                reports = reports.push(report@);
            }
            run.report(report);
        }
    }

    /// Ends the session and hands out its instance, if it has one.
    pub fn into_instance(self) -> (instance: Option<InstanceHandle>)
        ensures
            instance is Some <==> self@.ready,
    {
        self.instance
    }
}

} // verus!
