//! The in-process engines: one wrapper per backend, with the four modes of
//! operation and the two halves of a timed call.
//!
//! Compiling, instantiating and calling go through `wasmer`. Writing an
//! artifact to the cache and reading it back are the host's part, so the
//! modes that go through the cache are runs that the host drives; a
//! `Session` carries out the phases in between.
//!
//! The engines of two compilers are made here. The engine of any other is
//! made by the host and handed in; a session that has none cannot compile,
//! whatever its backend is called.

use crate::backend::Backend;
use crate::cache::{artifact_key, spec_artifact_key, spec_is_key};
pub use crate::runner::AotError;
use crate::runner::{
    carried_out, classify_call, classify_lookup, engine_error, failure_report,
    lemma_carried_out_last, lemma_run_last, Mode, Output, OutputView, Phase, Report, ReportView,
    Run, RunState, ENTRY_POINT,
};
use vstd::prelude::*;
use vstd::string::*;
use wasmer::sys::{Cranelift, Singlepass};
use wasmer::{Engine, Imports, Instance, Module, Store, TypedFunction};

verus! {

/// The engine's store: the compiler in use and everything that lives in
/// its instances. Opaque.
#[verifier::external_type_specification]
#[verifier::external_body]
pub struct ExStore(wasmer::Store);

/// A compiled module. Opaque.
#[verifier::external_type_specification]
#[verifier::external_body]
pub struct ExModule(wasmer::Module);

/// An instance of a module. Opaque.
#[verifier::external_type_specification]
#[verifier::external_body]
pub struct ExInstance(wasmer::Instance);

/// An engine: a compiler with its settings, of which stores are made.
/// Opaque.
#[verifier::external_type_specification]
#[verifier::external_body]
pub struct ExEngine(wasmer::Engine);

/// An exported function with its signature checked. Opaque.
#[verifier::external_type_specification]
#[verifier::external_body]
#[verifier::reject_recursive_types(Args)]
#[verifier::reject_recursive_types(Rets)]
pub struct ExTypedFunction<Args, Rets>(wasmer::TypedFunction<Args, Rets>);

/// Calls `wasmer::Store::new` on `wasmer::Singlepass::default()`.
///
/// Trusted: nothing is claimed of the store.
#[verifier::external_body]
fn singlepass_store() -> (store: Store) {
    Store::new(Singlepass::default())
}

/// Calls `wasmer::Store::new` on `wasmer::Cranelift::default()`.
///
/// Trusted: nothing is claimed of the store.
#[verifier::external_body]
fn cranelift_store() -> (store: Store) {
    Store::new(Cranelift::default())
}

/// Calls `wasmer::Store::new` on a copy of the engine.
///
/// Trusted: nothing is claimed of the store.
#[verifier::external_body]
fn store_of(engine: &Engine) -> (store: Store) {
    Store::new(engine.clone())
}

/// Calls `wasmer::Module::from_binary`, which validates the bytes and
/// compiles them with the compiler of the store.
///
/// Trusted: nothing is claimed of the outcome.
#[verifier::external_body]
fn compile_binary(store: &Store, wasm_bytes: &[u8]) -> (module: Option<Module>) {
    Module::from_binary(store, wasm_bytes).ok()
}

/// Calls `wasmer::Module::serialize` and copies the bytes it gives.
///
/// Trusted: nothing is claimed of the outcome.
#[verifier::external_body]
fn serialize_module(module: &Module) -> (bytes: Option<Vec<u8>>) {
    module.serialize().ok().map(|bytes| bytes.to_vec())
}

/// Calls `wasmer::Instance::new` with the imports of `wasmer::Imports::new`,
/// which are none.
///
/// Trusted: nothing is claimed of the outcome. The module's start function,
/// if it has one, runs during the call.
#[verifier::external_body]
fn instantiate_module(store: &mut Store, module: &Module) -> (instance: Option<Instance>) {
    Instance::new(store, module, &Imports::new()).ok()
}

/// Calls `wasmer::Exports::get_typed_function` for a function from one
/// `u32` to one `u32`.
///
/// Trusted: nothing is claimed of the outcome. An export that is missing,
/// is no function, or has another signature comes back as `None`.
#[verifier::external_body]
fn find_export(store: &Store, instance: &Instance, name: &str) -> (entry: Option<
    TypedFunction<u32, u32>,
>) {
    instance.exports.get_typed_function::<u32, u32>(store, name).ok()
}

/// Calls `wasmer::TypedFunction::call` with the one argument.
///
/// Trusted: nothing is claimed of the outcome, which is up to the guest
/// code. A call that traps comes back as `None`. A guest that loops forever
/// keeps the call from returning.
#[verifier::external_body]
fn call_function(store: &mut Store, entry: &TypedFunction<u32, u32>, arg: u32) -> (value: Option<
    u32,
>) {
    entry.call(store, arg).ok()
}

/// The phases that the engine carries out itself.
pub open spec fn own_phases() -> Set<Phase> {
    set![Phase::Compile, Phase::Instantiate, Phase::Call]
}

/// The outcome of a run that ends in a call, as the result of a function
/// that gives the value.
pub open spec fn value_outcome(result: Result<u32, AotError>) -> Result<OutputView, AotError> {
    match result {
        Ok(value) => Ok(OutputView::Value(value)),
        Err(error) => Err(error),
    }
}

/// The backends whose engine the library is sure to make itself. The
/// engine of any other backend is handed in by the host, with a store or
/// with the engine itself.
pub open spec fn spec_built_in(backend: Backend) -> bool {
    backend == Backend::Singlepass || backend == Backend::Cranelift
}

/// A serialized artifact with the key under which it belongs in the cache.
pub struct Artifact {
    pub key: String,
    pub bytes: Vec<u8>,
}

/// What can be said of a session without looking into the engine.
pub struct SessionState {
    /// The backend that the session compiles with.
    pub backend: Backend,
    /// Whether the session has a store to compile and to run in.
    pub engine: bool,
    /// Whether the session holds a module, compiled or loaded.
    pub compiled: bool,
    /// Whether the session holds an instance.
    pub ready: bool,
}

impl SessionState {
    /// Whether a session in this state cannot carry out `phase` of a run
    /// under `backend`, before the engine is even asked: the run is of
    /// another backend, or the session lacks what the phase needs.
    pub open spec fn cannot(self, backend: Backend, phase: Phase) -> bool {
        backend != self.backend || (match phase {
            Phase::Compile => !self.engine,
            Phase::Instantiate => !self.engine || !self.compiled,
            Phase::Call => !self.ready,
            Phase::Store | Phase::Load => true,
        })
    }
}

/// The engine of one backend with what it holds between the phases of a
/// run: the module, once there is one, and the instance made from it.
pub struct Session {
    backend: Backend,
    store: Option<Store>,
    module: Option<Module>,
    instance: Option<Instance>,
}

impl View for Session {
    type V = SessionState;

    closed spec fn view(&self) -> SessionState {
        SessionState {
            backend: self.backend,
            engine: self.store is Some,
            compiled: self.module is Some,
            ready: self.instance is Some,
        }
    }
}

impl Session {
    /// Whether `new` gives a session of the backend a store.
    pub closed spec fn makes_store(backend: Backend) -> bool {
        spec_built_in(backend)
    }

    /// A session is sound when it has no instance without a store.
    pub open spec fn wf(&self) -> bool {
        self@.ready ==> self@.engine
    }

    /// A fresh session of `backend`, with nothing compiled yet. It has a
    /// store where the library makes the engine of the backend itself; for
    /// a backend whose engine the host must bring, `with_store` is the way
    /// to a session that can compile.
    pub fn new(backend: Backend) -> (session: Session)
        ensures
            session.wf(),
            session@.backend == backend,
            !session@.compiled,
            !session@.ready,
            session@.engine == Self::makes_store(backend),
            spec_built_in(backend) ==> Self::makes_store(backend),
    {
        let store = match backend {
            Backend::Singlepass => Some(singlepass_store()),
            Backend::Cranelift => Some(cranelift_store()),
            _ => None,
        };
        Session { backend, store, module: None, instance: None }
    }

    /// A fresh session of `backend` around a store that the host has made,
    /// with the compiler of its choice.
    pub fn with_store(backend: Backend, store: Store) -> (session: Session)
        ensures
            session.wf(),
            session@ == (SessionState { backend, engine: true, compiled: false, ready: false }),
    {
        Session { backend, store: Some(store), module: None, instance: None }
    }

    /// The backend of the session.
    pub fn backend(&self) -> (backend: Backend)
        ensures
            backend == self@.backend,
    {
        self.backend
    }

    /// The store of the session, for a host that loads a module into it.
    pub fn store(&self) -> (store: Option<&Store>)
        ensures
            store is Some <==> self@.engine,
    {
        self.store.as_ref()
    }

    /// The module that the session holds, if any.
    pub fn module(&self) -> (module: Option<&Module>)
        ensures
            module is Some <==> self@.compiled,
    {
        self.module.as_ref()
    }

    /// Compiles `wasm_bytes` in the store of the session.
    ///
    /// Fails with `CompileError`, and always does so where the session has
    /// no store; the session is then as it was.
    pub fn compile(&mut self, wasm_bytes: &[u8]) -> (result: Result<(), AotError>)
        requires
            old(self).wf(),
        ensures
            final(self).wf(),
            !old(self)@.engine ==> result is Err,
            match result {
                Ok(()) => final(self)@ == (SessionState { compiled: true, ..old(self)@ }),
                Err(error) => error == AotError::CompileError && final(self)@ == old(self)@,
            },
    {
        let compiled = match &self.store {
            Some(store) => compile_binary(store, wasm_bytes),
            None => None,
        };
        match compiled {
            Some(module) => {
                self.module = Some(module);
                Ok(())
            },
            None => Err(AotError::CompileError),
        }
    }

    /// Serializes the module of the session and derives its key.
    ///
    /// Fails with `IOError`, and always does so where the session holds no
    /// module.
    pub fn artifact(&self) -> (result: Result<Artifact, AotError>)
        ensures
            !self@.compiled ==> result is Err,
            match result {
                Ok(artifact) => artifact.key@ == spec_artifact_key(artifact.bytes@) && spec_is_key(
                    artifact.key@,
                ),
                Err(error) => error == AotError::IOError,
            },
    {
        let serialized = match &self.module {
            Some(module) => serialize_module(module),
            None => None,
        };
        match serialized {
            Some(bytes) => {
                let key = artifact_key(bytes.as_slice());
                Ok(Artifact { key, bytes })
            },
            None => Err(AotError::IOError),
        }
    }

    /// Takes over a module that the host has loaded from the cache.
    pub fn adopt(&mut self, module: Module)
        requires
            old(self).wf(),
        ensures
            final(self).wf(),
            final(self)@ == (SessionState { compiled: true, ..old(self)@ }),
    {
        self.module = Some(module);
    }

    /// Instantiates the module of the session against no imports.
    ///
    /// Fails with `InstantiationError`, and always does so where the
    /// session holds no module or has no store; the session is then as it
    /// was.
    pub fn instantiate(&mut self) -> (result: Result<(), AotError>)
        requires
            old(self).wf(),
        ensures
            final(self).wf(),
            !old(self)@.compiled ==> result is Err,
            !old(self)@.engine ==> result is Err,
            match result {
                Ok(()) => final(self)@ == (SessionState { ready: true, ..old(self)@ }),
                Err(error) => error == AotError::InstantiationError && final(self)@ == old(self)@,
            },
    {
        let instance = match &mut self.store {
            Some(store) => match &self.module {
                Some(module) => instantiate_module(store, module),
                None => None,
            },
            None => None,
        };
        match instance {
            Some(instance) => {
                self.instance = Some(instance);
                Ok(())
            },
            None => Err(AotError::InstantiationError),
        }
    }

    /// Calls the entry point of the session's instance with `arg`.
    ///
    /// Fails with `CallError`, and always does so where the session holds
    /// no instance. What the lookup and the call gave is judged by
    /// `classify_lookup` and `classify_call`.
    pub fn call(&mut self, arg: u32) -> (result: Result<u32, AotError>)
        requires
            old(self).wf(),
        ensures
            final(self).wf(),
            final(self)@ == old(self)@,
            !old(self)@.ready ==> result is Err,
            result matches Err(error) ==> error == AotError::CallError,
    {
        let called = match &mut self.store {
            Some(store) => match &self.instance {
                Some(instance) => match find_export(store, instance, ENTRY_POINT) {
                    Some(entry) => Some(call_function(store, &entry, arg)),
                    None => None,
                },
                None => None,
            },
            None => None,
        };
        classify_call(classify_lookup(called))
    }

    /// Carries out `phase` of `run` where the engine can, and says how it
    /// went. A run of another backend than the session's is not carried
    /// out, and neither are the two phases of the cache: they are reported
    /// as failed, and the session stays as it was.
    pub fn perform(&mut self, run: &Run, phase: Phase) -> (report: Report)
        requires
            old(self).wf(),
        ensures
            final(self).wf(),
            final(self)@.backend == old(self)@.backend,
            final(self)@.engine == old(self)@.engine,
            match phase {
                Phase::Compile => report@ == ReportView::Compiled || report@ == ReportView::Failed,
                Phase::Instantiate => report@ == ReportView::Instantiated || report@
                    == ReportView::Failed,
                Phase::Call => report@ is Returned || report@ == ReportView::Failed,
                Phase::Store | Phase::Load => report@ == ReportView::Failed,
            },
            old(self)@.cannot(run@.backend, phase) ==> report@ == ReportView::Failed,
            report@ == ReportView::Compiled ==> final(self)@.compiled,
            report@ == ReportView::Instantiated ==> final(self)@.ready,
            report@ == ReportView::Failed ==> final(self)@ == old(self)@,
    {
        if !same_backend(run.backend(), self.backend) {
            return Report::Failed;
        }
        match phase {
            Phase::Compile => match self.compile(run.module()) {
                Ok(()) => Report::Compiled,
                Err(error) => failure_report(error),
            },
            Phase::Instantiate => match self.instantiate() {
                Ok(()) => Report::Instantiated,
                Err(error) => failure_report(error),
            },
            Phase::Call => match self.call(run.arg()) {
                Ok(value) => Report::Returned(value),
                Err(error) => failure_report(error),
            },
            Phase::Store | Phase::Load => Report::Failed,
        }
    }

    /// Carries `run` through its phases for as long as the one that is due
    /// is the engine's: until the run has ended, or a phase of the cache is
    /// due, which is the host's to carry out. A run that asks for a phase of
    /// the cache is left as it is. A run that the session cannot carry out,
    /// for want of a store, a module or an instance, or because it is of
    /// another backend, ends with the error of the phase that was due.
    pub fn drive(&mut self, run: &mut Run)
        requires
            old(self).wf(),
            old(run)@.wf(),
        ensures
            final(self).wf(),
            final(self)@.backend == old(self)@.backend,
            final(self)@.engine == old(self)@.engine,
            final(run)@.wf(),
            final(run)@.backend == old(run)@.backend,
            final(run)@.mode == old(run)@.mode,
            final(run)@.module == old(run)@.module,
            final(run)@.arg == old(run)@.arg,
            final(run)@.next() is None || final(run)@.next() == Some(Phase::Store) || final(run)@.next()
                == Some(Phase::Load),
            old(run)@.next() is None ==> final(run)@ == old(run)@ && final(self)@ == old(self)@,
            old(run)@.next() == Some(Phase::Store) || old(run)@.next() == Some(Phase::Load)
                ==> final(run)@ == old(run)@ && final(self)@ == old(self)@,
            old(run)@.next() matches Some(phase) ==> own_phases().contains(phase) && old(self)@.cannot(
                old(run)@.backend,
                phase,
            ) ==> final(run)@.outcome == Some(Err::<OutputView, AotError>(engine_error(phase)))
                && final(self)@ == old(self)@,
            exists|reports: Seq<ReportView>|
                final(run)@ == old(run)@.run(reports) && carried_out(
                    old(run)@,
                    reports,
                    own_phases(),
                ),
    {
        let ghost mut reports = Seq::<ReportView>::empty();
        loop
            invariant
                run@ == old(run)@.run(reports),
                carried_out(old(run)@, reports, own_phases()),
                reports.len() == 0 ==> self@ == old(self)@,
                self.wf(),
                self@.backend == old(self)@.backend,
                self@.engine == old(self)@.engine,
                run@.wf(),
                run@.backend == old(run)@.backend,
                run@.mode == old(run)@.mode,
                run@.module == old(run)@.module,
                run@.arg == old(run)@.arg,
                old(run)@.next() is None ==> reports.len() == 0,
                old(run)@.next() == Some(Phase::Store) || old(run)@.next() == Some(Phase::Load)
                    ==> reports.len() == 0,
                old(run)@.next() matches Some(phase) ==> reports.len() > 0 && old(self)@.cannot(
                    old(run)@.backend,
                    phase,
                ) ==> run@.outcome == Some(Err::<OutputView, AotError>(engine_error(phase)))
                    && self@ == old(self)@,
            ensures
                run@.next() is None || run@.next() == Some(Phase::Store) || run@.next() == Some(
                    Phase::Load,
                ),
                reports.len() == 0 ==> old(run)@.next() is None || old(run)@.next() == Some(
                    Phase::Store,
                ) || old(run)@.next() == Some(Phase::Load),
            decreases run@.remaining(),
        {
            let phase = match run.next() {
                Some(Phase::Compile) => Phase::Compile,
                Some(Phase::Instantiate) => Phase::Instantiate,
                Some(Phase::Call) => Phase::Call,
                _ => {
                    break ;
                },
            };
            let report = self.perform(run, phase);
            proof {
                lemma_run_last(old(run)@, reports, report@);
                lemma_carried_out_last(old(run)@, reports, report@, own_phases());
                reports = reports.push(report@);
            }
            run.report(report);
        }
    }
}

/// Tells whether two backends are the same.
fn same_backend(one: Backend, other: Backend) -> (same: bool)
    ensures
        same == (one == other),
{
    one == other
}

/// The facade over one backend.
pub struct Wrapper {
    backend: Backend,
    engine: Option<Engine>,
}

impl View for Wrapper {
    type V = Backend;

    closed spec fn view(&self) -> Backend {
        self.backend
    }
}

impl Wrapper {
    /// Whether the sessions of the wrapper have a store: the host has
    /// handed in an engine, or the library makes the engine of the backend
    /// itself.
    pub closed spec fn has_engine(&self) -> bool {
        self.engine is Some || Session::makes_store(self.backend)
    }

    /// A wrapper whose runs all compile and load under `backend`, with the
    /// engine that the library makes for it. For a backend whose engine the
    /// host must bring, `with_engine` is the way to a wrapper that can
    /// compile.
    pub fn new(backend: Backend) -> (wrapper: Wrapper)
        ensures
            wrapper@ == backend,
            spec_built_in(backend) ==> wrapper.has_engine(),
    {
        Wrapper { backend, engine: None }
    }

    /// A wrapper whose runs all compile and load under `backend`, with an
    /// engine that the host has made. Every session of the wrapper gets a
    /// store of its own from that engine.
    pub fn with_engine(backend: Backend, engine: Engine) -> (wrapper: Wrapper)
        ensures
            wrapper@ == backend,
            wrapper.has_engine(),
    {
        Wrapper { backend, engine: Some(engine) }
    }

    /// The backend of the wrapper.
    pub fn backend(&self) -> (backend: Backend)
        ensures
            backend == self@,
    {
        self.backend
    }

    /// A fresh session of the wrapper's backend, with a store from the
    /// wrapper's engine.
    pub fn session(&self) -> (session: Session)
        ensures
            session.wf(),
            session@ == (SessionState {
                backend: self@,
                engine: self.has_engine(),
                compiled: false,
                ready: false,
            }),
    {
        match &self.engine {
            Some(engine) => Session::with_store(self.backend, store_of(engine)),
            None => Session::new(self.backend),
        }
    }

    /// Compiles `wasm_bytes`, instantiates the result and calls the entry
    /// point with `arg`, with no cache in between.
    ///
    /// The result is the outcome of a JIT run whose three phases the engine
    /// carried out: the value that the call returned, or the error of the
    /// first phase that failed. Without an engine that is the compile.
    pub fn jit(&self, wasm_bytes: &[u8], arg: u32) -> (result: Result<u32, AotError>)
        ensures
            !self.has_engine() ==> result == Err::<u32, AotError>(AotError::CompileError),
            result matches Err(error) ==> error == AotError::CompileError || error
                == AotError::InstantiationError || error == AotError::CallError,
            exists|reports: Seq<ReportView>|
                carried_out(
                    RunState::start(self@, Mode::Jit, wasm_bytes@, None, arg),
                    reports,
                    own_phases(),
                ) && RunState::start(self@, Mode::Jit, wasm_bytes@, None, arg).run(
                    reports,
                ).outcome == Some(value_outcome(result)),
    {
        let mut run = Run::start(self.backend, Mode::Jit, wasm_bytes, None, arg);
        let mut session = self.session();
        session.drive(&mut run);
        match run.result() {
            Some(Ok(Output::Value(value))) => Ok(value),
            Some(Err(error)) => Err(error),
            _ => {
                // A JIT run has no phase of the cache to stop at, and ends
                // with a value or an error.
                assert(false);
                Err(AotError::CallError)
            },
        }
    }

    /// Compiles `wasm_bytes` and instantiates the result, leaving a session
    /// whose instance is ready to be called. Without an engine the compile
    /// fails.
    pub fn prepare(&self, wasm_bytes: &[u8]) -> (result: Result<Session, AotError>)
        ensures
            !self.has_engine() ==> (result matches Err(error) && error == AotError::CompileError),
            match result {
                Ok(session) => session.wf() && session@ == (SessionState {
                    backend: self@,
                    engine: true,
                    compiled: true,
                    ready: true,
                }),
                Err(error) => error == AotError::CompileError || error
                    == AotError::InstantiationError,
            },
    {
        let mut session = self.session();
        match session.compile(wasm_bytes) {
            Ok(()) => match session.instantiate() {
                Ok(()) => Ok(session),
                Err(error) => Err(error),
            },
            Err(error) => Err(error),
        }
    }

    /// Calls the entry point of a prepared session with `arg`.
    pub fn execute(&self, session: &mut Session, arg: u32) -> (result: Result<u32, AotError>)
        requires
            old(session).wf(),
        ensures
            final(session).wf(),
            final(session)@ == old(session)@,
            !old(session)@.ready ==> result is Err,
            result matches Err(error) ==> error == AotError::CallError,
    {
        session.call(arg)
    }

    /// Begins a run that compiles `wasm_bytes` and stores the artifact; its
    /// result is the key that the store gave.
    pub fn aot_c(&self, wasm_bytes: &[u8]) -> (run: Run)
        ensures
            run@ == RunState::start(self@, Mode::AotCompile, wasm_bytes@, None, 0),
            run@.wf(),
    {
        Run::start(self.backend, Mode::AotCompile, wasm_bytes, None, 0)
    }

    /// Begins a run that loads the artifact that `key` names, instantiates
    /// it and calls the entry point with `arg`. Where `key` has not the shape
    /// of a key, the run has ended with a cache miss as it is made, and
    /// nothing is looked for.
    pub fn aot_e(&self, key: &str, arg: u32) -> (run: Run)
        ensures
            run@ == RunState::start(self@, Mode::AotExecute, Seq::empty(), Some(key@), arg),
            run@.wf(),
    {
        let no_module: Vec<u8> = Vec::new();
        Run::start(
            self.backend,
            Mode::AotExecute,
            no_module.as_slice(),
            Some(String::from_str(key)),
            arg,
        )
    }

    /// Begins a run that compiles `wasm_bytes`, stores the artifact, loads
    /// it again under the key that the store gave, and calls the entry
    /// point with `arg`.
    pub fn aot_t(&self, wasm_bytes: &[u8], arg: u32) -> (run: Run)
        ensures
            run@ == RunState::start(self@, Mode::AotTotal, wasm_bytes@, None, arg),
            run@.wf(),
    {
        Run::start(self.backend, Mode::AotTotal, wasm_bytes, None, arg)
    }
}

} // verus!
