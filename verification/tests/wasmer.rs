use std::collections::HashMap;
use wasm_runtime_benchmark::backend::Backend;
use wasm_runtime_benchmark::cache::{artifact_key, entry_path, is_key, ARTIFACT_KEY_LEN};
use wasm_runtime_benchmark::fibonacci::run as native_run;
use wasm_runtime_benchmark::runner::{
    classify_lookup, failure_report, report_load, AotError, CallOutcome, Mode, Output, Phase,
    Report, Run,
};
use wasm_runtime_benchmark::wasmer_runner::{Session, Wrapper};
use wasmer::sys::{Cranelift, Singlepass};
use wasmer::{Engine, Module, Store};

/// A module that exports `ext_run: (i32) -> i32`, the recursive Fibonacci.
fn fibonacci_wasm() -> Vec<u8> {
    vec![
        0, 97, 115, 109, 1, 0, 0, 0, // magic and version
        1, 6, 1, 96, 1, 127, 1, 127, // one type: (i32) -> i32
        3, 2, 1, 0, // one function of that type
        7, 11, 1, 7, 101, 120, 116, 95, 114, 117, 110, 0, 0, // export "ext_run"
        10, 30, 1, 28, 0, // one body, no locals
        32, 0, 65, 2, 73, 4, 127, 65, 1, 5, // if n < 2 { 1 } else {
        32, 0, 65, 1, 107, 16, 0, // ext_run(n - 1)
        32, 0, 65, 2, 107, 16, 0, // ext_run(n - 2)
        106, 11, 11, // + } end
    ]
}

/// The same function, exported under no name at all.
fn wasm_without_export() -> Vec<u8> {
    vec![
        0, 97, 115, 109, 1, 0, 0, 0, 1, 6, 1, 96, 1, 127, 1, 127, 3, 2, 1, 0, 10, 30, 1, 28, 0, 32,
        0, 65, 2, 73, 4, 127, 65, 1, 5, 32, 0, 65, 1, 107, 16, 0, 32, 0, 65, 2, 107, 16, 0, 106, 11,
        11,
    ]
}

/// A module that exports `ext_run` with two parameters.
fn wasm_with_other_signature() -> Vec<u8> {
    vec![
        0, 97, 115, 109, 1, 0, 0, 0, // magic and version
        1, 7, 1, 96, 2, 127, 127, 1, 127, // one type: (i32, i32) -> i32
        3, 2, 1, 0, // one function of that type
        7, 11, 1, 7, 101, 120, 116, 95, 114, 117, 110, 0, 0, // export "ext_run"
        10, 9, 1, 7, 0, 32, 0, 32, 1, 106, 11, // a + b
    ]
}

/// A module whose `ext_run` runs into `unreachable`.
fn wasm_that_traps() -> Vec<u8> {
    vec![
        0, 97, 115, 109, 1, 0, 0, 0, // magic and version
        1, 6, 1, 96, 1, 127, 1, 127, // one type: (i32) -> i32
        3, 2, 1, 0, // one function of that type
        7, 11, 1, 7, 101, 120, 116, 95, 114, 117, 110, 0, 0, // export "ext_run"
        10, 5, 1, 3, 0, 0, 11, // unreachable
    ]
}

/// A module that imports a function, which no host provides.
fn wasm_with_import() -> Vec<u8> {
    vec![
        0, 97, 115, 109, 1, 0, 0, 0, // magic and version
        1, 6, 1, 96, 1, 127, 1, 127, // one type: (i32) -> i32
        2, 7, 1, 1, 109, 1, 102, 0, 0, // import "m" "f" of that type
        7, 11, 1, 7, 101, 120, 116, 95, 114, 117, 110, 0, 0, // export it as "ext_run"
    ]
}

/// A cache directory kept in memory. Reading an artifact back into an
/// engine takes a call that only a host may make, so the directory keeps,
/// for each artifact it was given, the backend and the module it came from,
/// and loads by compiling that module again.
struct Directory {
    root: String,
    files: HashMap<String, Vec<u8>>,
    origin: HashMap<Vec<u8>, (Backend, Vec<u8>)>,
}

impl Directory {
    fn new() -> Directory {
        Directory { root: String::from("cache"), files: HashMap::new(), origin: HashMap::new() }
    }

    fn store(&mut self, session: &Session, run: &Run) -> Report {
        match session.artifact() {
            Ok(artifact) => {
                let path = entry_path(&self.root, run.backend(), &artifact.key);
                self.origin
                    .insert(artifact.bytes.clone(), (run.backend(), run.module().to_vec()));
                self.files.insert(path, artifact.bytes);
                Report::Stored(artifact.key)
            }
            Err(error) => failure_report(error),
        }
    }

    fn load(&self, session: &mut Session, run: &Run) -> Report {
        let key = run.key().unwrap();
        let found = self.files.get(&entry_path(&self.root, run.backend(), &key)).cloned();
        let module = match found.as_ref().and_then(|bytes| self.origin.get(bytes)) {
            Some((backend, wasm)) if *backend == run.backend() => {
                Module::from_binary(session.store().unwrap(), wasm).ok()
            }
            _ => None,
        };
        let usable = module.is_some();
        if let Some(module) = module {
            session.adopt(module);
        }
        report_load(&found, usable)
    }

    /// Carries `run` to its end in a session of the library's own making.
    fn drive(&mut self, run: &mut Run) -> Result<Output, AotError> {
        self.drive_in(Session::new(run.backend()), run)
    }

    /// Carries `run` to its end: the engine's phases in the session, the
    /// two phases of the cache here.
    fn drive_in(&mut self, mut session: Session, run: &mut Run) -> Result<Output, AotError> {
        loop {
            session.drive(run);
            let report = match run.next() {
                Some(Phase::Store) => self.store(&session, run),
                Some(Phase::Load) => self.load(&mut session, run),
                _ => break,
            };
            run.report(report);
        }
        run.result().unwrap()
    }
}

fn wrapper() -> Wrapper {
    Wrapper::new(Backend::Singlepass)
}

fn key_of(outcome: Result<Output, AotError>) -> String {
    match outcome {
        Ok(Output::Key(key)) => key,
        other => panic!("no key: {:?}", other),
    }
}

#[test]
fn test_jit() {
    let v = wrapper().jit(&fibonacci_wasm(), 5).unwrap();
    assert_eq!(v, 8);
}

#[test]
fn wasmer_runner_test_aot_t() {
    let v = Directory::new().drive(&mut wrapper().aot_t(&fibonacci_wasm(), 5)).unwrap();
    assert_eq!(v, Output::Value(8));
}

#[test]
fn wasmer_runner_test_call() {
    let wrapper = wrapper();
    let mut instance = wrapper.prepare(&fibonacci_wasm()).unwrap();
    let v = wrapper.execute(&mut instance, 5).unwrap();
    assert_eq!(v, 8);
}

#[test]
fn jit_of_ten_under_both_compilers() {
    let wasm = fibonacci_wasm();
    assert_eq!(Wrapper::new(Backend::Singlepass).jit(&wasm, 10), Ok(89));
    assert_eq!(Wrapper::new(Backend::Cranelift).jit(&wasm, 10), Ok(89));
}

#[test]
fn aot_total_of_ten_under_both_compilers() {
    let wasm = fibonacci_wasm();
    for backend in [Backend::Singlepass, Backend::Cranelift] {
        let outcome = Directory::new().drive(&mut Wrapper::new(backend).aot_t(&wasm, 10));
        assert_eq!(outcome, Ok(Output::Value(89)));
    }
}

#[test]
fn engine_agrees_with_the_native_function() {
    let wasm = fibonacci_wasm();
    for arg in 0..20u32 {
        assert_eq!(wrapper().jit(&wasm, arg), Ok(native_run(arg)));
    }
    assert_eq!(Wrapper::new(Backend::Cranelift).jit(&wasm, 25), Ok(native_run(25)));
}

#[test]
fn aot_total_gives_what_jit_gives() {
    for backend in [Backend::Singlepass, Backend::Cranelift] {
        let w = Wrapper::new(backend);
        for wasm in [
            fibonacci_wasm(),
            wasm_without_export(),
            wasm_with_other_signature(),
            wasm_that_traps(),
            wasm_with_import(),
            vec![1u8; 40],
        ] {
            for arg in [0u32, 1, 7, 12] {
                let jit = w.jit(&wasm, arg).map(Output::Value);
                let aot = Directory::new().drive(&mut w.aot_t(&wasm, arg));
                assert_eq!(jit, aot);
            }
        }
    }
}

#[test]
fn jit_is_the_run_of_its_three_phases() {
    let wasm = fibonacci_wasm();
    let mut run = Run::start(Backend::Cranelift, Mode::Jit, &wasm, None, 11);
    let mut session = Session::new(Backend::Cranelift);
    session.drive(&mut run);
    assert_eq!(run.next(), None);
    assert_eq!(run.result(), Some(Ok(Output::Value(144))));
    assert_eq!(Wrapper::new(Backend::Cranelift).jit(&wasm, 11), Ok(144));
}

#[test]
fn missing_export_fails_the_call() {
    let wasm = wasm_without_export();
    for backend in [Backend::Singlepass, Backend::Cranelift] {
        let w = Wrapper::new(backend);
        assert_eq!(w.jit(&wasm, 10), Err(AotError::CallError));
        let mut session = w.prepare(&wasm).unwrap();
        let outcome = w.execute(&mut session, 10);
        assert_eq!(outcome, Err(AotError::CallError));
        assert_ne!(outcome, Ok(0));
        assert_eq!(
            Directory::new().drive(&mut w.aot_t(&wasm, 10)),
            Err(AotError::CallError)
        );
    }
}

#[test]
fn export_of_another_signature_fails_the_call() {
    assert_eq!(wrapper().jit(&wasm_with_other_signature(), 10), Err(AotError::CallError));
}

#[test]
fn trap_fails_the_call() {
    let wasm = wasm_that_traps();
    assert_eq!(wrapper().jit(&wasm, 10), Err(AotError::CallError));
    assert_eq!(Wrapper::new(Backend::Cranelift).jit(&wasm, 10), Err(AotError::CallError));
}

#[test]
fn unresolved_import_fails_the_instantiation() {
    let wasm = wasm_with_import();
    assert_eq!(wrapper().jit(&wasm, 10), Err(AotError::InstantiationError));
    assert_eq!(wrapper().prepare(&wasm).err(), Some(AotError::InstantiationError));
    assert_eq!(
        Directory::new().drive(&mut wrapper().aot_t(&wasm, 10)),
        Err(AotError::InstantiationError)
    );
}

#[test]
fn malformed_module_fails_the_compile() {
    let mut directory = Directory::new();
    for wasm in [vec![], vec![1u8; 40], fibonacci_wasm()[..40].to_vec()] {
        assert_eq!(wrapper().jit(&wasm, 1), Err(AotError::CompileError));
        assert_eq!(wrapper().prepare(&wasm).err(), Some(AotError::CompileError));
        assert_eq!(directory.drive(&mut wrapper().aot_c(&wasm)), Err(AotError::CompileError));
        assert_eq!(directory.drive(&mut wrapper().aot_t(&wasm, 1)), Err(AotError::CompileError));
    }
    assert!(directory.files.is_empty());
}

#[test]
fn text_is_not_a_binary_module() {
    let text = b"(module)".to_vec();
    assert_eq!(wrapper().jit(&text, 1), Err(AotError::CompileError));
}

#[test]
fn wrapper_without_engine_fails_the_compile() {
    let wasm = fibonacci_wasm();
    // The library makes no engine for these two; none is handed in here.
    for backend in [Backend::LLVM, Backend::Lucet] {
        let w = Wrapper::new(backend);
        assert_eq!(w.jit(&wasm, 10), Err(AotError::CompileError));
        assert_eq!(w.prepare(&wasm).err(), Some(AotError::CompileError));
        assert_eq!(Directory::new().drive(&mut w.aot_c(&wasm)), Err(AotError::CompileError));
        assert!(Session::new(backend).store().is_none());
        assert!(w.session().store().is_none());
    }
    assert!(Session::new(Backend::Singlepass).store().is_some());
    assert!(Session::new(Backend::Cranelift).store().is_some());
}

/// The engine of a backend that the library does not make comes from the
/// host. The compiler of that backend is not linked into these tests, so
/// the engine handed in is made by another one; to the library an engine is
/// an engine.
#[test]
fn engine_from_the_host_runs_like_any_other() {
    let wasm = fibonacci_wasm();
    for backend in [Backend::LLVM, Backend::Lucet, Backend::Cranelift] {
        let engine: Engine = Cranelift::default().into();
        let w = Wrapper::with_engine(backend, engine);
        assert_eq!(w.backend(), backend);
        assert!(w.session().store().is_some());
        assert_eq!(w.jit(&wasm, 10), Ok(89));
        assert_eq!(w.jit(&wasm, 5), Ok(8));
        let mut session = w.prepare(&wasm).unwrap();
        assert_eq!(w.execute(&mut session, 10), Ok(89));
        let mut directory = Directory::new();
        assert_eq!(
            directory.drive_in(w.session(), &mut w.aot_t(&wasm, 10)),
            Ok(Output::Value(89))
        );
        assert!(directory.files.keys().all(|path| path.starts_with(&format!(
            "cache/{}/",
            backend.name()
        ))));
        assert_eq!(w.jit(&wasm_without_export(), 10), Err(AotError::CallError));
        assert_eq!(w.jit(&[], 10), Err(AotError::CompileError));
    }
}

#[test]
fn session_around_a_store_of_the_host() {
    let mut session = Session::with_store(Backend::LLVM, Store::new(Singlepass::default()));
    assert_eq!(session.backend(), Backend::LLVM);
    assert!(session.store().is_some());
    assert_eq!(session.instantiate(), Err(AotError::InstantiationError));
    assert_eq!(session.compile(&fibonacci_wasm()), Ok(()));
    assert_eq!(session.instantiate(), Ok(()));
    assert_eq!(session.call(10), Ok(89));
    let mut run = Wrapper::new(Backend::LLVM).aot_t(&fibonacci_wasm(), 7);
    let mut session = Session::with_store(Backend::LLVM, Store::new(Singlepass::default()));
    session.drive(&mut run);
    assert_eq!(run.next(), Some(Phase::Store));
}

#[test]
fn session_does_not_carry_out_a_run_of_another_backend() {
    let wasm = fibonacci_wasm();
    let mut session = Session::new(Backend::Cranelift);
    let mut run = Wrapper::new(Backend::Singlepass).aot_t(&wasm, 6);
    assert_eq!(session.perform(&run, Phase::Compile), Report::Failed);
    assert!(session.module().is_none());
    session.drive(&mut run);
    assert_eq!(run.result(), Some(Err(AotError::CompileError)));

    session.compile(&wasm).unwrap();
    session.instantiate().unwrap();
    let mut run = Run::start(Backend::Singlepass, Mode::Execute, &[], None, 6);
    session.drive(&mut run);
    assert_eq!(run.result(), Some(Err(AotError::CallError)));
    let mut run = Run::start(Backend::Cranelift, Mode::Execute, &[], None, 6);
    session.drive(&mut run);
    assert_eq!(run.result(), Some(Ok(Output::Value(13))));
}

#[test]
fn only_a_function_that_returned_gives_a_value() {
    assert_eq!(classify_lookup(None), CallOutcome::Failed);
    assert_eq!(classify_lookup(Some(None)), CallOutcome::Failed);
    assert_eq!(classify_lookup(Some(Some(0))), CallOutcome::Returned(0));
    assert_eq!(classify_lookup(Some(Some(89))), CallOutcome::Returned(89));
}

#[test]
fn session_without_module_cannot_go_on() {
    let mut session = Session::new(Backend::Cranelift);
    assert_eq!(session.backend(), Backend::Cranelift);
    assert!(session.module().is_none());
    assert_eq!(session.artifact().err(), Some(AotError::IOError));
    assert_eq!(session.instantiate(), Err(AotError::InstantiationError));
    assert_eq!(session.call(3), Err(AotError::CallError));
    assert_eq!(wrapper().execute(&mut session, 3), Err(AotError::CallError));
    assert_eq!(session.compile(&fibonacci_wasm()), Ok(()));
    assert!(session.module().is_some());
    assert_eq!(session.call(3), Err(AotError::CallError));
    assert_eq!(session.instantiate(), Ok(()));
    assert_eq!(session.call(3), Ok(3));
    assert_eq!(session.call(4), Ok(5));
}

#[test]
fn session_leaves_the_cache_to_the_host() {
    let wasm = fibonacci_wasm();
    let mut session = Session::new(Backend::Singlepass);
    let mut run = wrapper().aot_t(&wasm, 6);
    session.drive(&mut run);
    assert_eq!(run.next(), Some(Phase::Store));
    assert_eq!(run.result(), None);
    session.drive(&mut run);
    assert_eq!(run.next(), Some(Phase::Store));
    assert_eq!(session.perform(&run, Phase::Store), Report::Failed);
    assert_eq!(session.perform(&run, Phase::Load), Report::Failed);

    let mut run = wrapper().aot_e(&artifact_key(b"never"), 6);
    session.drive(&mut run);
    assert_eq!(run.next(), Some(Phase::Load));
}

#[test]
fn key_of_an_artifact_is_its_hash() {
    let mut session = Session::new(Backend::Cranelift);
    session.compile(&fibonacci_wasm()).unwrap();
    let artifact = session.artifact().unwrap();
    assert_eq!(artifact.key, artifact_key(&artifact.bytes));
    assert_eq!(artifact.key.len(), ARTIFACT_KEY_LEN);
    assert!(is_key(&artifact.key));
    assert_ne!(artifact.key.as_bytes(), &artifact.bytes[..]);
}

#[test]
fn key_of_known_bytes_by_the_hash() {
    assert_eq!(ARTIFACT_KEY_LEN, 64);
    assert_eq!(
        artifact_key(b""),
        "af1349b9f5f9a1a6a0404dea36dcc9499bcb25c9adc112b7cc9a93cae41f3262"
    );
    assert_eq!(
        artifact_key(b"abc"),
        "6437b3ac38465133ffb63b75273a8db548c558465d79db03fd359c6cd5bd9d85"
    );
    assert_ne!(artifact_key(b"abc"), artifact_key(b"abd"));
    assert_eq!(artifact_key(b"abc"), artifact_key(b"abc"));
}

#[test]
fn compiling_twice_gives_the_same_key() {
    let wasm = fibonacci_wasm();
    for backend in [Backend::Singlepass, Backend::Cranelift] {
        let w = Wrapper::new(backend);
        let first = key_of(Directory::new().drive(&mut w.aot_c(&wasm)));
        let second = key_of(Directory::new().drive(&mut w.aot_c(&wasm)));
        assert_eq!(first, second);
    }
}

#[test]
fn same_source_under_two_compilers_has_two_keys() {
    let wasm = fibonacci_wasm();
    let mut directory = Directory::new();
    let one = key_of(directory.drive(&mut Wrapper::new(Backend::Singlepass).aot_c(&wasm)));
    let other = key_of(directory.drive(&mut Wrapper::new(Backend::Cranelift).aot_c(&wasm)));
    assert_ne!(one, other);
    assert_eq!(directory.files.len(), 2);
}

#[test]
fn storing_twice_leaves_one_entry() {
    let wasm = fibonacci_wasm();
    let mut directory = Directory::new();
    let first = key_of(directory.drive(&mut wrapper().aot_c(&wasm)));
    let after_first = directory.files.clone();
    let second = key_of(directory.drive(&mut wrapper().aot_c(&wasm)));
    assert_eq!(first, second);
    assert_eq!(directory.files.len(), 1);
    assert_eq!(directory.files, after_first);
    assert!(directory.files.contains_key(&format!("cache/singlepass/{}", first)));
}

#[test]
fn what_was_stored_runs_like_what_was_compiled() {
    let wasm = fibonacci_wasm();
    let w = Wrapper::new(Backend::Cranelift);
    let mut directory = Directory::new();
    let key = key_of(directory.drive(&mut w.aot_c(&wasm)));
    for arg in 0..15u32 {
        let loaded = directory.drive(&mut w.aot_e(&key, arg));
        assert_eq!(loaded, w.jit(&wasm, arg).map(Output::Value));
    }
}

#[test]
fn key_never_stored_misses() {
    let mut directory = Directory::new();
    let key = "0000000000000000000000000000000000000000000000000000000000000000";
    assert_eq!(directory.drive(&mut wrapper().aot_e(key, 10)), Err(AotError::CacheMiss));
    assert!(directory.files.is_empty());
}

#[test]
fn artifact_of_another_backend_does_not_load() {
    let wasm = fibonacci_wasm();
    let mut directory = Directory::new();
    let key = key_of(directory.drive(&mut Wrapper::new(Backend::Cranelift).aot_c(&wasm)));
    // Nothing is visible under the other backend.
    assert_eq!(
        directory.drive(&mut Wrapper::new(Backend::Singlepass).aot_e(&key, 10)),
        Err(AotError::CacheMiss)
    );
    // The artifact, put where the other backend looks, is not taken for one of its own.
    let foreign = directory.files[&entry_path("cache", Backend::Cranelift, &key)].clone();
    directory.files.insert(entry_path("cache", Backend::Singlepass, &key), foreign);
    assert_eq!(
        directory.drive(&mut Wrapper::new(Backend::Singlepass).aot_e(&key, 10)),
        Err(AotError::CacheCorrupt)
    );
    assert_eq!(
        directory.drive(&mut Wrapper::new(Backend::Cranelift).aot_e(&key, 10)),
        Ok(Output::Value(89))
    );
}

#[test]
fn truncated_entry_is_corrupt() {
    let wasm = fibonacci_wasm();
    let mut directory = Directory::new();
    let key = key_of(directory.drive(&mut wrapper().aot_c(&wasm)));
    let path = entry_path("cache", Backend::Singlepass, &key);
    let half = directory.files[&path][..directory.files[&path].len() / 2].to_vec();
    directory.files.insert(path, half);
    assert_eq!(directory.drive(&mut wrapper().aot_e(&key, 10)), Err(AotError::CacheCorrupt));
}
