use wasmtime::component::Component;
use wasmtime::{Engine, Module};
use wws_worker::config::{Config, ConfigFile, Features};
use wws_worker::engine::{worker_engine, ModuleOrComponent};
use wws_worker::errors::{RuntimeError, WorkerError};
use wws_worker::features::{Folder, WasiNnConfig};
use wws_worker::identity::worker_id;
use wws_worker::worker::{Attached, Compiled, Configured, Worker};

const MODULE: [u8; 8] = [0x00, 0x61, 0x73, 0x6d, 0x01, 0x00, 0x00, 0x00];
const COMPONENT: [u8; 8] = [0x00, 0x61, 0x73, 0x6d, 0x0d, 0x00, 0x01, 0x00];

fn failed() -> RuntimeError {
    RuntimeError::Failed { reason: "no interpreter".to_string() }
}

fn is_failed(error: WorkerError) -> bool {
    match error {
        WorkerError::RuntimeError(RuntimeError::Failed { reason }) => reason == "no interpreter",
        _ => false,
    }
}

fn error_of<T>(result: Result<T, WorkerError>) -> WorkerError {
    match result {
        Ok(_) => panic!("it worked"),
        Err(error) => error,
    }
}

fn one_folder() -> Config {
    Config {
        features: Features { wasi_nn: WasiNnConfig { allowed_backends: Vec::new() } },
        folders: Some(vec![Folder { from: b"data".to_vec(), to: "/mnt".to_string() }]),
    }
}

fn configured() -> Configured {
    Worker::<()>::new(b"/srv", b"api/hello.wasm").configured(ConfigFile::Missing).0
}

fn attached() -> Attached<u8> {
    configured().start().unwrap_or_else(|e| panic!("{e:?}")).with_runtime(Ok(7)).unwrap_or_else(
        |e| panic!("{e:?}"),
    )
}

fn compiled(binary: &[u8]) -> Compiled<u8> {
    attached().with_binary(Ok(binary.to_vec())).unwrap_or_else(|e| panic!("{e:?}"))
}

#[test]
fn a_worker_is_located() {
    let located = Worker::<()>::new(b"/srv", b"api/hello.wasm");
    assert_eq!(located.path, b"api/hello.wasm".to_vec());
    assert_eq!(located.config_path, b"api/hello.toml".to_vec());
    assert_eq!(located.id, worker_id(b"/srv", b"api/hello.wasm"));
    assert_eq!(located.id, sha256::digest("/srv/api/hello.wasm".as_bytes()));
}

#[test]
fn a_missing_file_gives_the_default() {
    let (configured, notice) = Worker::<()>::new(b"/srv", b"a.wasm").configured(ConfigFile::Missing);
    assert!(configured.config.folders.is_none());
    assert!(configured.config.features.wasi_nn.allowed_backends.is_empty());
    assert_eq!(notice, None);
}

#[test]
fn a_loaded_file_is_taken() {
    let (configured, notice) =
        Worker::<()>::new(b"/srv", b"a.wasm").configured(ConfigFile::Loaded(one_folder()));
    let folders = configured.config.folders.unwrap();
    assert_eq!(folders.len(), 1);
    assert_eq!(folders[0].from, b"data".to_vec());
    assert_eq!(folders[0].to, "/mnt");
    assert_eq!(configured.path, b"a.wasm".to_vec());
    assert_eq!(notice, None);
}

#[test]
fn a_broken_file_gives_the_default_and_a_notice() {
    let file = ConfigFile::Broken("bad key".to_string());
    let (configured, notice) = Worker::<()>::new(b"/srv", b"a.wasm").configured(file);
    assert!(configured.config.folders.is_none());
    assert_eq!(notice.unwrap(), "Error loading the worker configuration: bad key");
}

#[test]
fn an_engine_takes_components_and_is_asynchronous() {
    let engine = worker_engine().unwrap();
    assert!(Component::from_binary(&engine, &COMPONENT).is_ok());
    // A store of a synchronous engine panics at this call.
    let mut store = wasmtime::Store::new(&engine, ());
    store.epoch_deadline_async_yield_and_update(1);
}

#[test]
fn an_engine_that_cannot_be_made() {
    let made: Result<Engine, wasmtime::Error> = Err(wasmtime::Error::msg("no such target"));
    match error_of(configured().with_engine(made)) {
        WorkerError::ConfigureRuntimeError { reason } => {
            assert_eq!(reason, "error creating engine (no such target)")
        }
        other => panic!("{other:?}"),
    }
}

#[test]
fn a_language_runtime_that_cannot_be_set_up() {
    let started = configured().start().unwrap_or_else(|e| panic!("{e:?}"));
    assert!(is_failed(error_of(started.with_runtime::<u8>(Err(failed())))));
}

#[test]
fn a_language_runtime_without_a_binary() {
    assert!(is_failed(error_of(attached().with_binary(Err(failed())))));
}

#[test]
fn a_preparation_that_fails() {
    assert!(is_failed(error_of(compiled(&MODULE).prepared(Err(failed())))));
}

#[test]
fn a_binary_that_is_neither() {
    for binary in [&b""[..], &b"not wasm"[..], &MODULE[..7], &COMPONENT[..7]] {
        let error = error_of(attached().with_binary(Ok(binary.to_vec())));
        assert!(matches!(error, WorkerError::BadWasmModuleOrComponent));
    }
}

#[test]
fn a_module_comes_up() {
    let worker = compiled(&MODULE).prepared(Ok(())).unwrap_or_else(|e| panic!("{e:?}"));
    assert!(matches!(worker.module_or_component, ModuleOrComponent::Module(_)));
    assert_eq!(worker.id, worker_id(b"/srv", b"api/hello.wasm"));
    assert_eq!(worker.path, b"api/hello.wasm".to_vec());
    assert_eq!(worker.runtime, 7);
    assert!(worker.config.folders.is_none());
}

#[test]
fn a_component_comes_up() {
    let worker = compiled(&COMPONENT).prepared(Ok(())).unwrap_or_else(|e| panic!("{e:?}"));
    assert!(matches!(worker.module_or_component, ModuleOrComponent::Component(_)));
}

#[test]
fn the_code_belongs_to_the_engine_of_the_worker() {
    let worker = compiled(&MODULE).prepared(Ok(())).unwrap_or_else(|e| panic!("{e:?}"));
    match &worker.module_or_component {
        ModuleOrComponent::Module(module) => {
            assert!(Engine::same(module.engine(), &worker.engine))
        }
        ModuleOrComponent::Component(_) => panic!("a component"),
    }
}

#[test]
fn a_component_is_preferred() {
    let engine = worker_engine().unwrap();
    let component = Component::from_binary(&engine, &COMPONENT).ok();
    let module = Module::from_binary(&engine, &MODULE).ok();
    let code = ModuleOrComponent::preferred(component, module.clone());
    assert!(matches!(code, Ok(ModuleOrComponent::Component(_))));
    assert!(matches!(ModuleOrComponent::preferred(None, module), Ok(ModuleOrComponent::Module(_))));
    assert!(matches!(
        ModuleOrComponent::preferred(None, None),
        Err(WorkerError::BadWasmModuleOrComponent)
    ));
}
