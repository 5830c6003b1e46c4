use std::sync::Arc;

use wasmtime_wasi::preview2;
use wasmtime_wasi::preview2::bindings::cli::environment::Host as Environment;
use wasmtime_wasi::preview2::bindings::filesystem::preopens::Host as Preopens;
use wasmtime_wasi::preview2::bindings::filesystem::types;
use wasmtime_wasi::preview2::bindings::filesystem::types::{
    DescriptorFlags, Host as Filesystem, Modes, OpenFlags, PathFlags,
};
use wasmtime_wasi::preview2::TableStreamExt;
use wasmtime_wasi::{ambient_authority, Dir};
use wasi_common::ErrorExt;
use wws_worker::config::{Config, ConfigFile, Features};
use wws_worker::context::{environment_added, find_mounts, Preview1Setup};
use wws_worker::engine::ModuleOrComponent;
use wws_worker::errors::{RuntimeError, WorkerError};
use wws_worker::features::{Folder, NnSupport, WasiNnConfig};
use wws_worker::run::{Answer, Extended, Guest, Run, Sandbox};
use wws_worker::stdio::Stdio;
use wws_worker::wasi::EnvRefusal;
use wws_worker::worker::Worker;

const MODULE: [u8; 8] = [0x00, 0x61, 0x73, 0x6d, 0x01, 0x00, 0x00, 0x00];
const COMPONENT: [u8; 8] = [0x00, 0x61, 0x73, 0x6d, 0x0d, 0x00, 0x01, 0x00];

/// Copies its standard input to its standard output.
const ECHO: &str = r#"
(module
  (import "wasi_snapshot_preview1" "fd_read"
    (func $read (param i32 i32 i32 i32) (result i32)))
  (import "wasi_snapshot_preview1" "fd_write"
    (func $write (param i32 i32 i32 i32) (result i32)))
  (memory (export "memory") 1)
  (func (export "_start")
    (i32.store (i32.const 0) (i32.const 1024))
    (i32.store (i32.const 4) (i32.const 4096))
    (drop (call $read (i32.const 0) (i32.const 0) (i32.const 1) (i32.const 8)))
    (i32.store (i32.const 4) (i32.load (i32.const 8)))
    (drop (call $write (i32.const 1) (i32.const 0) (i32.const 1) (i32.const 12)))))
"#;

struct Host {
    sandbox: Sandbox,
    adapter: preview2::preview1::WasiPreview1Adapter,
}

impl preview2::preview1::WasiPreview1View for Host {
    fn adapter(&self) -> &preview2::preview1::WasiPreview1Adapter {
        &self.adapter
    }
    fn adapter_mut(&mut self) -> &mut preview2::preview1::WasiPreview1Adapter {
        &mut self.adapter
    }
}

impl preview2::WasiView for Host {
    fn table(&self) -> &preview2::Table {
        &self.sandbox.table
    }
    fn table_mut(&mut self) -> &mut preview2::Table {
        &mut self.sandbox.table
    }
    fn ctx(&self) -> &preview2::WasiCtx {
        &self.sandbox.context
    }
    fn ctx_mut(&mut self) -> &mut preview2::WasiCtx {
        &mut self.sandbox.context
    }
}

fn ok<T>(result: Result<T, WorkerError>) -> T {
    result.unwrap_or_else(|error| panic!("{error:?}"))
}

fn reason<T>(result: Result<T, WorkerError>) -> String {
    match result {
        Err(WorkerError::ConfigureRuntimeError { reason }) => reason,
        Err(other) => panic!("{other:?}"),
        Ok(_) => panic!("it worked"),
    }
}

fn folder(from: &str, to: &str) -> Folder {
    Folder { from: from.as_bytes().to_vec(), to: to.to_string() }
}

fn config(folders: Option<Vec<Folder>>, backends: &[&str]) -> Config {
    let allowed_backends = backends.iter().map(|b| b.to_string()).collect();
    Config { features: Features { wasi_nn: WasiNnConfig { allowed_backends } }, folders }
}

fn worker(path: &str, binary: &[u8], config: Config) -> Worker<()> {
    let located = Worker::<()>::new(b"/srv", path.as_bytes());
    let started = ok(located.configured(ConfigFile::Loaded(config)).0.start());
    ok(ok(ok(started.with_runtime(Ok(()))).with_binary(Ok(binary.to_vec()))).prepared(Ok(())))
}

fn open(path: &str) -> Dir {
    Dir::open_ambient_dir(path, ambient_authority()).unwrap()
}

fn vars() -> Vec<(String, String)> {
    vec![("KEY".to_string(), "value".to_string()), ("B".to_string(), "2".to_string())]
}

fn guest(run: Run) -> Guest {
    ok(run.mounted().linked_nn(Ok(())))
}

#[test]
fn preview2_that_cannot_be_offered() {
    let worker = worker("api/a.wasm", &COMPONENT, config(None, &[]));
    let run = worker.run(Err("twice".to_string()), b"{}", &[]);
    assert_eq!(reason(run), "error setting up WASI preview 2: twice");
}

#[test]
fn folders_without_a_directory() {
    let worker = worker("/", &COMPONENT, config(Some(vec![folder("data", "/mnt")]), &[]));
    assert!(matches!(worker.run(Ok(()), b"{}", &[]), Err(WorkerError::FailedToInitialize)));
}

#[test]
fn no_folders_need_no_directory() {
    for folders in [None, Some(Vec::new())] {
        let worker = worker("/", &COMPONENT, config(folders, &[]));
        let run = ok(worker.run(Ok(()), b"{}", &[]));
        assert_eq!(run.next_directory(), None);
    }
}

#[test]
fn mounts_are_found_from_the_worker() {
    let folders = vec![folder("data", "/a"), folder("/abs", "/b"), folder("../up", "c")];
    let mounts = ok(find_mounts(b"/srv/api/hello.wasm", &folders));
    let found: Vec<(String, String)> = mounts
        .into_iter()
        .map(|mount| (String::from_utf8(mount.host).unwrap(), mount.guest))
        .collect();
    let expected = [("/srv/api/data", "/a"), ("/abs", "/b"), ("/srv/api/../up", "c")];
    assert_eq!(found.len(), 3);
    for (mount, (host, guest)) in found.iter().zip(expected) {
        assert_eq!((mount.0.as_str(), mount.1.as_str()), (host, guest));
    }
}

#[test]
fn a_worker_beside_the_process() {
    let mounts = ok(find_mounts(b"hello.wasm", &vec![folder("data", "/a")]));
    assert_eq!(mounts[0].host, b"data".to_vec());
}

#[test]
fn a_directory_that_cannot_be_opened() {
    let worker = worker("/srv/a.wasm", &COMPONENT, config(Some(vec![folder("gone", "/a")]), &[]));
    let run = ok(worker.run(Ok(()), b"{}", &[]));
    assert_eq!(run.next_directory().unwrap(), &b"/srv/gone".to_vec());
    let next = run.opened(Err("not found".to_string()));
    assert_eq!(reason(next), "error setting up ambient directories (not found)");
}

#[test]
fn a_component_is_asked_and_answers() {
    let folders = vec![folder("/dev", "/first"), folder("/", "/second")];
    let worker = worker("api/a.wasm", &COMPONENT, config(Some(folders), &[]));
    let mut run = ok(worker.run(Ok(()), b"{\"body\":\"\"}", &vars()));
    assert_eq!(run.next_directory().unwrap(), &b"/dev".to_vec());
    run = ok(run.opened(Ok(open("/dev"))));
    assert_eq!(run.next_directory().unwrap(), &b"/".to_vec());
    run = ok(run.opened(Ok(open("/"))));
    assert_eq!(run.next_directory(), None);

    let extended = ok(guest(run).extended(Ok(())));
    let (running, sandbox) = ok(extended.build());
    let mut host = Host { sandbox, adapter: preview2::preview1::WasiPreview1Adapter::new() };

    let places: Vec<String> = Preopens::get_directories(&mut host)
        .unwrap()
        .into_iter()
        .map(|(_, place)| place)
        .collect();
    assert_eq!(places, vec!["/first".to_string(), "/second".to_string()]);
    // The variables are not part of a preview 2 context.
    assert!(Environment::get_environment(&mut host).unwrap().is_empty());

    let stdin = host.sandbox.table.get_input_stream_mut(3).unwrap();
    assert_eq!(stdin.read(64).unwrap().0.to_vec(), b"{\"body\":\"\"}".to_vec());
    let stdout = host.sandbox.table.get_output_stream_mut(4).unwrap();
    stdout.write(bytes::Bytes::from_static(b"[1,2]")).unwrap();

    let answer = running.finished();
    assert_eq!(answer.contents, b"[1,2]".to_vec());
    let outcome = serde_json::from_slice::<Vec<u8>>(&answer.contents).map_err(|e| e.to_string());
    assert_eq!(ok(answer.decoded(outcome)), vec![1u8, 2u8]);
}

#[test]
fn a_component_has_full_access_to_its_folders() {
    let folders = vec![folder("/dev", "/first")];
    let worker = worker("api/a.wasm", &COMPONENT, config(Some(folders), &[]));
    let run = ok(ok(worker.run(Ok(()), b"", &[])).opened(Ok(open("/dev"))));
    let (_, sandbox) = ok(ok(guest(run).extended(Ok(()))).build());
    let mut host = Host { sandbox, adapter: preview2::preview1::WasiPreview1Adapter::new() };
    let dir = Preopens::get_directories(&mut host).unwrap()[0].0;
    let read_write = DescriptorFlags::READ | DescriptorFlags::WRITE;
    let (of_dir, of_file) = preview2::in_tokio(async {
        let of_dir = Filesystem::get_flags(&mut host, dir).await.unwrap();
        let file = Filesystem::open_at(
            &mut host,
            dir,
            PathFlags::SYMLINK_FOLLOW,
            "null".to_string(),
            OpenFlags::empty(),
            read_write,
            Modes::empty(),
        )
        .await
        .unwrap();
        (of_dir, Filesystem::get_flags(&mut host, file).await.unwrap())
    });
    assert!(of_dir.contains(DescriptorFlags::READ | DescriptorFlags::MUTATE_DIRECTORY));
    assert!(of_file.contains(read_write));
}

#[test]
fn a_component_sees_nothing_beside_its_folders() {
    let folders = vec![folder("/dev", "/first")];
    let worker = worker("api/a.wasm", &COMPONENT, config(Some(folders), &[]));
    let run = ok(ok(worker.run(Ok(()), b"", &[])).opened(Ok(open("/dev"))));
    let (_, sandbox) = ok(ok(guest(run).extended(Ok(()))).build());
    let mut host = Host { sandbox, adapter: preview2::preview1::WasiPreview1Adapter::new() };
    let directories: Vec<(types::Descriptor, String)> =
        Preopens::get_directories(&mut host).unwrap();
    assert_eq!(directories.len(), 1);
}

/// Runs a module, on top of a preview 2 context, and gives what it answered.
fn answer_of_module(text: &str, input: &[u8]) -> Vec<u8> {
    let mut settings = wasmtime::Config::new();
    settings.async_support(true);
    settings.static_memory_maximum_size(0);
    settings.static_memory_guard_size(0);
    settings.dynamic_memory_guard_size(0);
    settings.dynamic_memory_reserved_for_growth(0);
    let engine = wasmtime::Engine::new(&settings).unwrap();
    let module = wasmtime::Module::new(&engine, text).unwrap();
    let worker = Worker {
        id: "id".to_string(),
        engine: Arc::new(engine),
        module_or_component: ModuleOrComponent::Module(module.clone()),
        runtime: (),
        config: config(None, &[]),
        path: b"api/a.wasm".to_vec(),
    };
    let mut linker: wasmtime::Linker<Host> = wasmtime::Linker::new(&worker.engine);
    let linked =
        preview2::preview1::add_to_linker_async(&mut linker).map_err(|err| err.to_string());
    let run = ok(worker.run(linked, input, &[]));
    let (running, sandbox) = ok(ok(guest(run).extended(Ok(()))).build());
    let host = Host { sandbox, adapter: preview2::preview1::WasiPreview1Adapter::new() };
    let mut store = wasmtime::Store::new(&worker.engine, host);
    preview2::in_tokio(async {
        linker.module_async(&mut store, "", &module).await.unwrap();
        let start = linker.get_default(&mut store, "").unwrap();
        start.typed::<(), ()>(&store).unwrap().call_async(&mut store, ()).await.unwrap();
    });
    running.finished().contents
}

#[test]
fn a_module_is_asked_and_answers() {
    assert_eq!(answer_of_module(ECHO, b"[3,4]"), b"[3,4]".to_vec());
}

#[test]
fn a_module_that_writes_nothing() {
    assert_eq!(answer_of_module("(module (func (export \"_start\")))", b"{}"), b"".to_vec());
}

#[test]
fn requests_do_not_see_each_other() {
    let worker = worker("api/a.wasm", &COMPONENT, config(None, &[]));
    let first = ok(worker.run(Ok(()), b"first", &[]));
    let (running1, mut sandbox1) = ok(ok(guest(first).extended(Ok(()))).build());
    let stdout = sandbox1.table.get_output_stream_mut(4).unwrap();
    stdout.write(bytes::Bytes::from_static(b"one")).unwrap();

    let second = ok(worker.run(Ok(()), b"second", &[]));
    let (running2, mut sandbox2) = ok(ok(guest(second).extended(Ok(()))).build());
    let stdin = sandbox2.table.get_input_stream_mut(3).unwrap();
    assert_eq!(stdin.read(64).unwrap().0.to_vec(), b"second".to_vec());
    let stdout = sandbox2.table.get_output_stream_mut(4).unwrap();
    stdout.write(bytes::Bytes::from_static(b"two")).unwrap();

    assert_eq!(running1.finished().contents, b"one".to_vec());
    assert_eq!(running2.finished().contents, b"two".to_vec());
}

#[test]
fn both_contexts_agree_on_the_folders() {
    let folders = || vec![folder("/dev", "/first"), folder("/", "/second"), folder("x", "/third")];
    let worker = worker("/srv/a.wasm", &COMPONENT, config(Some(folders()), &[]));
    let mut one = ok(worker.prepare_preview1_ctx(Ok(()), b"", &[], &folders()));
    let mut two = ok(worker.prepare_preview2_ctx(Ok(()), b"", &[], &folders()));
    for path in ["/dev", "/"] {
        assert_eq!(one.next_directory(), Some(&path.as_bytes().to_vec()));
        assert_eq!(one.next_directory(), two.next_directory());
        one = ok(one.opened(Ok(open(path))));
        two = ok(two.opened(Ok(open(path))));
    }
    assert_eq!(one.next_directory(), two.next_directory());
    let refused = "error setting up ambient directories (no)";
    assert_eq!(reason(one.opened(Err("no".to_string()))), refused);
    assert_eq!(reason(two.opened(Err("no".to_string()))), refused);
}

#[test]
fn neural_networks_that_cannot_be_offered() {
    for (backends, fails) in [(&["openvino"][..], true), (&["onnx"][..], false), (&[][..], false)] {
        let worker = worker("api/a.wasm", &COMPONENT, config(None, backends));
        let run = ok(worker.run(Ok(()), b"{}", &[]));
        let result = run.mounted().linked_nn(Err("twice".to_string()));
        let refused = matches!(
            result,
            Err(WorkerError::RuntimeError(RuntimeError::WasiContextError))
        );
        assert_eq!(refused, fails);
    }
}

#[test]
fn neural_networks_follow_the_configuration() {
    let cases = [
        (&[][..], NnSupport::Disabled),
        (&["openvino"][..], NnSupport::OpenVino),
        (&["openvino", "onnx"][..], NnSupport::Unsupported),
    ];
    for (backends, support) in cases {
        let worker = worker("api/a.wasm", &COMPONENT, config(None, backends));
        assert_eq!(ok(worker.run(Ok(()), b"{}", &[])).nn, support);
    }
}

#[test]
fn a_language_runtime_that_cannot_extend_the_context() {
    let worker = worker("api/a.wasm", &COMPONENT, config(None, &[]));
    let run = ok(worker.run(Ok(()), b"{}", &[]));
    let result = guest(run).extended(Err(RuntimeError::WasiContextError));
    assert!(matches!(result, Err(WorkerError::RuntimeError(RuntimeError::WasiContextError))));
}

#[test]
fn a_context_that_cannot_be_built() {
    let outcome = Err(wasmtime::Error::msg("table full"));
    let built = Extended::built(Stdio::new(b""), outcome);
    assert_eq!(reason(built), "error setting up WASI preview 2: table full");
}

#[test]
fn an_answer_that_cannot_be_read() {
    let answer = Answer { contents: b"{".to_vec() };
    let result: Result<u8, WorkerError> = answer.decoded(Err("cut short".to_string()));
    assert_eq!(reason(result), "error building output (cut short)");
}

#[test]
fn preview1_that_cannot_be_offered() {
    let worker = worker("api/a.wasm", &MODULE, config(None, &[]));
    let setup = worker.prepare_preview1_ctx(Err("twice".to_string()), b"", &[], &Vec::new());
    assert_eq!(reason(setup), "error adding WASI to linker (twice)");
}

#[test]
fn preview1_folders_without_a_directory() {
    let worker = worker("", &MODULE, config(None, &[]));
    let setup = worker.prepare_preview1_ctx(Ok(()), b"", &[], &vec![folder("data", "/mnt")]);
    assert!(matches!(setup, Err(WorkerError::FailedToInitialize)));
}

#[test]
fn preview1_directory_that_cannot_be_opened() {
    let worker = worker("api/a.wasm", &MODULE, config(None, &[]));
    let setup = ok(worker.prepare_preview1_ctx(Ok(()), b"", &[], &vec![folder("x", "/mnt")]));
    assert_eq!(setup.next_directory().unwrap(), &b"api/x".to_vec());
    let next = setup.opened(Err("not found".to_string()));
    assert_eq!(reason(next), "error setting up ambient directories (not found)");
}

#[test]
fn preview1_context_is_complete() {
    let worker = worker("api/a.wasm", &MODULE, config(None, &[]));
    let folders = vec![folder("/dev", "/first"), folder("/", "/second")];
    let mut setup = ok(worker.prepare_preview1_ctx(Ok(()), b"in", &vars(), &folders));
    assert_eq!(setup.next_directory().unwrap(), &b"/dev".to_vec());
    setup = ok(setup.opened(Ok(open("/dev"))));
    setup = ok(setup.opened(Ok(open("/"))));
    assert_eq!(setup.next_directory(), None);
    assert_eq!(setup.stdio.stdin, b"in".to_vec());

    let context = setup.builder.build();
    assert_eq!(context.env.number_elements(), 2);
    assert_eq!(context.env.cumulative_size(), 14);
    assert!(context.table().contains_key(3));
    assert!(context.table().contains_key(4));
    assert!(!context.table().contains_key(5));
}

#[test]
fn what_a_preview1_context_refuses() {
    let refusals = [
        (EnvRefusal::NumberElements, wasi_common::StringArrayError::NumberElements),
        (EnvRefusal::ElementSize, wasi_common::StringArrayError::ElementSize),
        (EnvRefusal::CumulativeSize, wasi_common::StringArrayError::CumulativeSize),
    ];
    for (refusal, outside) in refusals {
        assert_eq!(refusal.text(), outside.to_string());
        let error = environment_added(Err(refusal));
        assert_eq!(reason(error), format!("error adding environment variables ({outside})"));
    }
    assert!(environment_added(Ok(())).is_ok());
    let error = Preview1Setup::preopened(Err(wasi_common::Error::badf()));
    let text = wasi_common::Error::badf().to_string();
    assert_eq!(reason(error), format!("error preopening directories ({text})"));
}
