use wasmtime::{Config, Engine, Linker, Module, Store};
use wasmtime_wasi::preview2;
use wasmtime_wasi::preview2::bindings::cli::environment::Host as Environment;
use wasmtime_wasi::preview2::bindings::cli::terminal_stdin::Host as TerminalStdin;
use wasmtime_wasi::preview2::bindings::cli::terminal_stdout::Host as TerminalStdout;
use wasmtime_wasi::preview2::TableStreamExt;
use wasmtime_wasi::{WasiCtx, WasiCtxBuilder};
use wws_worker::stdio::{Stdio, STDOUT_CAPACITY};

const STDIN: u32 = 3;
const STDOUT: u32 = 4;
const STDERR: u32 = 5;

/// Copies its standard input to its standard output and leaves in memory what comes
/// of a write to some place of its standard error.
const ECHO: &str = r#"
(module
  (import "wasi_snapshot_preview1" "fd_read"
    (func $read (param i32 i32 i32 i32) (result i32)))
  (import "wasi_snapshot_preview1" "fd_write"
    (func $write (param i32 i32 i32 i32) (result i32)))
  (import "wasi_snapshot_preview1" "fd_pwrite"
    (func $pwrite (param i32 i32 i32 i64 i32) (result i32)))
  (memory (export "memory") 1)
  (func (export "_start")
    (i32.store (i32.const 0) (i32.const 1024))
    (i32.store (i32.const 4) (i32.const 4096))
    (drop (call $read (i32.const 0) (i32.const 0) (i32.const 1) (i32.const 8)))
    (i32.store (i32.const 4) (i32.load (i32.const 8)))
    (drop (call $write (i32.const 1) (i32.const 0) (i32.const 1) (i32.const 12)))
    (i32.store (i32.const 64)
      (call $pwrite (i32.const 2) (i32.const 0) (i32.const 0) (i64.const 0) (i32.const 16)))))
"#;

struct Host {
    table: preview2::Table,
    ctx: preview2::WasiCtx,
}

impl preview2::WasiView for Host {
    fn table(&self) -> &preview2::Table {
        &self.table
    }
    fn table_mut(&mut self) -> &mut preview2::Table {
        &mut self.table
    }
    fn ctx(&self) -> &preview2::WasiCtx {
        &self.ctx
    }
    fn ctx_mut(&mut self) -> &mut preview2::WasiCtx {
        &mut self.ctx
    }
}

fn preview2_host(stdio: &Stdio) -> Host {
    let mut builder = preview2::WasiCtxBuilder::new();
    stdio.configure_wasi_ctx(None, Some(&mut builder));
    let mut table = preview2::Table::default();
    let ctx = builder.build(&mut table).unwrap();
    Host { table, ctx }
}

/// Runs the echo module and gives what came of its write to standard error.
fn echo(ctx: WasiCtx) -> u8 {
    let mut config = Config::new();
    config.static_memory_maximum_size(0);
    config.static_memory_guard_size(0);
    config.dynamic_memory_guard_size(0);
    config.dynamic_memory_reserved_for_growth(0);
    let engine = Engine::new(&config).unwrap();
    let module = Module::new(&engine, ECHO).unwrap();
    let mut linker: Linker<WasiCtx> = Linker::new(&engine);
    wasmtime_wasi::add_to_linker(&mut linker, |ctx: &mut WasiCtx| ctx).unwrap();
    let mut store = Store::new(&engine, ctx);
    let instance = linker.instantiate(&mut store, &module).unwrap();
    let start = instance.get_typed_func::<(), ()>(&mut store, "_start").unwrap();
    start.call(&mut store, ()).unwrap();
    let memory = instance.get_memory(&mut store, "memory").unwrap();
    memory.data(&store)[64]
}

#[test]
fn stdin_holds_the_input() {
    let stdio = Stdio::new(b"{\"url\":\"/\"}");
    assert_eq!(stdio.stdin, b"{\"url\":\"/\"}".to_vec());
    assert_eq!(stdio.output(), b"".to_vec());
    assert_eq!(STDOUT_CAPACITY, 10240);
}

#[test]
fn preview2_guest_reads_the_input() {
    let stdio = Stdio::new(b"hello");
    let mut host = preview2_host(&stdio);
    let stdin = host.table.get_input_stream_mut(STDIN).unwrap();
    let (bytes, _) = stdin.read(100).unwrap();
    assert_eq!(bytes.to_vec(), b"hello".to_vec());
    let (rest, _) = stdin.read(100).unwrap();
    assert!(rest.is_empty());
}

#[test]
fn preview2_output_is_captured() {
    let stdio = Stdio::new(b"");
    let mut host = preview2_host(&stdio);
    let stdout = host.table.get_output_stream_mut(STDOUT).unwrap();
    stdout.write(bytes::Bytes::from_static(b"out")).unwrap();
    stdout.write(bytes::Bytes::from_static(b"put")).unwrap();
    assert_eq!(stdio.output(), b"output".to_vec());
}

#[test]
fn preview2_output_is_bounded() {
    let stdio = Stdio::new(b"");
    let mut host = preview2_host(&stdio);
    let stdout = host.table.get_output_stream_mut(STDOUT).unwrap();
    stdout.write(bytes::Bytes::from(vec![7u8; STDOUT_CAPACITY])).unwrap();
    assert!(stdout.write(bytes::Bytes::from_static(b"x")).is_err());
    assert_eq!(stdio.output(), vec![7u8; STDOUT_CAPACITY]);
}

#[test]
fn preview2_streams_are_no_terminals() {
    let mut host = preview2_host(&Stdio::new(b""));
    assert!(TerminalStdin::get_terminal_stdin(&mut host).unwrap().is_none());
    assert!(TerminalStdout::get_terminal_stdout(&mut host).unwrap().is_none());
}

#[test]
fn preview2_errors_are_not_thrown_away() {
    let mut host = preview2_host(&Stdio::new(b""));
    let room = preview2::in_tokio(async {
        host.table.get_output_stream_mut(STDERR).unwrap().write_ready().await
    });
    assert_ne!(room.unwrap(), usize::MAX);
}

#[test]
fn preview1_guest_echoes_the_input() {
    let stdio = Stdio::new(b"hi");
    let mut builder = WasiCtxBuilder::new();
    stdio.configure_wasi_ctx(Some(&mut builder), None);
    echo(builder.build());
    assert_eq!(stdio.into_output(), Some(b"hi".to_vec()));
}

#[test]
fn preview1_output_waits_for_the_context() {
    let stdio = Stdio::new(b"hi");
    let mut builder = WasiCtxBuilder::new();
    stdio.configure_wasi_ctx(Some(&mut builder), None);
    let _context = builder.build();
    assert_eq!(stdio.into_output(), None);
    assert_eq!(Stdio::new(b"hi").into_output(), Some(Vec::new()));
}

#[test]
fn streams_are_apart() {
    let (one, two) = (Stdio::new(b"same"), Stdio::new(b"same"));
    let mut host = preview2_host(&one);
    let stdout = host.table.get_output_stream_mut(STDOUT).unwrap();
    stdout.write(bytes::Bytes::from_static(b"only here")).unwrap();
    assert_eq!(one.output(), b"only here".to_vec());
    assert_eq!(two.output(), b"".to_vec());
    drop(host);
    assert_eq!(one.into_output(), Some(Vec::new()));

    let mut builder = WasiCtxBuilder::new();
    let three = Stdio::new(b"hi");
    three.configure_wasi_ctx(Some(&mut builder), None);
    echo(builder.build());
    assert_eq!(three.output(), b"".to_vec());
    assert_eq!(three.into_output(), Some(b"hi".to_vec()));
    assert_eq!(two.into_output(), Some(Vec::new()));
}

#[test]
fn arguments_stay_as_they_were() {
    let stdio = Stdio::new(b"");
    let mut one = WasiCtxBuilder::new();
    one.arg("a").unwrap();
    let mut two = preview2::WasiCtxBuilder::new();
    two.arg("b");
    stdio.configure_wasi_ctx(Some(&mut one), Some(&mut two));
    assert_eq!(one.build().args.number_elements(), 1);
    let mut table = preview2::Table::default();
    let ctx = two.build(&mut table).unwrap();
    let mut host = Host { table, ctx };
    assert_eq!(Environment::get_arguments(&mut host).unwrap(), vec!["b".to_string()]);
}

#[test]
fn preview1_errors_are_not_thrown_away() {
    let bad_descriptor = 8u8;
    let cannot_seek = 70u8;
    assert_eq!(echo(WasiCtxBuilder::new().build()), bad_descriptor);
    let mut builder = WasiCtxBuilder::new();
    Stdio::new(b"").configure_wasi_ctx(Some(&mut builder), None);
    assert_eq!(echo(builder.build()), cannot_seek);
}

#[test]
fn both_builders_get_the_streams() {
    let stdio = Stdio::new(b"hi");
    let mut one = WasiCtxBuilder::new();
    let mut two = preview2::WasiCtxBuilder::new();
    stdio.configure_wasi_ctx(Some(&mut one), Some(&mut two));
    echo(one.build());
    let mut table = preview2::Table::default();
    two.build(&mut table).unwrap();
    let (bytes, _) = table.get_input_stream_mut(STDIN).unwrap().read(9).unwrap();
    assert_eq!(bytes.to_vec(), b"hi".to_vec());
    drop(one);
    assert_eq!(stdio.into_output(), Some(b"hi".to_vec()));
}
