//! A worker, and the steps that bring it up. The steps in between are the
//! caller's: each stage takes what came of one and gives the next stage.
use std::sync::Arc;
use vstd::prelude::*;
use wasmtime::Engine;

use crate::bytes::copy;
use crate::config::{broken_config_notice, Config, ConfigFile};
use crate::engine::{
    describe_engine_error, engine_error_text, engine_settings, refused_as_component,
    refused_as_module, worker_engine, worker_settings, ModuleOrComponent,
};
use crate::errors::{
    configure_error, from_runtime, stage_reason, RuntimeError, Stage, WorkerError,
};
use crate::identity::{is_digest, worker_id, worker_id_of};
use crate::path::{
    law_extension_added, law_extension_idempotent, law_extension_keeps_directory,
    law_extension_of_no_file, law_extension_replaced, only_separators, parent_of, with_extension, with_extension_of,
};

verus! {

/// The extension of configuration files, `toml`.
pub open spec fn config_extension() -> Seq<u8> {
    seq![116u8, 111u8, 109u8, 108u8]
}

/// Where the configuration file of the worker at `path` lies: beside it, under
/// the same name but for the extension.
pub open spec fn config_path_of(path: Seq<u8>) -> Seq<u8> {
    with_extension_of(path, config_extension())
}

/// Finds the configuration file of the worker at `path`.
pub fn config_path(path: &[u8]) -> (out: Vec<u8>)
    ensures
        out@ == config_path_of(path@),
{
    let extension: Vec<u8> = vec![116u8, 111u8, 109u8, 108u8];
    assert(extension@ =~= config_extension());
    with_extension(path, extension.as_slice())
}

/// A worker: its code, compiled, and the language runtime that it is written for.
pub struct Worker<R> {
    /// The identifier of the worker.
    pub id: String,
    /// The engine that runs the worker.
    pub engine: Arc<Engine>,
    /// The code of the worker.
    pub module_or_component: ModuleOrComponent,
    /// The language runtime of the worker.
    pub runtime: R,
    /// The configuration of the worker.
    pub config: Config,
    /// Where the worker lies.
    pub path: Vec<u8>,
}

impl<R> Worker<R> {
    /// The worker has an engine for workers, and its code was compiled by it.
    pub open spec fn wf(self) -> bool {
        &&& engine_settings(*self.engine) == worker_settings()
        &&& self.module_or_component.source().0 == *self.engine
    }

    /// Starts to bring up the worker at `path` in the project at `project_root`.
    pub fn new(project_root: &[u8], path: &[u8]) -> (located: Located)
        ensures
            located.lies_at(project_root@, path@),
            located.path@ == path@,
            located.id@ == worker_id_of(project_root@, path@),
            located.config_path@ == config_path_of(path@),
    {
        Located {
            id: worker_id(project_root, path),
            path: copy(path),
            config_path: config_path(path),
        }
    }
}

/// A worker of which it is known where it lies. Its configuration file is to be
/// looked for next.
pub struct Located {
    /// The identifier of the worker.
    pub id: String,
    /// Where the worker lies.
    pub path: Vec<u8>,
    /// Where its configuration file is to be looked for.
    pub config_path: Vec<u8>,
}

impl Located {
    /// The worker is the one at `path` in the project at `project_root`.
    pub open spec fn lies_at(self, project_root: Seq<u8>, path: Seq<u8>) -> bool {
        &&& self.id@ == worker_id_of(project_root, path)
        &&& is_digest(self.id@)
        &&& self.path@ == path
        &&& self.config_path@ == config_path_of(path)
    }

    /// Takes what came of looking for the configuration file. A file that is not
    /// there or that cannot be loaded leaves the worker with the default
    /// configuration; the owner is told of the latter.
    pub fn configured(self, file: ConfigFile) -> (result: (Configured, Option<String>))
        ensures
            result.0.id == self.id,
            result.0.path == self.path,
            file.gives(result.0.config),
            file matches ConfigFile::Loaded(loaded) ==> result.0.config == loaded,
            !(file is Loaded) ==> result.0.config.folders is None
                && result.0.config.features.wasi_nn.allowed_backends@.len() == 0,
            match file {
                ConfigFile::Broken(reason) => result.1 matches Some(line) && line@
                    == "Error loading the worker configuration: "@ + reason@,
                _ => result.1 is None,
            },
    {
        let (config, notice) = match file {
            ConfigFile::Loaded(config) => (config, None),
            ConfigFile::Missing => (Config::default(), None),
            ConfigFile::Broken(reason) => (
                Config::default(),
                Some(broken_config_notice(reason.as_str())),
            ),
        };
        (Configured { id: self.id, path: self.path, config }, notice)
    }
}

/// A worker with its configuration. It gets an engine next.
pub struct Configured {
    /// The identifier of the worker.
    pub id: String,
    /// Where the worker lies.
    pub path: Vec<u8>,
    /// The configuration of the worker.
    pub config: Config,
}

impl Configured {
    /// Takes what came of making an engine.
    pub fn with_engine(self, made: Result<Engine, wasmtime::Error>) -> (result: Result<
        Started,
        WorkerError,
    >)
        ensures
            match made {
                Ok(engine) => result matches Ok(started) && started.configured == self
                    && *started.engine == engine,
                Err(cause) => result matches Err(error) && error.says(
                    stage_reason(Stage::Engine, engine_error_text(cause)),
                ),
            },
    {
        match made {
            Ok(engine) => Ok(Started { configured: self, engine: Arc::new(engine) }),
            Err(cause) => Err(
                configure_error(Stage::Engine, describe_engine_error(&cause).as_str()),
            ),
        }
    }

    /// Makes an engine for the worker.
    pub fn start(self) -> (result: Result<Started, WorkerError>)
        ensures
            result matches Ok(started) && started.configured == self && started.wf(),
            result matches Ok(started) && engine_settings(*started.engine).async_support
                && engine_settings(*started.engine).component_model,
    {
        self.with_engine(worker_engine())
    }
}

/// A worker with an engine. Its language runtime is to be set up next.
pub struct Started {
    /// The worker so far.
    pub configured: Configured,
    /// The engine.
    pub engine: Arc<Engine>,
}

impl Started {
    /// The engine is one for workers.
    pub open spec fn wf(self) -> bool {
        engine_settings(*self.engine) == worker_settings()
    }

    /// Takes what came of setting up the language runtime.
    pub fn with_runtime<R>(self, made: Result<R, RuntimeError>) -> (result: Result<
        Attached<R>,
        WorkerError,
    >)
        ensures
            result == match made {
                Ok(runtime) => Ok::<Attached<R>, WorkerError>(Attached { started: self, runtime }),
                Err(error) => Err(WorkerError::RuntimeError(error)),
            },
    {
        match from_runtime(made) {
            Ok(runtime) => Ok(Attached { started: self, runtime }),
            Err(error) => Err(error),
        }
    }
}

/// A worker with a language runtime, which is to give its binary next.
pub struct Attached<R> {
    /// The worker so far.
    pub started: Started,
    /// The language runtime.
    pub runtime: R,
}

impl<R> Attached<R> {
    /// Takes what came of asking the language runtime for the binary, and compiles
    /// it, as a component if that works and else as a module. Whether it compiles is
    /// up to the engine.
    pub fn with_binary(self, binary: Result<Vec<u8>, RuntimeError>) -> (result: Result<
        Compiled<R>,
        WorkerError,
    >)
        ensures
            match binary {
                Ok(bytes) => match result {
                    Ok(compiled) => compiled.attached == self && compiled.made_of(bytes@),
                    Err(error) => {
                        &&& error is BadWasmModuleOrComponent
                        &&& refused_as_component(*self.started.engine, bytes@)
                        &&& refused_as_module(*self.started.engine, bytes@)
                    },
                },
                Err(error) => result == Err::<Compiled<R>, WorkerError>(
                    WorkerError::RuntimeError(error),
                ),
            },
    {
        match from_runtime(binary) {
            Ok(bytes) => {
                match ModuleOrComponent::from_binary(&self.started.engine, bytes.as_slice()) {
                    Ok(code) => Ok(Compiled { attached: self, code }),
                    Err(error) => Err(error),
                }
            },
            Err(error) => Err(error),
        }
    }
}

/// A worker whose code is compiled. Its language runtime prepares its surroundings
/// next.
pub struct Compiled<R> {
    /// The worker so far.
    pub attached: Attached<R>,
    /// The code.
    pub code: ModuleOrComponent,
}

impl<R> Compiled<R> {
    /// The code is what the engine of the worker takes `binary` for.
    pub open spec fn made_of(self, binary: Seq<u8>) -> bool {
        self.code.reads(*self.attached.started.engine, binary)
    }

    /// `worker` is the worker that was brought up so far.
    pub open spec fn is_worker(self, worker: Worker<R>) -> bool {
        &&& worker.id == self.attached.started.configured.id
        &&& worker.config == self.attached.started.configured.config
        &&& worker.path == self.attached.started.configured.path
        &&& worker.engine == self.attached.started.engine
        &&& worker.runtime == self.attached.runtime
        &&& worker.module_or_component == self.code
    }

    /// Takes what came of the preparation, with which the worker is up.
    pub fn prepared(self, outcome: Result<(), RuntimeError>) -> (result: Result<
        Worker<R>,
        WorkerError,
    >)
        ensures
            match outcome {
                Ok(_) => {
                    &&& result matches Ok(worker)
                    &&& self.is_worker(worker)
                    &&& worker.id == self.attached.started.configured.id
                    &&& worker.config == self.attached.started.configured.config
                    &&& worker.path == self.attached.started.configured.path
                    &&& worker.engine == self.attached.started.engine
                    &&& worker.runtime == self.attached.runtime
                    &&& worker.module_or_component == self.code
                },
                Err(error) => result == Err::<Worker<R>, WorkerError>(
                    WorkerError::RuntimeError(error),
                ),
            },
    {
        match from_runtime(outcome) {
            Ok(_) => {
                let Compiled { attached, code } = self;
                let Attached { started, runtime } = attached;
                let Started { configured, engine } = started;
                let Configured { id, path, config } = configured;
                Ok(Worker { id, engine, module_or_component: code, runtime, config, path })
            },
            Err(error) => Err(error),
        }
    }
}

/// A worker that has come up carries the identifier of its place, the configuration
/// that was found for it and the code that its language runtime gave, compiled by an
/// engine for workers, which is the one that it has.
pub proof fn law_worker_up<R>(
    project_root: Seq<u8>,
    path: Seq<u8>,
    located: Located,
    file: ConfigFile,
    compiled: Compiled<R>,
    binary: Seq<u8>,
    worker: Worker<R>,
)
    requires
        located.lies_at(project_root, path),
        compiled.attached.started.configured.id == located.id,
        compiled.attached.started.configured.path == located.path,
        file.gives(compiled.attached.started.configured.config),
        compiled.attached.started.wf(),
        compiled.made_of(binary),
        compiled.is_worker(worker),
    ensures
        worker.wf(),
        worker.id@ == worker_id_of(project_root, path),
        is_digest(worker.id@),
        worker.path@ == path,
        file.gives(worker.config),
        worker.module_or_component.reads(*worker.engine, binary),
        worker.runtime == compiled.attached.runtime,
        file matches ConfigFile::Loaded(loaded) ==> worker.config == loaded,
        !(file is Loaded) ==> worker.config.folders is None
            && worker.config.features.wasi_nn.allowed_backends@.len() == 0,
        worker.module_or_component == compiled.code,
        engine_settings(*worker.engine).async_support,
        engine_settings(*worker.engine).component_model,
{
}

/// The configuration file of a worker lies in the directory of the worker, and is
/// its own configuration file.
pub proof fn law_config_path(path: Seq<u8>)
    ensures
        parent_of(config_path_of(path)) == parent_of(path),
        config_path_of(config_path_of(path)) == config_path_of(path),
{
    law_extension_keeps_directory(path, config_extension());
    law_extension_idempotent(path, config_extension());
}

/// The configuration file of a worker has the name of the worker with `.toml` in the
/// place of its extension, whatever the extension is.
pub proof fn law_config_file_of_language(
    head: Seq<u8>,
    stem: Seq<u8>,
    extension: Seq<u8>,
    tail: Seq<u8>,
)
    requires
        head.len() == 0 || head.last() == 47u8,
        stem.len() > 0,
        !stem.contains(47u8),
        !extension.contains(47u8),
        !extension.contains(46u8),
        stem != seq![46u8] || extension.len() > 0,
        tail.len() == 0 || tail[0] == 47u8,
        only_separators(tail),
    ensures
        config_path_of(head + stem + seq![46u8] + extension + tail) == head + stem + seq![
            46u8,
            116u8,
            111u8,
            109u8,
            108u8,
        ],
{
    law_extension_replaced(head, stem, extension, tail, config_extension());
    assert(head + stem + seq![46u8] + config_extension() =~= head + stem + seq![
        46u8,
        116u8,
        111u8,
        109u8,
        108u8,
    ]);
}

/// Workers whose paths differ in the extension alone have the same configuration file.
pub proof fn law_config_file_shared(
    head: Seq<u8>,
    stem: Seq<u8>,
    one: Seq<u8>,
    two: Seq<u8>,
)
    requires
        head.len() == 0 || head.last() == 47u8,
        stem.len() > 0,
        stem != seq![46u8],
        !stem.contains(47u8),
        !one.contains(47u8),
        !one.contains(46u8),
        !two.contains(47u8),
        !two.contains(46u8),
    ensures
        config_path_of(head + stem + seq![46u8] + one) == config_path_of(
            head + stem + seq![46u8] + two,
        ),
        config_path_of(head + stem + seq![46u8] + one) == head + stem + seq![
            46u8,
            116u8,
            111u8,
            109u8,
            108u8,
        ],
{
    let none = Seq::<u8>::empty();
    law_config_file_of_language(head, stem, one, none);
    law_config_file_of_language(head, stem, two, none);
    assert(head + stem + seq![46u8] + one + none =~= head + stem + seq![46u8] + one);
    assert(head + stem + seq![46u8] + two + none =~= head + stem + seq![46u8] + two);
}

/// A worker without an extension has its configuration file under its name with `.toml`
/// behind it.
pub proof fn law_config_file_without_extension(head: Seq<u8>, name: Seq<u8>, tail: Seq<u8>)
    requires
        head.len() == 0 || head.last() == 47u8,
        name.len() > 0,
        !name.contains(47u8),
        forall|i: int| 0 < i < name.len() ==> (#[trigger] name[i]) != 46u8,
        name != seq![46u8],
        tail.len() == 0 || tail[0] == 47u8,
        only_separators(tail),
    ensures
        config_path_of(head + name + tail) == head + name + seq![46u8, 116u8, 111u8, 109u8, 108u8],
{
    law_extension_added(head, name, tail, config_extension());
    assert(head + name + seq![46u8] + config_extension() =~= head + name + seq![
        46u8,
        116u8,
        111u8,
        109u8,
        108u8,
    ]);
}

/// A path that names no file, as one that ends in `..`, is its own configuration path.
pub proof fn law_config_file_of_no_file(head: Seq<u8>, tail: Seq<u8>)
    requires
        head.len() == 0 || head.last() == 47u8,
        tail.len() == 0 || tail[0] == 47u8,
        only_separators(tail),
    ensures
        config_path_of(head + seq![46u8, 46u8] + tail) == head + seq![46u8, 46u8] + tail,
        config_path_of(seq![46u8] + tail) == seq![46u8] + tail,
        config_path_of(tail) == tail,
{
    law_extension_of_no_file(head, tail, config_extension());
}

} // verus!
