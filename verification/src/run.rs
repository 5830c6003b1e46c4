//! A request to a worker, from the data for it to its answer. What touches the
//! world is the caller's: each stage takes what came of one such step and gives
//! the next stage, or the error that the request ends with.
use vstd::prelude::*;
use wasmtime_wasi::preview2;
use wasmtime_wasi::Dir;

use crate::config::Config;
use crate::context::{
    full_access, law_mounts_follow_folders, law_preview2_complete, mount_views, mounts_of,
    Preview2Setup,
};
use crate::engine::{describe_engine_error, engine_error_text};
use crate::errors::{
    configure_error, from_runtime, stage_reason, staged, RuntimeError, Stage, WorkerError,
};
use crate::features::{law_nn_support, nn_support, Folder, NnSupport};
use crate::path::{joined, law_joined_is, parent_of};
use crate::stdio::{Stdio, STDOUT_CAPACITY};
use crate::wasi;
use crate::wasi::{
    context_settings, has_held, made_empty, numbers, pipe_capacity, preview2_settings, Access, Preview2Settings,
};
use crate::worker::Worker;

verus! {

impl<R> Worker<R> {
    /// Starts a request with `input` as the data for the worker, given what came of
    /// offering the WASI interface of its kind: a component calls preview 2 itself, a
    /// module calls preview 1 on top of the same context.
    pub fn run(
        &self,
        linked: Result<(), String>,
        input: &[u8],
        vars: &[(String, String)],
    ) -> (result: Result<Run, WorkerError>)
        ensures
            match linked {
                Err(cause) => result matches Err(error) && error.says(
                    stage_reason(Stage::Preview2, cause@),
                ),
                Ok(_) => match mounts_of(self.path@, self.config.mounted()) {
                    None => result == Err::<Run, WorkerError>(WorkerError::FailedToInitialize),
                    Some(mounts) => {
                        &&& result matches Ok(run)
                        &&& run.serves(self.path@, self.config, input@)
                        &&& run.setup.mounted == 0
                    },
                },
            },
            result is Ok <==> linked is Ok && (self.config.folders is None
                || self.config.folders->0@.len() == 0 || parent_of(self.path@) is Some),
            result matches Ok(run) ==> match self.config.folders {
                None => run.setup.mounts@.len() == 0,
                Some(folders) => {
                    &&& run.setup.mounts@.len() == folders@.len()
                    &&& forall|i: int|
                        0 <= i < folders@.len() ==> (#[trigger] run.setup.mounts@[i]).guest@
                            == folders@[i].to@ && run.setup.mounts@[i].host@ == joined(
                            parent_of(self.path@)->0,
                            folders@[i].from@,
                        )
                },
            },
            result matches Ok(run) ==> {
                let settings = preview2_settings(run.setup.builder);
                &&& settings.stdin == Some(input@)
                &&& settings.stdout == Some(run.setup.stdio.stdout2)
                &&& settings.preopens.len() == 0
                &&& run.nn == nn_support(self.config.features.wasi_nn.allowed_backends@)
            },
    {
        let none: Vec<Folder> = Vec::new();
        let folders = match &self.config.folders {
            Some(folders) => folders,
            None => &none,
        };
        assert(folders@ =~= self.config.mounted());
        match self.prepare_preview2_ctx(linked, input, vars, folders) {
            Ok(setup) => {
                let run = Run { setup, nn: self.config.features.wasi_nn.support() };
                proof {
                    law_request_folders(run, self.path@, self.config, input@);
                }
                Ok(run)
            },
            Err(error) => Err(error),
        }
    }
}

/// A request whose context is being set up.
pub struct Run {
    /// The context.
    pub setup: Preview2Setup,
    /// What becomes of neural networks.
    pub nn: NnSupport,
}

impl Run {
    /// The request is one with the data `input` to a worker at `path` with this
    /// configuration.
    pub open spec fn serves(self, path: Seq<u8>, config: Config, input: Seq<u8>) -> bool {
        &&& self.setup.wf()
        &&& self.setup.stdio.carries(input)
        &&& mounts_of(path, config.mounted()) == Some(mount_views(self.setup.mounts@))
        &&& self.nn == nn_support(config.features.wasi_nn.allowed_backends@)
    }

    /// The directory to open next, if there is one.
    pub fn next_directory(&self) -> (host: Option<&Vec<u8>>)
        requires
            self.setup.wf(),
        ensures
            match host {
                Some(host) => {
                    &&& !self.setup.complete()
                    &&& *host == self.setup.mounts@[self.setup.mounted as int].host
                },
                None => self.setup.complete(),
            },
            host is Some <==> self.setup.mounted < self.setup.mounts@.len(),
    {
        self.setup.next_directory()
    }

    /// Takes what came of opening the next directory.
    pub fn opened(self, outcome: Result<Dir, String>) -> (result: Result<Self, WorkerError>)
        requires
            self.setup.wf(),
            !self.setup.complete(),
        ensures
            match outcome {
                Ok(dir) => {
                    &&& result matches Ok(run)
                    &&& run.setup.wf()
                    &&& run.setup.stdio == self.setup.stdio
                    &&& run.setup.mounts == self.setup.mounts
                    &&& run.setup.mounted == self.setup.mounted + 1
                    &&& preview2_settings(run.setup.builder).preopens == preview2_settings(
                        self.setup.builder,
                    ).preopens.push(
                        (dir, full_access(), self.setup.mounts@[self.setup.mounted as int].guest@),
                    )
                    &&& run.nn == self.nn
                    &&& forall|path: Seq<u8>, config: Config, input: Seq<u8>|
                        self.serves(path, config, input) ==> run.serves(path, config, input)
                },
                Err(cause) => result matches Err(error) && error.says(
                    stage_reason(Stage::OpenDirectory, cause@),
                ),
            },
    {
        let Run { setup, nn } = self;
        match setup.opened(outcome) {
            Ok(setup) => Ok(Run { setup, nn }),
            Err(error) => Err(error),
        }
    }

    /// Goes on once there is no directory left to open.
    pub fn mounted(self) -> (mounted: Mounted)
        requires
            self.setup.wf(),
            self.setup.complete(),
        ensures
            mounted == (Mounted {
                stdio: self.setup.stdio,
                builder: self.setup.builder,
                nn: self.nn,
            }),
    {
        let Run { setup, nn } = self;
        Mounted { stdio: setup.stdio, builder: setup.builder, nn }
    }
}

/// A request whose context has all its folders. The neural network interface is to
/// be offered next, where `nn` says so.
pub struct Mounted {
    /// The standard streams.
    pub stdio: Stdio,
    /// The context.
    pub builder: preview2::WasiCtxBuilder,
    /// What becomes of neural networks.
    pub nn: NnSupport,
}

impl Mounted {
    /// Takes what came of offering the neural network interface, which matters only
    /// where it was to be offered.
    pub fn linked_nn(self, linked: Result<(), String>) -> (result: Result<Guest, WorkerError>)
        ensures
            result == if self.nn is OpenVino && linked is Err {
                Err::<Guest, WorkerError>(
                    WorkerError::RuntimeError(RuntimeError::WasiContextError),
                )
            } else {
                Ok(Guest { stdio: self.stdio, builder: self.builder })
            },
    {
        let needed = match self.nn {
            NnSupport::OpenVino => true,
            _ => false,
        };
        if needed && linked.is_err() {
            return Err(WorkerError::RuntimeError(RuntimeError::WasiContextError));
        }
        Ok(Guest { stdio: self.stdio, builder: self.builder })
    }
}

/// A worker whose language runtime is to add to the context next.
pub struct Guest {
    /// The standard streams.
    pub stdio: Stdio,
    /// The context.
    pub builder: preview2::WasiCtxBuilder,
}

impl Guest {
    /// Takes what came of the additions of the language runtime.
    pub fn extended(self, outcome: Result<(), RuntimeError>) -> (result: Result<
        Extended,
        WorkerError,
    >)
        ensures
            result == match outcome {
                Ok(_) => Ok::<Extended, WorkerError>(
                    Extended { stdio: self.stdio, builder: self.builder },
                ),
                Err(error) => Err(WorkerError::RuntimeError(error)),
            },
    {
        match from_runtime(outcome) {
            Ok(_) => Ok(Extended { stdio: self.stdio, builder: self.builder }),
            Err(error) => Err(error),
        }
    }
}

/// A worker whose context is to be built next.
pub struct Extended {
    /// The standard streams.
    pub stdio: Stdio,
    /// The context.
    pub builder: preview2::WasiCtxBuilder,
}

impl Extended {
    /// Takes what came of building the context.
    pub fn built(
        stdio: Stdio,
        outcome: Result<(preview2::WasiCtx, preview2::Table), wasmtime::Error>,
    ) -> (result: Result<(Running, Sandbox), WorkerError>)
        ensures
            match outcome {
                Ok((context, table)) => result == Ok::<(Running, Sandbox), WorkerError>(
                    (Running { stdio }, Sandbox { context, table }),
                ),
                Err(cause) => result matches Err(error) && error.says(
                    stage_reason(Stage::Preview2, engine_error_text(cause)),
                ),
            },
    {
        match outcome {
            Ok((context, table)) => Ok((Running { stdio }, Sandbox { context, table })),
            Err(cause) => Err(
                configure_error(Stage::Preview2, describe_engine_error(&cause).as_str()),
            ),
        }
    }

    /// Builds the context, which fails only where there are too many folders for it.
    /// The language runtime has not built it already.
    pub fn build(self) -> (result: Result<(Running, Sandbox), WorkerError>)
        requires
            !preview2_settings(self.builder).built,
        ensures
            if preview2_settings(self.builder).preopens.len() + 3 <= u32::MAX {
                &&& result matches Ok((running, sandbox))
                &&& running.stdio == self.stdio
                &&& context_settings(sandbox.context) == preview2_settings(self.builder)
                &&& numbers(sandbox.table, sandbox.context)
            } else {
                result matches Err(error) && exists|cause: wasmtime::Error|
                    error.says(stage_reason(Stage::Preview2, #[trigger] engine_error_text(cause)))
            },
    {
        Self::built(self.stdio, wasi::preview2_build(self.builder))
    }
}

/// What a worker runs in.
pub struct Sandbox {
    /// The context.
    pub context: preview2::WasiCtx,
    /// What the context refers to by number.
    pub table: preview2::Table,
}

/// A worker that is to run next, and to come to its end.
pub struct Running {
    /// The standard streams.
    pub stdio: Stdio,
}

impl Running {
    /// The answer of the worker, module or component, once it has come to its end: what
    /// it wrote to standard output.
    pub fn finished(self) -> (answer: Answer)
        ensures
            has_held(self.stdio.stdout2, answer.contents@),
            answer.contents@.len() <= pipe_capacity(self.stdio.stdout2),
    {
        Answer { contents: self.stdio.output() }
    }
}

/// What a worker answered, to be decoded next.
pub struct Answer {
    /// The bytes.
    pub contents: Vec<u8>,
}

impl Answer {
    /// Takes what came of decoding the answer, with which the request is over.
    pub fn decoded<T>(self, outcome: Result<T, String>) -> (result: Result<T, WorkerError>)
        ensures
            match outcome {
                Ok(output) => result == Ok::<T, WorkerError>(output),
                Err(cause) => result matches Err(error) && error.says(
                    stage_reason(Stage::Output, cause@),
                ),
            },
    {
        staged(Stage::Output, outcome)
    }
}

/// What a worker runs in once its request is set up: its standard input gives the
/// data of the request, its standard output is the pipe that the answer is read from,
/// which started empty, and it sees the folders of its configuration, in order and with
/// full access.
pub proof fn law_request_context(
    run: Run,
    path: Seq<u8>,
    config: Config,
    input: Seq<u8>,
    mounted: Mounted,
)
    requires
        run.serves(path, config, input),
        run.setup.complete(),
        mounted.stdio == run.setup.stdio,
        mounted.builder == run.setup.builder,
    ensures
        match config.folders {
            None => preview2_settings(mounted.builder).preopens.len() == 0,
            Some(folders) => {
                &&& preview2_settings(mounted.builder).preopens.len() == folders@.len()
                &&& forall|i: int| 0 <= i < folders@.len() ==> {
                    let place = #[trigger] preview2_settings(mounted.builder).preopens[i];
                    &&& place.1.read && place.1.mutate
                    &&& place.1.file_read && place.1.file_write
                    &&& place.2 == folders@[i].to@
                }
            },
        },
        ({
            let settings = preview2_settings(mounted.builder);
            &&& !settings.stdin_is_tty
            &&& !settings.stdout_is_tty
            &&& settings.inherits_stderr
            &&& pipe_capacity(mounted.stdio.stdout2) == 10240
            &&& settings.stdin == Some(input)
            &&& settings.stdout == Some(mounted.stdio.stdout2)
            &&& made_empty(mounted.stdio.stdout2)
            &&& pipe_capacity(mounted.stdio.stdout2) == STDOUT_CAPACITY
            &&& settings.envs.len() == 0
            &&& settings.args.len() == 0
            &&& !settings.built
            &&& settings.preopens.len() == config.mounted().len()
            &&& forall|i: int|
                0 <= i < config.mounted().len() ==> (#[trigger] settings.preopens[i]).1
                    == full_access() && settings.preopens[i].2 == config.mounted()[i].to@
        }),
{
    let settings = preview2_settings(mounted.builder);
    let folders = config.mounted();
    let mounts = mount_views(run.setup.mounts@);
    assert(mounts.len() == folders.len());
    assert forall|i: int| 0 <= i < folders.len() implies (#[trigger] settings.preopens[i]).1
        == full_access() && settings.preopens[i].2 == folders[i].to@ by {
        assert(mounts[i].1 == folders[i].to@);
        assert(mounts[i] == run.setup.mounts@[i]@);
    }
}

/// What a request is set up with depends on the worker and on the data alone: two
/// requests with the same data to the same worker, whatever came before either of them,
/// get contexts that differ in nothing but the pipe, which started empty, and the open
/// directories.
pub proof fn law_requests_alike(
    one: Run,
    two: Run,
    path: Seq<u8>,
    config: Config,
    input: Seq<u8>,
)
    requires
        one.serves(path, config, input),
        two.serves(path, config, input),
        one.setup.complete(),
        two.setup.complete(),
    ensures
        one.nn == two.nn,
        mount_views(one.setup.mounts@) == mount_views(two.setup.mounts@),
        ({
            let first = preview2_settings(one.setup.builder);
            let second = preview2_settings(two.setup.builder);
            &&& first == (Preview2Settings {
                stdout: Some(one.setup.stdio.stdout2),
                preopens: first.preopens,
                ..second
            })
            &&& second.stdout == Some(two.setup.stdio.stdout2)
            &&& made_empty(one.setup.stdio.stdout2)
            &&& made_empty(two.setup.stdio.stdout2)
            &&& first.preopens.map_values(|p: (Dir, Access, Seq<char>)| (p.1, p.2))
                == second.preopens.map_values(|p: (Dir, Access, Seq<char>)| (p.1, p.2))
        }),
{
    law_preview2_complete(one.setup, input);
    law_preview2_complete(two.setup, input);
}

/// A request has one mount for each folder of the configuration, in the order they are
/// listed, and no other: mount `i` is seen where folder `i` says, and lies where folder
/// `i` says, as seen from the directory of the worker.
pub proof fn law_request_folders(run: Run, path: Seq<u8>, config: Config, input: Seq<u8>)
    requires
        run.serves(path, config, input),
    ensures
        match config.folders {
            None => run.setup.mounts@.len() == 0,
            Some(folders) => {
                &&& run.setup.mounts@.len() == folders@.len()
                &&& forall|i: int| 0 <= i < folders@.len() ==> {
                    let mount = #[trigger] run.setup.mounts@[i];
                    let base = parent_of(path)->0;
                    let from = folders@[i].from@;
                    &&& parent_of(path) is Some
                    &&& mount.guest@ == folders@[i].to@
                    &&& mount.host@ == joined(base, from)
                    &&& from.len() > 0 && from[0] == 47u8 ==> mount.host@ == from
                    &&& (from.len() == 0 || from[0] != 47u8) && base.len() > 0 && base.last()
                        != 47u8 ==> mount.host@ == base + seq![47u8] + from
                    &&& (from.len() == 0 || from[0] != 47u8) && (base.len() == 0 || base.last()
                        == 47u8) ==> mount.host@ == base + from
                }
            },
        },
{
    let views = mount_views(run.setup.mounts@);
    assert(views.len() == run.setup.mounts@.len());
    if config.folders is Some {
        let folders = config.folders->0@;
        assert(config.mounted() =~= folders);
        assert forall|i: int| 0 <= i < folders.len() implies {
            let mount = #[trigger] run.setup.mounts@[i];
            let base = parent_of(path)->0;
            let from = folders[i].from@;
            &&& parent_of(path) is Some
            &&& mount.guest@ == folders[i].to@
            &&& mount.host@ == joined(base, from)
            &&& from.len() > 0 && from[0] == 47u8 ==> mount.host@ == from
            &&& (from.len() == 0 || from[0] != 47u8) && base.len() > 0 && base.last() != 47u8
                ==> mount.host@ == base + seq![47u8] + from
            &&& (from.len() == 0 || from[0] != 47u8) && (base.len() == 0 || base.last() == 47u8)
                ==> mount.host@ == base + from
        } by {
            law_mounts_follow_folders(path, folders, i);
            law_joined_is(parent_of(path)->0, folders[i].from@);
            assert(views[i] == run.setup.mounts@[i]@);
        }
    }
}

/// A request has neural networks if and only if the configuration of the worker allows
/// `openvino` and nothing else, and carries the data that it was started with and no
/// other.
pub proof fn law_request_of_config(run: Run, path: Seq<u8>, config: Config, input: Seq<u8>)
    requires
        run.serves(path, config, input),
    ensures
        run.nn is OpenVino <==> config.features.wasi_nn.allowed_backends@.len() == 1
            && config.features.wasi_nn.allowed_backends@[0]@ == "openvino"@,
        run.nn is Disabled <==> config.features.wasi_nn.allowed_backends@.len() == 0,
        run.setup.stdio.stdin@ == input,
        preview2_settings(run.setup.builder).stdin == Some(input),
        preview2_settings(run.setup.builder).stdout == Some(run.setup.stdio.stdout2),
        !preview2_settings(run.setup.builder).stdin_is_tty,
        !preview2_settings(run.setup.builder).stdout_is_tty,
        preview2_settings(run.setup.builder).preopens.len() == run.setup.mounted,
{
    law_nn_support(config.features.wasi_nn.allowed_backends@);
}

} // verus!
