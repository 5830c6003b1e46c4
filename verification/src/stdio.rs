//! The standard streams of a worker.
use vstd::prelude::*;
use wasmtime_wasi::preview2;
use wasmtime_wasi::preview2::pipe::MemoryOutputPipe;
use wasmtime_wasi::WasiCtxBuilder;

use crate::bytes::copy;
use crate::wasi;
use crate::wasi::{
    buffer_has_held, buffer_made_empty, context_settings, has_been_shared, has_held, made_empty,
    pipe_capacity, preview1_settings, preview2_settings, OutputBuffer, Preview1Settings,
    Preview2Settings,
};

verus! {

/// How many bytes a preview 2 worker can answer with.
pub const STDOUT_CAPACITY: usize = 10240;

/// The standard streams of one request: the data for the worker goes in through
/// standard input, and what the worker answers comes out of standard output.
pub struct Stdio {
    /// The data for the worker.
    pub stdin: Vec<u8>,
    /// Where a preview 1 worker writes its answer.
    pub stdout: OutputBuffer,
    /// Where a preview 2 worker writes its answer.
    pub stdout2: MemoryOutputPipe,
}

impl Stdio {
    /// The streams carry `input` to the worker and started with no answer in them. The
    /// answer of a preview 2 worker is bounded.
    pub open spec fn carries(self, input: Seq<u8>) -> bool {
        &&& self.stdin@ == input
        &&& buffer_made_empty(self.stdout)
        &&& made_empty(self.stdout2)
        &&& pipe_capacity(self.stdout2) == STDOUT_CAPACITY
    }

    /// `settings` with the streams as those of a preview 1 worker.
    pub open spec fn in_preview1(self, settings: Preview1Settings) -> Preview1Settings {
        Preview1Settings {
            stdin: Some(self.stdin@),
            stdout: Some(self.stdout),
            inherits_stderr: true,
            ..settings
        }
    }

    /// `settings` with the streams as those of a preview 2 worker, neither of
    /// them a terminal.
    pub open spec fn in_preview2(self, settings: Preview2Settings) -> Preview2Settings {
        Preview2Settings {
            stdin: Some(self.stdin@),
            stdin_is_tty: false,
            stdout: Some(self.stdout2),
            stdout_is_tty: false,
            inherits_stderr: true,
            ..settings
        }
    }

    /// Fresh streams with `input` as the data for the worker.
    pub fn new(input: &[u8]) -> (stdio: Self)
        ensures
            stdio.carries(input@),
            stdio.stdin@ == input@,
            buffer_made_empty(stdio.stdout),
            made_empty(stdio.stdout2),
            pipe_capacity(stdio.stdout2) == 10240,
    {
        Stdio {
            stdin: copy(input),
            stdout: wasi::new_in_memory(),
            stdout2: MemoryOutputPipe::new(STDOUT_CAPACITY),
        }
    }

    /// Makes the streams those of the contexts that the given builders make.
    pub fn configure_wasi_ctx<'a>(
        &'a self,
        builder_preview1: Option<&'a mut WasiCtxBuilder>,
        builder_preview2: Option<&'a mut preview2::WasiCtxBuilder>,
    )
        ensures
            builder_preview1 matches Some(b) ==> preview1_settings(*final(b)) == self.in_preview1(
                preview1_settings(*b),
            ),
            builder_preview2 matches Some(b) ==> preview2_settings(*final(b)) == self.in_preview2(
                preview2_settings(*b),
            ),
            builder_preview1 matches Some(b) ==> {
                let settings = preview1_settings(*final(b));
                &&& settings.stdin == Some(self.stdin@)
                &&& settings.stdout == Some(self.stdout)
                &&& settings.inherits_stderr
            },
            builder_preview2 matches Some(b) ==> {
                let settings = preview2_settings(*final(b));
                &&& settings.stdin == Some(self.stdin@)
                &&& settings.stdout == Some(self.stdout2)
                &&& !settings.stdin_is_tty
                &&& !settings.stdout_is_tty
                &&& settings.inherits_stderr
            },
    {
        if let Some(builder) = builder_preview1 {
            wasi::preview1_stdin(builder, copy(self.stdin.as_slice()));
            wasi::preview1_stdout(builder, &self.stdout);
            wasi::preview1_inherit_stderr(builder);
        }
        if let Some(builder) = builder_preview2 {
            wasi::preview2_stdin(builder, copy(self.stdin.as_slice()), false);
            wasi::preview2_stdout(builder, self.stdout2.clone(), false);
            wasi::preview2_inherit_stderr(builder);
        }
    }

    /// What a preview 2 worker has answered so far, which is up to the worker but
    /// for its size.
    pub fn output(&self) -> (bytes: Vec<u8>)
        ensures
            has_held(self.stdout2, bytes@),
            bytes@.len() <= pipe_capacity(self.stdout2),
    {
        wasi::contents(&self.stdout2)
    }

    /// What a preview 1 worker has answered, once its context is gone. While a context
    /// still writes to standard output there is no answer.
    pub fn into_output(self) -> (bytes: Option<Vec<u8>>)
        ensures
            match bytes {
                Some(held) => buffer_has_held(self.stdout, held@),
                None => has_been_shared(self.stdout),
            },
    {
        wasi::into_contents(self.stdout)
    }
}

/// What is read back is what the worker's own stream held: a context that was given
/// the streams writes to the very pipe that is read for its kind, and the pipe for the
/// other kind is no part of it.
pub proof fn law_output_read_back(
    stdio: Stdio,
    before1: Preview1Settings,
    before2: Preview2Settings,
    context: preview2::WasiCtx,
    answer1: Seq<u8>,
    answer2: Seq<u8>,
)
    requires
        buffer_has_held(stdio.stdout, answer1),
        has_held(stdio.stdout2, answer2),
        context_settings(context) == stdio.in_preview2(before2),
    ensures
        stdio.in_preview1(before1).stdout matches Some(buffer) && buffer == stdio.stdout
            && buffer_has_held(buffer, answer1),
        context_settings(context).stdout matches Some(pipe) && pipe == stdio.stdout2 && has_held(
            pipe,
            answer2,
        ),
{
}

/// Whatever the data, a preview 2 worker that was given the streams reads the data,
/// writes to its own pipe and takes neither stream for a terminal. Nothing else of its
/// context changes.
pub proof fn law_streams_of_preview2(stdio: Stdio, before: Preview2Settings)
    ensures
        ({
            let after = stdio.in_preview2(before);
            &&& after.stdin == Some(stdio.stdin@)
            &&& after.stdout == Some(stdio.stdout2)
            &&& !after.stdin_is_tty
            &&& !after.stdout_is_tty
            &&& after.inherits_stderr
            &&& after.envs == before.envs
            &&& after.args == before.args
            &&& after.preopens == before.preopens
            &&& after.built == before.built
        }),
{
}

/// Whatever the data, a preview 1 worker that was given the streams reads the data and
/// writes to its own pipe. Nothing else of its context changes.
pub proof fn law_streams_of_preview1(stdio: Stdio, before: Preview1Settings)
    ensures
        ({
            let after = stdio.in_preview1(before);
            &&& after.stdin == Some(stdio.stdin@)
            &&& after.stdout == Some(stdio.stdout)
            &&& after.inherits_stderr
            &&& after.envs == before.envs
            &&& after.args == before.args
            &&& after.preopens == before.preopens
        }),
{
}

/// Streams carry one piece of data only, and take 10240 bytes of an answer whatever the
/// data is.
pub proof fn law_streams_carry(stdio: Stdio, input: Seq<u8>)
    requires
        stdio.carries(input),
    ensures
        stdio.stdin@ == input,
        buffer_made_empty(stdio.stdout),
        made_empty(stdio.stdout2),
        pipe_capacity(stdio.stdout2) == 10240,
        forall|other: Seq<u8>| #[trigger] stdio.carries(other) ==> other == input,
{
}

} // verus!
