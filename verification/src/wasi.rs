//! The WASI context builders and the pipes between them and the host.
use vstd::prelude::*;
use vstd::utf8::encode_utf8;
use wasmtime_wasi::preview2;
use wasmtime_wasi::preview2::pipe::MemoryOutputPipe;
use wasmtime_wasi::Dir;

verus! {

/// The builder of preview 1 contexts.
#[verifier::external_type_specification]
#[verifier::external_body]
pub struct ExPreview1Builder(wasmtime_wasi::WasiCtxBuilder);

/// The builder of preview 2 contexts.
#[verifier::external_type_specification]
#[verifier::external_body]
pub struct ExPreview2Builder(wasmtime_wasi::preview2::WasiCtxBuilder);

/// A preview 2 context.
#[verifier::external_type_specification]
#[verifier::external_body]
pub struct ExPreview2Context(wasmtime_wasi::preview2::WasiCtx);

/// The streams and directories that a preview 2 context refers to by number.
#[verifier::external_type_specification]
#[verifier::external_body]
pub struct ExPreview2Table(wasmtime_wasi::preview2::Table);

/// An open directory of the host.
#[verifier::external_type_specification]
#[verifier::external_body]
pub struct ExDir(wasmtime_wasi::Dir);

/// A bounded pipe in memory, written by a preview 2 guest. Its value stands for
/// the pipe, not for what has been written to it so far.
#[verifier::external_type_specification]
#[verifier::external_body]
pub struct ExMemoryOutputPipe(wasmtime_wasi::preview2::pipe::MemoryOutputPipe);

/// Why a directory was refused by a preview 1 builder.
#[verifier::external_type_specification]
#[verifier::external_body]
pub struct ExWasiError(wasi_common::Error);

/// An unbounded pipe in memory, written by a preview 1 guest. Its value stands
/// for the pipe, not for what has been written to it so far.
#[verifier::external_body]
#[derive(Debug)]
pub struct OutputBuffer {
    inner: wasi_common::pipe::WritePipe<std::io::Cursor<Vec<u8>>>,
}

/// What a guest may do with a directory and with the files in it.
#[derive(Clone, Copy, Debug, PartialEq, Eq, Structural)]
pub struct Access {
    /// List the directory.
    pub read: bool,
    /// Create, rename and remove entries.
    pub mutate: bool,
    /// Read files.
    pub file_read: bool,
    /// Write files.
    pub file_write: bool,
}

/// What a preview 1 builder has been told.
pub struct Preview1Settings {
    /// The bytes that standard input gives, where it is not just empty.
    pub stdin: Option<Seq<u8>>,
    /// The pipe that standard output goes to, where it is not thrown away.
    pub stdout: Option<OutputBuffer>,
    /// Standard error goes where that of the host goes.
    pub inherits_stderr: bool,
    /// The environment variables, in order.
    pub envs: Seq<(Seq<char>, Seq<char>)>,
    /// The arguments, in order.
    pub args: Seq<Seq<char>>,
    /// The directories and the places where the guest sees them, in order.
    pub preopens: Seq<(Dir, Seq<char>)>,
}

/// What a preview 2 builder has been told.
pub struct Preview2Settings {
    /// The bytes that standard input gives, where it is not closed.
    pub stdin: Option<Seq<u8>>,
    /// Standard input passes for a terminal.
    pub stdin_is_tty: bool,
    /// The pipe that standard output goes to, where it is not thrown away.
    pub stdout: Option<MemoryOutputPipe>,
    /// Standard output passes for a terminal.
    pub stdout_is_tty: bool,
    /// Standard error goes where that of the host goes.
    pub inherits_stderr: bool,
    /// The environment variables, in order.
    pub envs: Seq<(Seq<char>, Seq<char>)>,
    /// The arguments, in order.
    pub args: Seq<Seq<char>>,
    /// The directories, what may be done with them and the places where the
    /// guest sees them, in order.
    pub preopens: Seq<(Dir, Access, Seq<char>)>,
    /// It has made its context, and can make no other.
    pub built: bool,
}

/// What the builder has been told.
pub uninterp spec fn preview1_settings(builder: wasmtime_wasi::WasiCtxBuilder) -> Preview1Settings;

/// What the builder has been told.
pub uninterp spec fn preview2_settings(builder: preview2::WasiCtxBuilder) -> Preview2Settings;

/// How many bytes the pipe takes in all.
pub uninterp spec fn pipe_capacity(pipe: MemoryOutputPipe) -> nat;

/// The pipe held nothing when it was made.
pub uninterp spec fn made_empty(pipe: MemoryOutputPipe) -> bool;

/// At some moment, the pipe held just these bytes.
pub uninterp spec fn has_held(pipe: MemoryOutputPipe, bytes: Seq<u8>) -> bool;

/// What the builder that made the context had been told.
pub uninterp spec fn context_settings(context: preview2::WasiCtx) -> Preview2Settings;

/// The table holds what the context refers to by number.
pub uninterp spec fn numbers(table: preview2::Table, context: preview2::WasiCtx) -> bool;

/// The buffer held nothing when it was made.
pub uninterp spec fn buffer_made_empty(buffer: OutputBuffer) -> bool;

/// At some moment, the buffer held just these bytes.
pub uninterp spec fn buffer_has_held(buffer: OutputBuffer, bytes: Seq<u8>) -> bool;

/// At some moment, there was another handle on the buffer.
pub uninterp spec fn has_been_shared(buffer: OutputBuffer) -> bool;

/// What the error says.
pub uninterp spec fn preopen_error_text(error: wasi_common::Error) -> Seq<char>;

/// The text of each variable: its name and its value.
pub open spec fn env_views(vars: Seq<(String, String)>) -> Seq<(Seq<char>, Seq<char>)> {
    vars.map_values(|var: (String, String)| (var.0@, var.1@))
}

/// Why variables are refused by a preview 1 context.
#[derive(Clone, Copy, Debug, PartialEq, Eq, Structural)]
pub enum EnvRefusal {
    /// There are too many.
    NumberElements,
    /// One of them is too large.
    ElementSize,
    /// They are too large together.
    CumulativeSize,
}

impl EnvRefusal {
    /// How the refusal is put.
    pub open spec fn words(self) -> Seq<char> {
        match self {
            EnvRefusal::NumberElements => "Number of elements exceeds 2^32"@,
            EnvRefusal::ElementSize => "Element size exceeds 2^32"@,
            EnvRefusal::CumulativeSize => "Cumulative size exceeds 2^32"@,
        }
    }

    /// Puts the refusal into words.
    pub fn text(self) -> (text: String)
        ensures
            text@ == self.words(),
    {
        match self {
            EnvRefusal::NumberElements => "Number of elements exceeds 2^32".to_owned(),
            EnvRefusal::ElementSize => "Element size exceeds 2^32".to_owned(),
            EnvRefusal::CumulativeSize => "Cumulative size exceeds 2^32".to_owned(),
        }
    }
}

/// The bytes that a variable takes in a guest, with `=` between its name and its
/// value and a zero behind it.
pub open spec fn var_size(var: (Seq<char>, Seq<char>)) -> nat {
    encode_utf8(var.0).len() + encode_utf8(var.1).len() + 2
}

/// The bytes that the variables take in a guest.
pub open spec fn env_size(vars: Seq<(Seq<char>, Seq<char>)>) -> nat
    decreases vars.len(),
{
    if vars.len() == 0 {
        0
    } else {
        env_size(vars.drop_last()) + var_size(vars.last())
    }
}

/// Why the variables are refused, taken one by one, if they are: the first that does
/// not fit decides, by itself or with those before it.
pub open spec fn env_refusal(vars: Seq<(Seq<char>, Seq<char>)>) -> Option<EnvRefusal>
    decreases vars.len(),
{
    if vars.len() == 0 {
        None
    } else {
        match env_refusal(vars.drop_last()) {
            Some(refusal) => Some(refusal),
            None => if var_size(vars.last()) > u32::MAX {
                Some(EnvRefusal::ElementSize)
            } else if env_size(vars) > u32::MAX {
                Some(EnvRefusal::CumulativeSize)
            } else {
                None
            },
        }
    }
}

/// Variables are refused if and only if they take 2^32 bytes or more. Before there are
/// too many to count, they are too large.
pub proof fn law_env_limit(vars: Seq<(Seq<char>, Seq<char>)>)
    ensures
        env_refusal(vars) is None <==> env_size(vars) <= u32::MAX,
        env_refusal(vars) != Some(EnvRefusal::NumberElements),
        2 * vars.len() <= env_size(vars),
    decreases vars.len(),
{
    if vars.len() > 0 {
        law_env_limit(vars.drop_last());
    }
}

/// `MemoryOutputPipe::new` makes an empty pipe that takes `capacity` bytes. Each call
/// makes a pipe of its own. That is not said here: the contract of a call speaks of
/// that call, not of the pipes that other calls made.
pub assume_specification[ MemoryOutputPipe::new ](capacity: usize) -> (pipe: MemoryOutputPipe)
    ensures
        pipe_capacity(pipe) == capacity,
        made_empty(pipe),
;

/// `MemoryOutputPipe::clone` gives another handle on the same pipe.
pub assume_specification[ <MemoryOutputPipe as Clone>::clone ](pipe: &MemoryOutputPipe) -> (handle:
    MemoryOutputPipe)
    ensures
        handle == *pipe,
;

/// Calls `MemoryOutputPipe::contents`, which gives the bytes that the pipe holds at
/// that moment. They are up to the guest; there are never more than the pipe takes,
/// since a write beyond that is refused.
#[verifier::external_body]
pub(crate) fn contents(pipe: &MemoryOutputPipe) -> (bytes: Vec<u8>)
    ensures
        has_held(*pipe, bytes@),
        bytes@.len() <= pipe_capacity(*pipe),
{
    pipe.contents().to_vec()
}

/// Calls `WritePipe::new_in_memory`, which makes an empty pipe, one of its own at
/// each call.
#[verifier::external_body]
pub(crate) fn new_in_memory() -> (pipe: OutputBuffer)
    ensures
        buffer_made_empty(pipe),
{
    OutputBuffer { inner: wasi_common::pipe::WritePipe::new_in_memory() }
}

/// Calls `WritePipe::try_into_inner`, which gives what the pipe holds where there is
/// no other handle on it. It panics where a write to the pipe has panicked.
#[verifier::external_body]
pub(crate) fn into_contents(buffer: OutputBuffer) -> (bytes: Option<Vec<u8>>)
    ensures
        bytes matches Some(held) ==> buffer_has_held(buffer, held@),
        bytes is None ==> has_been_shared(buffer),
{
    buffer.inner.try_into_inner().ok().map(|cursor| cursor.into_inner())
}

/// Calls `preview2::WasiCtxBuilder::new`, whose defaults are a closed standard
/// input, discarded output, no variables, arguments or directories.
#[verifier::external_body]
pub(crate) fn preview2_builder() -> (builder: preview2::WasiCtxBuilder)
    ensures
        preview2_settings(builder) == (Preview2Settings {
            stdin: None,
            stdin_is_tty: false,
            stdout: None,
            stdout_is_tty: false,
            inherits_stderr: false,
            envs: Seq::empty(),
            args: Seq::empty(),
            preopens: Seq::empty(),
            built: false,
        }),
{
    preview2::WasiCtxBuilder::new()
}

/// Calls `preview2::WasiCtxBuilder::stdin` with a `MemoryInputPipe` over `bytes`:
/// it replaces the standard input and nothing else.
#[verifier::external_body]
pub(crate) fn preview2_stdin(builder: &mut preview2::WasiCtxBuilder, bytes: Vec<u8>, is_tty: bool)
    ensures
        preview2_settings(*final(builder)) == (Preview2Settings {
            stdin: Some(bytes@),
            stdin_is_tty: is_tty,
            ..preview2_settings(*old(builder))
        }),
{
    let tty = [preview2::IsATTY::No, preview2::IsATTY::Yes][usize::from(is_tty)];
    builder.stdin(preview2::pipe::MemoryInputPipe::new(bytes.into()), tty);
}

/// Calls `preview2::WasiCtxBuilder::stdout`: it replaces the standard output and
/// nothing else.
#[verifier::external_body]
pub(crate) fn preview2_stdout(
    builder: &mut preview2::WasiCtxBuilder,
    pipe: MemoryOutputPipe,
    is_tty: bool,
)
    ensures
        preview2_settings(*final(builder)) == (Preview2Settings {
            stdout: Some(pipe),
            stdout_is_tty: is_tty,
            ..preview2_settings(*old(builder))
        }),
{
    let tty = [preview2::IsATTY::No, preview2::IsATTY::Yes][usize::from(is_tty)];
    builder.stdout(pipe, tty);
}

/// Calls `preview2::WasiCtxBuilder::inherit_stderr`: it replaces the standard
/// error and nothing else.
#[verifier::external_body]
pub(crate) fn preview2_inherit_stderr(builder: &mut preview2::WasiCtxBuilder)
    ensures
        preview2_settings(*final(builder)) == (Preview2Settings {
            inherits_stderr: true,
            ..preview2_settings(*old(builder))
        }),
{
    builder.inherit_stderr();
}

/// Calls `preview2::WasiCtxBuilder::preopened_dir`: it adds one directory behind
/// those that are there.
#[verifier::external_body]
pub(crate) fn preview2_preopened_dir(
    builder: &mut preview2::WasiCtxBuilder,
    dir: Dir,
    access: Access,
    guest_path: &str,
)
    ensures
        preview2_settings(*final(builder)) == (Preview2Settings {
            preopens: preview2_settings(*old(builder)).preopens.push((dir, access, guest_path@)),
            ..preview2_settings(*old(builder))
        }),
{
    let mut perms = preview2::DirPerms::empty();
    perms.set(preview2::DirPerms::READ, access.read);
    perms.set(preview2::DirPerms::MUTATE, access.mutate);
    let mut file_perms = preview2::FilePerms::empty();
    file_perms.set(preview2::FilePerms::READ, access.file_read);
    file_perms.set(preview2::FilePerms::WRITE, access.file_write);
    builder.preopened_dir(dir, perms, file_perms, guest_path);
}

/// Calls `preview2::WasiCtxBuilder::build` with a new `Table`. It panics where the
/// builder has made a context before. It gives a number of 32 bits to each of the
/// three streams and to each directory, in that table, and fails if and only if there
/// are too many.
#[verifier::external_body]
pub(crate) fn preview2_build(builder: preview2::WasiCtxBuilder) -> (made: Result<
    (preview2::WasiCtx, preview2::Table),
    wasmtime::Error,
>)
    requires
        !preview2_settings(builder).built,
    ensures
        made is Ok <==> preview2_settings(builder).preopens.len() + 3 <= u32::MAX,
        made matches Ok((context, table)) ==> context_settings(context) == preview2_settings(
            builder,
        ),
        made matches Ok((context, table)) ==> numbers(table, context),
{
    let mut builder = builder;
    let mut table = preview2::Table::default();
    builder.build(&mut table).map(|context| (context, table))
}

/// Calls `wasmtime_wasi::WasiCtxBuilder::new`, whose defaults are an empty
/// standard input, discarded output, no variables, arguments or directories.
#[verifier::external_body]
pub(crate) fn preview1_builder() -> (builder: wasmtime_wasi::WasiCtxBuilder)
    ensures
        preview1_settings(builder) == (Preview1Settings {
            stdin: None,
            stdout: None,
            inherits_stderr: false,
            envs: Seq::empty(),
            args: Seq::empty(),
            preopens: Seq::empty(),
        }),
{
    wasmtime_wasi::WasiCtxBuilder::new()
}

/// Calls `wasmtime_wasi::WasiCtxBuilder::stdin` with a `ReadPipe` over `bytes`: it
/// replaces the standard input and nothing else.
#[verifier::external_body]
pub(crate) fn preview1_stdin(builder: &mut wasmtime_wasi::WasiCtxBuilder, bytes: Vec<u8>)
    ensures
        preview1_settings(*final(builder)) == (Preview1Settings {
            stdin: Some(bytes@),
            ..preview1_settings(*old(builder))
        }),
{
    builder.stdin(Box::new(wasi_common::pipe::ReadPipe::new(std::io::Cursor::new(bytes))));
}

/// Calls `wasmtime_wasi::WasiCtxBuilder::stdout` with a handle on `pipe`: it
/// replaces the standard output and nothing else.
#[verifier::external_body]
pub(crate) fn preview1_stdout(builder: &mut wasmtime_wasi::WasiCtxBuilder, pipe: &OutputBuffer)
    ensures
        preview1_settings(*final(builder)) == (Preview1Settings {
            stdout: Some(*pipe),
            ..preview1_settings(*old(builder))
        }),
{
    builder.stdout(Box::new(pipe.inner.clone()));
}

/// Calls `wasmtime_wasi::WasiCtxBuilder::inherit_stderr`: it replaces the standard
/// error and nothing else.
#[verifier::external_body]
pub(crate) fn preview1_inherit_stderr(builder: &mut wasmtime_wasi::WasiCtxBuilder)
    ensures
        preview1_settings(*final(builder)) == (Preview1Settings {
            inherits_stderr: true,
            ..preview1_settings(*old(builder))
        }),
{
    builder.inherit_stderr();
}

/// Calls `wasmtime_wasi::WasiCtxBuilder::envs`, which adds the variables one by one
/// behind those that are there, up to the first that does not fit. What a refused call
/// leaves of the variables is not said.
#[verifier::external_body]
pub(crate) fn preview1_envs(
    builder: &mut wasmtime_wasi::WasiCtxBuilder,
    vars: &[(String, String)],
) -> (added: Result<(), EnvRefusal>)
    ensures
        added == match env_refusal(preview1_settings(*old(builder)).envs + env_views(vars@)) {
            None => Ok::<(), EnvRefusal>(()),
            Some(refusal) => Err(refusal),
        },
        preview1_settings(*final(builder)) == (Preview1Settings {
            envs: preview1_settings(*final(builder)).envs,
            ..preview1_settings(*old(builder))
        }),
        added is Ok ==> preview1_settings(*final(builder)).envs == preview1_settings(
            *old(builder),
        ).envs + env_views(vars@),
{
    match builder.envs(vars) {
        Ok(_) => Ok(()),
        Err(wasi_common::StringArrayError::NumberElements) => Err(EnvRefusal::NumberElements),
        Err(wasi_common::StringArrayError::ElementSize) => Err(EnvRefusal::ElementSize),
        Err(wasi_common::StringArrayError::CumulativeSize) => Err(EnvRefusal::CumulativeSize),
    }
}

/// Calls `wasmtime_wasi::WasiCtxBuilder::preopened_dir`, which adds one directory
/// behind those that are there. It numbers the directories in 32 bits, with three
/// numbers taken, and refuses one if and only if there is no number left, which
/// changes nothing; it says so in fixed words. This is said of builders that were
/// given no sockets, as the library gives none.
#[verifier::external_body]
pub(crate) fn preview1_preopened_dir(
    builder: &mut wasmtime_wasi::WasiCtxBuilder,
    dir: Dir,
    guest_path: &str,
) -> (added: Result<(), wasi_common::Error>)
    ensures
        added is Ok <==> preview1_settings(*old(builder)).preopens.len() < u32::MAX - 3,
        added matches Err(error) ==> preopen_error_text(error) == "table has no free keys"@,
        preview1_settings(*final(builder)) == (Preview1Settings {
            preopens: if added is Ok {
                preview1_settings(*old(builder)).preopens.push((dir, guest_path@))
            } else {
                preview1_settings(*old(builder)).preopens
            },
            ..preview1_settings(*old(builder))
        }),
{
    builder.preopened_dir(dir, guest_path).map(|_| ())
}

/// Formats a `wasi_common::Error` with its `Display`.
#[verifier::external_body]
pub(crate) fn describe_preopen_error(error: &wasi_common::Error) -> (text: String)
    ensures
        text@ == preopen_error_text(*error),
{
    format!("{error}")
}

/// Every variable is there, in order, with its whole name and value.
pub proof fn law_env_views(vars: Seq<(String, String)>)
    ensures
        env_views(vars).len() == vars.len(),
        forall|i: int|
            0 <= i < vars.len() ==> #[trigger] env_views(vars)[i] == (vars[i].0@, vars[i].1@),
{
}

/// One more variable takes the bytes of its name and of its value, and two more.
pub proof fn law_env_size_of_more(vars: Seq<(Seq<char>, Seq<char>)>, var: (Seq<char>, Seq<char>))
    ensures
        env_size(Seq::<(Seq<char>, Seq<char>)>::empty()) == 0,
        env_size(vars.push(var)) == env_size(vars) + encode_utf8(var.0).len() + encode_utf8(
            var.1,
        ).len() + 2,
{
    assert(vars.push(var).drop_last() =~= vars);
}

/// Once variables are refused, more of them change nothing. Until then one more is
/// refused for its own size, or else for the size of them all.
pub proof fn law_env_refusal_of_more(
    vars: Seq<(Seq<char>, Seq<char>)>,
    var: (Seq<char>, Seq<char>),
)
    ensures
        env_refusal(Seq::<(Seq<char>, Seq<char>)>::empty()) is None,
        env_refusal(vars) is Some ==> env_refusal(vars.push(var)) == env_refusal(vars),
        env_refusal(vars) is None ==> {
            let size = encode_utf8(var.0).len() + encode_utf8(var.1).len() + 2;
            &&& size > u32::MAX ==> env_refusal(vars.push(var)) == Some(EnvRefusal::ElementSize)
            &&& size <= u32::MAX && env_size(vars) + size > u32::MAX ==> env_refusal(vars.push(var))
                == Some(EnvRefusal::CumulativeSize)
            &&& env_size(vars) + size <= u32::MAX ==> env_refusal(vars.push(var)) is None
        },
{
    assert(vars.push(var).drop_last() =~= vars);
}

/// How each refusal reads.
pub proof fn law_refusal_words()
    ensures
        EnvRefusal::NumberElements.words() == "Number of elements exceeds 2^32"@,
        EnvRefusal::ElementSize.words() == "Element size exceeds 2^32"@,
        EnvRefusal::CumulativeSize.words() == "Cumulative size exceeds 2^32"@,
{
}

} // verus!
