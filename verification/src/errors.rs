//! What can go wrong with a worker, and how it is put into words.
use vstd::prelude::*;

verus! {

/// What a language runtime reports when it cannot serve a worker.
#[derive(Debug)]
pub enum RuntimeError {
    /// The WASI context could not be extended.
    WasiContextError,
    /// Anything else, in the runtime's own words.
    Failed { reason: String },
}

/// Why a worker could not be created or a request could not be answered.
#[derive(Debug)]
pub enum WorkerError {
    /// The bytes are neither a component nor a module.
    BadWasmModuleOrComponent,
    /// A step of the setup failed.
    ConfigureRuntimeError { reason: String },
    /// The worker has no directory to resolve its folders in.
    FailedToInitialize,
    /// The language runtime of the worker failed.
    RuntimeError(RuntimeError),
}

impl WorkerError {
    /// The error says that the setup failed for `reason`.
    pub open spec fn says(self, reason: Seq<char>) -> bool {
        self matches WorkerError::ConfigureRuntimeError { reason: r } && r@ == reason
    }
}

/// A step that reports its failure as [`WorkerError::ConfigureRuntimeError`].
#[derive(Clone, Copy, Debug, PartialEq, Eq, Structural)]
pub enum Stage {
    /// Creating the engine.
    Engine,
    /// Offering the preview 1 interface to a module.
    LinkPreview1,
    /// Handing over the environment variables.
    Environment,
    /// Opening a directory of the host.
    OpenDirectory,
    /// Giving an open directory to the worker.
    Preopen,
    /// Offering the preview 2 interface, or building its context.
    Preview2,
    /// Instantiating a module.
    Instantiate,
    /// Finding what a module starts with.
    DefaultExport,
    /// Making sure that what a module starts with takes and gives nothing.
    StartType,
    /// Running a module.
    Call,
    /// Reading the response of the worker.
    Output,
}

/// The words that a failure of `stage` starts with.
pub open spec fn stage_words(stage: Stage) -> Seq<char> {
    match stage {
        Stage::Engine => "error creating engine ("@,
        Stage::LinkPreview1 => "error adding WASI to linker ("@,
        Stage::Environment => "error adding environment variables ("@,
        Stage::OpenDirectory => "error setting up ambient directories ("@,
        Stage::Preopen => "error preopening directories ("@,
        Stage::Preview2 => "error setting up WASI preview 2: "@,
        Stage::Instantiate => "error instantiating module ("@,
        Stage::DefaultExport => "error getting default export of module ("@,
        Stage::StartType => "error getting typed object ("@,
        Stage::Call => "error calling function ("@,
        Stage::Output => "error building output ("@,
    }
}

/// The reason given for a failure of `stage`: its words with the cause behind
/// them, in parentheses but for preview 2.
pub open spec fn stage_reason(stage: Stage, cause: Seq<char>) -> Seq<char> {
    if stage is Preview2 {
        stage_words(stage) + cause
    } else {
        stage_words(stage) + cause + ")"@
    }
}

/// The error for a failure of `stage`, caused by `cause`.
pub fn configure_error(stage: Stage, cause: &str) -> (error: WorkerError)
    ensures
        error.says(stage_reason(stage, cause@)),
{
    let words = match stage {
        Stage::Engine => "error creating engine (",
        Stage::LinkPreview1 => "error adding WASI to linker (",
        Stage::Environment => "error adding environment variables (",
        Stage::OpenDirectory => "error setting up ambient directories (",
        Stage::Preopen => "error preopening directories (",
        Stage::Preview2 => "error setting up WASI preview 2: ",
        Stage::Instantiate => "error instantiating module (",
        Stage::DefaultExport => "error getting default export of module (",
        Stage::StartType => "error getting typed object (",
        Stage::Call => "error calling function (",
        Stage::Output => "error building output (",
    };
    let mut reason = words.to_owned();
    reason.append(cause);
    match stage {
        Stage::Preview2 => {},
        _ => {
            reason.append(")");
        },
    }
    WorkerError::ConfigureRuntimeError { reason }
}

/// `outcome` with its cause put into the words of `stage`.
pub fn staged<T>(stage: Stage, outcome: Result<T, String>) -> (result: Result<T, WorkerError>)
    ensures
        match outcome {
            Ok(value) => result == Ok::<T, WorkerError>(value),
            Err(cause) => result matches Err(error) && error.says(stage_reason(stage, cause@)),
        },
{
    match outcome {
        Ok(value) => Ok(value),
        Err(cause) => Err(configure_error(stage, cause.as_str())),
    }
}

/// `outcome` with the runtime's error as an error of the worker.
pub fn from_runtime<T>(outcome: Result<T, RuntimeError>) -> (result: Result<T, WorkerError>)
    ensures
        result == match outcome {
            Ok(value) => Ok::<T, WorkerError>(value),
            Err(error) => Err(WorkerError::RuntimeError(error)),
        },
{
    match outcome {
        Ok(value) => Ok(value),
        Err(error) => Err(WorkerError::RuntimeError(error)),
    }
}

/// An error says one thing only, and only a failure of the setup says anything.
pub proof fn law_says_one_thing(error: WorkerError, one: Seq<char>, two: Seq<char>)
    requires
        error.says(one),
    ensures
        error matches WorkerError::ConfigureRuntimeError { reason } && reason@ == one,
        error.says(two) <==> one == two,
{
}

/// How each failure reads: the words of its stage, and the cause in full.
pub proof fn law_reasons(cause: Seq<char>)
    ensures
        stage_reason(Stage::Engine, cause) == "error creating engine ("@ + cause + ")"@,
        stage_reason(Stage::LinkPreview1, cause) == "error adding WASI to linker ("@ + cause + ")"@,
        stage_reason(Stage::Environment, cause) == "error adding environment variables ("@ + cause
            + ")"@,
        stage_reason(Stage::OpenDirectory, cause) == "error setting up ambient directories ("@
            + cause + ")"@,
        stage_reason(Stage::Preopen, cause) == "error preopening directories ("@ + cause + ")"@,
        stage_reason(Stage::Preview2, cause) == "error setting up WASI preview 2: "@ + cause,
        stage_reason(Stage::Instantiate, cause) == "error instantiating module ("@ + cause + ")"@,
        stage_reason(Stage::DefaultExport, cause) == "error getting default export of module ("@
            + cause + ")"@,
        stage_reason(Stage::StartType, cause) == "error getting typed object ("@ + cause + ")"@,
        stage_reason(Stage::Call, cause) == "error calling function ("@ + cause + ")"@,
        stage_reason(Stage::Output, cause) == "error building output ("@ + cause + ")"@,
{
}

/// Two failures of one stage read alike only where their causes do.
pub proof fn law_reason_tells_the_cause(stage: Stage, one: Seq<char>, two: Seq<char>)
    requires
        stage_reason(stage, one) == stage_reason(stage, two),
    ensures
        one == two,
{
    let words = stage_words(stage);
    let first = stage_reason(stage, one);
    let second = stage_reason(stage, two);
    let behind: nat = if stage is Preview2 {
        0
    } else {
        ")"@.len()
    };
    assert(first.len() == words.len() + one.len() + behind);
    assert(second.len() == words.len() + two.len() + behind);
    assert(first.subrange(words.len() as int, (words.len() + one.len()) as int) =~= one);
    assert(second.subrange(words.len() as int, (words.len() + two.len()) as int) =~= two);
}

} // verus!
