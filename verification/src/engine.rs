//! The Wasm engine and what it compiles.
use vstd::prelude::*;
use wasmtime::component::Component;
use wasmtime::{Engine, Module};

use crate::errors::WorkerError;

verus! {

/// A Wasm engine. Its value stands for the engine, whichever handle it is
/// reached by.
#[verifier::external_type_specification]
#[verifier::external_body]
pub struct ExEngine(wasmtime::Engine);

/// A compiled module.
#[verifier::external_type_specification]
#[verifier::external_body]
pub struct ExModule(wasmtime::Module);

/// A compiled component.
#[verifier::external_type_specification]
#[verifier::external_body]
pub struct ExComponent(wasmtime::component::Component);

/// What the engine reports when it fails.
#[verifier::external_type_specification]
#[verifier::external_body]
pub struct ExEngineError(wasmtime::Error);

/// What an engine can do.
pub struct EngineSettings {
    /// Guests run as futures.
    pub async_support: bool,
    /// Components are accepted.
    pub component_model: bool,
}

/// What the engine was made to do.
pub uninterp spec fn engine_settings(engine: Engine) -> EngineSettings;

/// The engine that compiled the module, and the binary that it was compiled from.
pub uninterp spec fn module_source(module: Module) -> (Engine, Seq<u8>);

/// The engine that compiled the component, and the binary that it was compiled
/// from.
pub uninterp spec fn component_source(component: Component) -> (Engine, Seq<u8>);

/// At some moment, the engine refused to compile the binary as a component.
pub uninterp spec fn refused_as_component(engine: Engine, binary: Seq<u8>) -> bool;

/// At some moment, the engine refused to compile the binary as a module.
pub uninterp spec fn refused_as_module(engine: Engine, binary: Seq<u8>) -> bool;

/// What the error says.
pub uninterp spec fn engine_error_text(error: wasmtime::Error) -> Seq<char>;

/// Calls `Engine::new` with a default configuration but for the two settings. It
/// refuses a configuration that is at odds with itself, which this one is not,
/// whatever the two settings are. On a host that the compiler does not know, or
/// whose signal handlers cannot be set, it panics; nothing is said of such hosts.
#[verifier::external_body]
fn new_engine(async_support: bool, component_model: bool) -> (made: Result<
    Engine,
    wasmtime::Error,
>)
    ensures
        made is Ok,
        made matches Ok(engine) ==> engine_settings(engine) == (EngineSettings {
            async_support,
            component_model,
        }),
{
    let mut config = wasmtime::Config::default();
    Engine::new(config.async_support(async_support).wasm_component_model(component_model))
}

/// Calls `Component::from_binary`, which compiles the binary with the engine or
/// refuses it. Which binaries it takes is left to it and to the machine.
#[verifier::external_body]
fn compile_component(engine: &Engine, binary: &[u8]) -> (compiled: Result<
    Component,
    wasmtime::Error,
>)
    ensures
        compiled matches Ok(component) ==> component_source(component) == (*engine, binary@),
        compiled is Err ==> refused_as_component(*engine, binary@),
{
    Component::from_binary(engine, binary)
}

/// Calls `Module::from_binary`, which compiles the binary with the engine or refuses
/// it. Which binaries it takes is left to it and to the machine.
#[verifier::external_body]
fn compile_module(engine: &Engine, binary: &[u8]) -> (compiled: Result<Module, wasmtime::Error>)
    ensures
        compiled matches Ok(module) ==> module_source(module) == (*engine, binary@),
        compiled is Err ==> refused_as_module(*engine, binary@),
{
    Module::from_binary(engine, binary)
}

/// Formats a `wasmtime::Error` with its `Display`.
#[verifier::external_body]
pub(crate) fn describe_engine_error(error: &wasmtime::Error) -> (text: String)
    ensures
        text@ == engine_error_text(*error),
{
    format!("{error}")
}

/// What an engine for workers can do: run components, and as futures.
pub open spec fn worker_settings() -> EngineSettings {
    EngineSettings { async_support: true, component_model: true }
}

/// Makes an engine for workers.
pub fn worker_engine() -> (made: Result<Engine, wasmtime::Error>)
    ensures
        made matches Ok(engine) && engine_settings(engine) == worker_settings(),
        made matches Ok(engine) && engine_settings(engine).async_support && engine_settings(
            engine,
        ).component_model,
{
    new_engine(true, true)
}

/// The code of a worker.
pub enum ModuleOrComponent {
    /// A core module.
    Module(Module),
    /// A component.
    Component(Component),
}

impl ModuleOrComponent {
    /// The engine that compiled the code, and the binary that it was compiled from.
    pub open spec fn source(self) -> (Engine, Seq<u8>) {
        match self {
            ModuleOrComponent::Module(module) => module_source(module),
            ModuleOrComponent::Component(component) => component_source(component),
        }
    }

    /// The code is what the engine takes the binary for: a component, or a module
    /// where it has refused the binary as a component.
    pub open spec fn reads(self, engine: Engine, binary: Seq<u8>) -> bool {
        &&& self.source() == (engine, binary)
        &&& self is Module ==> refused_as_component(engine, binary)
    }

    /// What a binary is taken for when it was compiled as these: a component if
    /// it is one, else a module.
    pub fn preferred(component: Option<Component>, module: Option<Module>) -> (code: Result<
        Self,
        WorkerError,
    >)
        ensures
            code == match (component, module) {
                (Some(c), _) => Ok::<Self, WorkerError>(ModuleOrComponent::Component(c)),
                (None, Some(m)) => Ok(ModuleOrComponent::Module(m)),
                (None, None) => Err(WorkerError::BadWasmModuleOrComponent),
            },
    {
        match component {
            Some(component) => Ok(ModuleOrComponent::Component(component)),
            None => match module {
                Some(module) => Ok(ModuleOrComponent::Module(module)),
                None => Err(WorkerError::BadWasmModuleOrComponent),
            },
        }
    }

    /// Compiles a binary, as a component if that works and else as a module. It
    /// fails only where neither works, which is up to the engine.
    pub fn from_binary(engine: &Engine, binary: &[u8]) -> (code: Result<Self, WorkerError>)
        ensures
            match code {
                Ok(code) => {
                    &&& code.reads(*engine, binary@)
                    &&& code matches ModuleOrComponent::Component(component)
                        ==> component_source(component) == (*engine, binary@)
                    &&& code matches ModuleOrComponent::Module(module) ==> module_source(module)
                        == (*engine, binary@) && refused_as_component(*engine, binary@)
                },
                Err(error) => {
                    &&& error is BadWasmModuleOrComponent
                    &&& refused_as_component(*engine, binary@)
                    &&& refused_as_module(*engine, binary@)
                },
            },
    {
        match compile_component(engine, binary) {
            Ok(component) => Self::preferred(Some(component), None),
            Err(_) => Self::preferred(None, compile_module(engine, binary).ok()),
        }
    }
}

/// Code comes of one engine and one binary, and a module only of a binary that the
/// engine has refused as a component.
pub proof fn law_code_of_binary(code: ModuleOrComponent, engine: Engine, binary: Seq<u8>)
    requires
        code.reads(engine, binary),
    ensures
        code matches ModuleOrComponent::Component(component) ==> component_source(component) == (
            engine,
            binary,
        ),
        code matches ModuleOrComponent::Module(module) ==> module_source(module) == (
            engine,
            binary,
        ) && refused_as_component(engine, binary),
        forall|other: Engine, bytes: Seq<u8>| #[trigger]
            code.reads(other, bytes) ==> other == engine && bytes == binary,
{
}

/// An engine for workers runs components, and as futures.
pub proof fn law_worker_settings(engine: Engine)
    requires
        engine_settings(engine) == worker_settings(),
    ensures
        engine_settings(engine).async_support,
        engine_settings(engine).component_model,
{
}

} // verus!
