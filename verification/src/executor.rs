//! The runtime of a chain, and the executor that runs it.
use crate::components::{NativeExecutorId, RuntimeApiId};
use crate::config::{Configuration, WasmExecutionMethod};
use vstd::prelude::*;

verus! {

/// Native executor instance.
#[derive(Clone, Copy, Debug, PartialEq, Eq, Structural)]
pub struct TemplateRuntimeExecutor;

/// The native side of an executor.
#[derive(Clone, Copy, Debug, PartialEq, Eq, Structural)]
pub enum NativeExecutor {
    /// The template's own.
    Template(TemplateRuntimeExecutor),
    /// Any other.
    Other(NativeExecutorId),
}

/// The API that a client calls its runtime through.
#[derive(Clone, Copy, Debug, PartialEq, Eq, Structural)]
pub enum RuntimeApi {
    /// The template's own.
    Template,
    /// Any other.
    Other(RuntimeApiId),
}

/// The runtime that a node is made for.
#[derive(Clone, Copy, Debug, PartialEq, Eq, Structural)]
pub struct Runtime {
    pub api: RuntimeApi,
    pub executor: NativeExecutor,
}

impl Runtime {
    /// The template's own runtime.
    pub open spec fn of_template() -> Runtime {
        Runtime {
            api: RuntimeApi::Template,
            executor: NativeExecutor::Template(TemplateRuntimeExecutor),
        }
    }

    /// Gives the template's own runtime.
    pub fn template() -> (runtime: Runtime)
        ensures
            runtime == Runtime::of_template(),
    {
        Runtime {
            api: RuntimeApi::Template,
            executor: NativeExecutor::Template(TemplateRuntimeExecutor),
        }
    }
}

/// What an executor is made with that runs the runtime natively where the versions agree, and
/// otherwise its Wasm code.
#[derive(Clone, Copy, Debug, PartialEq, Eq, Structural)]
pub struct ExecutorSettings {
    pub native: NativeExecutor,
    pub wasm_method: WasmExecutionMethod,
    pub default_heap_pages: Option<u64>,
    pub max_runtime_instances: usize,
}

impl ExecutorSettings {
    /// The settings that a configuration asks for, of an executor with the given native side.
    pub open spec fn of(config: Configuration, native: NativeExecutor) -> ExecutorSettings {
        ExecutorSettings {
            native,
            wasm_method: config.wasm_method,
            default_heap_pages: config.default_heap_pages,
            max_runtime_instances: config.max_runtime_instances,
        }
    }

    /// Reads the settings of an executor out of a configuration.
    pub fn new(config: &Configuration, native: NativeExecutor) -> (settings: ExecutorSettings)
        ensures
            settings == ExecutorSettings::of(*config, native),
    {
        ExecutorSettings {
            native,
            wasm_method: config.wasm_method,
            default_heap_pages: config.default_heap_pages,
            max_runtime_instances: config.max_runtime_instances,
        }
    }
}

} // verus!
