//! What a start-up reads of a node configuration.
use crate::components::{ConfigId, EndpointsId, RegistryId};
use vstd::prelude::*;

verus! {

/// The part that a node plays in the network.
#[derive(Clone, Copy, Debug, PartialEq, Eq, Structural)]
pub enum Role {
    /// A full node.
    Full,
    /// A light client.
    Light,
    /// An authority: the node authors blocks.
    Authority,
}

impl Role {
    /// Whether the node authors blocks.
    pub fn is_authority(&self) -> (authority: bool)
        ensures
            authority == (*self == Role::Authority),
    {
        matches!(self, Role::Authority)
    }

    /// Whether the node is a light client.
    pub fn is_light(&self) -> (light: bool)
        ensures
            light == (*self == Role::Light),
    {
        matches!(self, Role::Light)
    }
}

/// How the runtime's Wasm code is executed.
#[derive(Clone, Copy, Debug, PartialEq, Eq, Structural)]
pub enum WasmExecutionMethod {
    Interpreted,
    Compiled,
}

/// A list of telemetry endpoints: its name, and whether it holds no endpoint.
#[derive(Clone, Copy, Debug, PartialEq, Eq, Structural)]
pub struct TelemetryEndpoints {
    pub id: EndpointsId,
    pub is_empty: bool,
}

/// A node configuration: its name, and the settings that decide how a node starts.
#[derive(Clone, Copy, Debug, PartialEq, Eq, Structural)]
pub struct Configuration {
    pub id: ConfigId,
    pub role: Role,
    pub telemetry_endpoints: Option<TelemetryEndpoints>,
    pub wasm_method: WasmExecutionMethod,
    pub default_heap_pages: Option<u64>,
    pub max_runtime_instances: usize,
    pub prometheus_registry: Option<RegistryId>,
    pub force_authoring: bool,
    pub offchain_worker_enabled: bool,
}

impl Configuration {
    /// The endpoints that telemetry is sent to, if there is any endpoint to send it to.
    pub open spec fn telemetry_targets(self) -> Option<EndpointsId> {
        match self.telemetry_endpoints {
            Some(endpoints) if !endpoints.is_empty => Some(endpoints.id),
            _ => None,
        }
    }

    /// The endpoints that telemetry is sent to: those configured, unless the list is empty.
    pub fn telemetry(&self) -> (endpoints: Option<EndpointsId>)
        ensures
            endpoints == self.telemetry_targets(),
    {
        match self.telemetry_endpoints {
            Some(endpoints) => if endpoints.is_empty {
                None
            } else {
                Some(endpoints.id)
            },
            None => None,
        }
    }
}

} // verus!
