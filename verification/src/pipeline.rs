//! The dual exporter pipeline: one provider whose instruments flow to a
//! periodic push reader and to an on-demand pull reader alike. This module
//! decides what is built and whether the built parts make a provider; the
//! caller builds them.

use vstd::prelude::*;

verus! {

/// Seconds between two pushes where the configuration names no interval.
pub const DEFAULT_PUSH_INTERVAL_SECS: u64 = 60;

/// What the pipeline is configured from, once, at startup.
pub struct PipelineConfig {
    pub service_name: String,
    pub version: String,
    pub environment: String,
    pub local_address: String,
    pub push_endpoint: String,
    pub push_interval_secs: Option<u64>,
}

/// The keys of the resource attributes that every exported series carries.
#[derive(Clone, Copy, PartialEq, Eq, Structural, Debug)]
pub enum ResourceKey {
    ServiceName,
    ServiceVersion,
    DeploymentEnvironment,
    NetworkLocalAddress,
}

/// One attribute of the resource.
pub struct ResourceAttribute {
    pub key: ResourceKey,
    pub value: String,
}

/// A reader to register on the provider.
pub enum Reader {
    /// Ships a batch to `endpoint` every `interval_secs` seconds.
    PushPeriodic { endpoint: String, interval_secs: u64 },
    /// Mirrors the state into the shared registry for scrapes.
    PullOnDemand,
}

/// Everything to build for one provider.
pub struct PipelinePlan {
    pub resource: Vec<ResourceAttribute>,
    pub readers: Vec<Reader>,
}

/// Why no provider could be made.
#[derive(Clone, Copy, PartialEq, Eq, Structural, Debug)]
pub enum ConfigurationError {
    /// The push exporter rejected its transport configuration.
    PushExporterRejected,
    /// The pull exporter could not be bound to the shared registry.
    PullExporterRejected,
}

/// The push interval in force: the configured one, or the default.
pub open spec fn effective_interval(configured: Option<u64>) -> u64 {
    match configured {
        Some(secs) => secs,
        None => DEFAULT_PUSH_INTERVAL_SECS,
    }
}

/// Whether `plan` is the plan for `config`: the four resource attributes in
/// order, then the push reader on the configured endpoint and interval, then
/// the pull reader, both on the one provider.
pub open spec fn is_plan_for(plan: PipelinePlan, config: PipelineConfig) -> bool {
    &&& plan.resource@.len() == 4
    &&& plan.resource@[0].key == ResourceKey::ServiceName
    &&& plan.resource@[0].value@ == config.service_name@
    &&& plan.resource@[1].key == ResourceKey::ServiceVersion
    &&& plan.resource@[1].value@ == config.version@
    &&& plan.resource@[2].key == ResourceKey::DeploymentEnvironment
    &&& plan.resource@[2].value@ == config.environment@
    &&& plan.resource@[3].key == ResourceKey::NetworkLocalAddress
    &&& plan.resource@[3].value@ == config.local_address@
    &&& plan.readers@.len() == 2
    &&& plan.readers@[0] matches Reader::PushPeriodic { endpoint, interval_secs }
    &&& endpoint@ == config.push_endpoint@
    &&& interval_secs == effective_interval(config.push_interval_secs)
    &&& plan.readers@[1] is PullOnDemand
}

/// The outcome of building the two exporters.
pub open spec fn outcome_of(push_accepted: bool, pull_accepted: bool) -> Result<
    (),
    ConfigurationError,
> {
    if !push_accepted {
        Err(ConfigurationError::PushExporterRejected)
    } else if !pull_accepted {
        Err(ConfigurationError::PullExporterRejected)
    } else {
        Ok(())
    }
}

/// The push interval to use for a configured one.
pub fn push_interval(configured: Option<u64>) -> (secs: u64)
    ensures
        secs == effective_interval(configured),
{
    match configured {
        Some(secs) => secs,
        None => DEFAULT_PUSH_INTERVAL_SECS,
    }
}

/// Lays out the provider for a configuration.
pub fn plan_pipeline(config: &PipelineConfig) -> (plan: PipelinePlan)
    ensures
        is_plan_for(plan, *config),
{
    let mut resource: Vec<ResourceAttribute> = Vec::new();
    resource.push(
        ResourceAttribute { key: ResourceKey::ServiceName, value: config.service_name.clone() },
    );
    resource.push(
        ResourceAttribute { key: ResourceKey::ServiceVersion, value: config.version.clone() },
    );
    resource.push(
        ResourceAttribute {
            key: ResourceKey::DeploymentEnvironment,
            value: config.environment.clone(),
        },
    );
    resource.push(
        ResourceAttribute {
            key: ResourceKey::NetworkLocalAddress,
            value: config.local_address.clone(),
        },
    );
    let mut readers: Vec<Reader> = Vec::new();
    readers.push(
        Reader::PushPeriodic {
            endpoint: config.push_endpoint.clone(),
            interval_secs: push_interval(config.push_interval_secs),
        },
    );
    readers.push(Reader::PullOnDemand);
    PipelinePlan { resource, readers }
}

/// Decides whether the built exporters make a provider. Startup fails on the
/// first exporter that rejected its configuration, and nothing is left
/// running; with both accepted the provider stands.
pub fn conclude(push_accepted: bool, pull_accepted: bool) -> (r: Result<(), ConfigurationError>)
    ensures
        r == outcome_of(push_accepted, pull_accepted),
        r is Ok <==> push_accepted && pull_accepted,
{
    if !push_accepted {
        Err(ConfigurationError::PushExporterRejected)
    } else if !pull_accepted {
        Err(ConfigurationError::PullExporterRejected)
    } else {
        Ok(())
    }
}

} // verus!
