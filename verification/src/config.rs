//! The configuration bundle consumed by the builder.
//!
//! The bundle is grouped into required fields (endpoints, chain identifiers,
//! ports), optional fields with defaults (rate limits, feature flags,
//! thresholds), remote fields derived from the chain itself (contract
//! addresses), and experimental tunables (cache sizes). It is owned by the
//! builder for the duration of assembly and read-only after the initial load.
//! Durations are carried as milliseconds; contract addresses as numeric
//! identifiers.

use vstd::prelude::*;

verus! {

/// An API namespace that the node's web3 interface may expose.
#[derive(Clone, Copy, Debug, PartialEq, Eq, Structural)]
pub enum Namespace {
    Eth,
    Net,
    Web3,
    Debug,
    Zks,
    En,
    Pubsub,
}

/// Whether a namespace set enables a given namespace.
pub fn namespaces_contain(namespaces: &Vec<Namespace>, target: Namespace) -> (r: bool)
    ensures
        r == namespaces@.contains(target),
{
    let mut i: usize = 0;
    while i < namespaces.len()
        invariant
            i <= namespaces@.len(),
            forall|j: int| 0 <= j < i ==> namespaces@[j] != target,
        decreases namespaces@.len() - i,
    {
        if namespaces[i] == target {
            return true;
        }
        i += 1;
    }
    false
}

/// The mode in which commitment data for L1 is generated.
#[derive(Clone, Copy, Debug, PartialEq, Eq, Structural)]
pub enum CommitmentMode {
    /// Full pubdata is committed to L1.
    Rollup,
    /// Only state diffs' hashes are committed to L1.
    Validium,
}

/// Configuration that must always be present.
#[derive(Clone, Debug, PartialEq, Eq)]
pub struct RequiredConfig {
    /// Endpoint of the upstream node that the follower replicates from.
    pub main_node_url: String,
    /// Endpoint of the L1 chain client.
    pub eth_client_url: String,
    /// Identifier of the local (L2) chain.
    pub l2_chain_id: u64,
    /// Identifier of the base (L1) chain.
    pub l1_chain_id: u64,
    /// Port on which aggregated health status is reported.
    pub healthcheck_port: u16,
    /// Path of the replication driver's local state cache.
    pub state_cache_path: String,
}

/// Database connection settings. The node's configuration surface does not
/// support independent replica tuning, so the builder reuses these settings
/// for the replica pool as well.
#[derive(Clone, Debug, PartialEq, Eq)]
pub struct PostgresSettings {
    /// Connection URL of the database.
    pub database_url: String,
    /// Maximum number of pooled connections.
    pub max_connections: u32,
}

/// Configuration with defaults: absence of a value is never an error.
#[derive(Clone, Debug, PartialEq, Eq)]
pub struct OptionalConfig {
    /// Threshold above which a database query is reported as slow.
    pub slow_query_threshold_ms: Option<u64>,
    /// Rate limit applied to the upstream-node client, in requests per second.
    pub main_node_rate_limit_rps: u32,
    /// Threshold above which a health check response is reported as slow.
    pub healthcheck_slow_time_limit_ms: Option<u64>,
    /// Threshold above which a health check response is treated as failed.
    pub healthcheck_hard_time_limit_ms: Option<u64>,
    /// Capacity bound of the queue feeding the block-sealing path.
    pub l2_block_seal_queue_capacity: usize,
    /// Whether protective reads are persisted alongside finalized blocks.
    pub protective_reads_persistence_enabled: bool,
    /// The API namespaces the node exposes.
    pub api_namespaces: Vec<Namespace>,
    /// Whether historical state beyond the retention window is pruned.
    pub pruning_enabled: bool,
    /// Delay before removal of prunable data.
    pub pruning_removal_delay_ms: u64,
    /// Number of blocks removed per pruning pass.
    pub pruning_chunk_size: u32,
    /// Window of data kept by the pruning task.
    pub pruning_data_retention_ms: u64,
    /// The configured commitment-data generation mode.
    pub l1_batch_commit_data_generator_mode: CommitmentMode,
}

/// Values fetched or derived from the chain itself rather than local files.
#[derive(Clone, Copy, Debug, PartialEq, Eq)]
pub struct RemoteConfig {
    /// Address of the shared bridge contract on L2, if deployed.
    pub l2_shared_bridge_addr: Option<u64>,
    /// Address of the chain's main (diamond proxy) contract on L1.
    pub diamond_proxy_addr: u64,
}

/// Experimental tunables, subject to change.
#[derive(Clone, Copy, Debug, PartialEq, Eq)]
pub struct ExperimentalConfig {
    /// Block cache capacity of the replication driver's local database.
    pub state_keeper_db_block_cache_capacity: u64,
    /// Open-file bound of the replication driver's local database.
    pub state_keeper_db_max_open_files: Option<u32>,
    /// Maximum internal parallelism of the commitment generator.
    pub commitment_generator_max_parallelism: Option<u32>,
}

/// Telemetry-export settings; presence alone determines activation.
#[derive(Clone, Copy, Debug, PartialEq, Eq)]
pub struct PrometheusConfig {
    /// Port on which metrics are served.
    pub listener_port: u16,
    /// Interval between pushes to a metrics gateway.
    pub push_interval_ms: u64,
}

/// Observability configuration.
#[derive(Clone, Copy, Debug, PartialEq, Eq)]
pub struct ObservabilityConfig {
    /// Telemetry configuration, if supplied.
    pub prometheus: Option<PrometheusConfig>,
}

/// Consensus-participation settings.
#[derive(Clone, Copy, Debug, PartialEq, Eq)]
pub struct ConsensusConfig {
    /// Maximum accepted consensus payload size, in bytes.
    pub max_payload_size: u64,
}

/// Consensus key material, read synchronously from a dedicated secret store
/// before assembly; a failed read is a fatal build-time error reported by the
/// caller.
#[derive(Clone, Copy, Debug, PartialEq, Eq)]
pub struct ConsensusSecrets {
    /// The node's validator key.
    pub validator_key: [u8; 32],
    /// The node's network key.
    pub node_key: [u8; 32],
}

/// The whole configuration bundle of the node.
#[derive(Clone, Debug, PartialEq, Eq)]
pub struct ExternalNodeConfig {
    pub required: RequiredConfig,
    pub postgres: PostgresSettings,
    pub optional: OptionalConfig,
    pub remote: RemoteConfig,
    pub experimental: ExperimentalConfig,
    pub observability: ObservabilityConfig,
    /// Consensus configuration, if the node participates in consensus gossip.
    pub consensus: Option<ConsensusConfig>,
}

} // verus!
