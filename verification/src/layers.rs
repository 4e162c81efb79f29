//! The layer catalog and the fixed layer sequence of a build.
//!
//! A layer is the unit of composition: each one stands for a registration step
//! that contributes shared resources and long-running tasks to the assembled
//! service. Layers are registered in a strict sequence — base layers, then
//! precondition layers, then per-component layers in scheduler order — and the
//! sequence itself, not an explicit graph, guarantees that a layer's
//! requirements are registered before the layer that needs them.

use vstd::prelude::*;
use crate::components::{Component, expansion_order};
use crate::config::{CommitmentMode, ConsensusConfig, ConsensusSecrets, ExternalNodeConfig, Namespace};

verus! {

/// The trailing window of recently finalized batches that the consistency
/// checker re-verifies against the L1 record.
pub const MAX_BATCHES_TO_RECHECK: u32 = 10;

/// While bytecode compression may be optional upstream, historical batches
/// exist on either convention, so a follower must accept transactions without
/// compressed bytecode.
pub const OPTIONAL_BYTECODE_COMPRESSION: bool = true;

/// One registration step of the service builder, carrying the values the
/// corresponding subsystem is configured with.
#[derive(Clone, Debug, PartialEq, Eq)]
pub enum Layer {
    /// Installs the process-shutdown handle consumed by the runtime.
    SigintHandler,
    /// Binds the health reporting port and aggregates later layers' health
    /// contributions.
    HealthCheck { port: u16, slow_time_limit_ms: Option<u64>, hard_time_limit_ms: Option<u64> },
    /// Exports telemetry; registered only when telemetry configuration is
    /// supplied.
    PrometheusExporter { listener_port: u16, push_interval_ms: u64 },
    /// Produces the shared database pools; replica settings reuse the primary
    /// settings.
    Pools {
        server_url: String,
        replica_url: String,
        max_connections: u32,
        slow_query_threshold_ms: Option<u64>,
        with_master: bool,
        with_replica: bool,
    },
    /// Produces the rate-limited client of the upstream node.
    MainNodeClient { url: String, rate_limit_rps: u32, l2_chain_id: u64 },
    /// Produces the L1 chain client.
    QueryEthClient { l1_chain_id: u64, url: String },
    /// Precondition: confirms the configured commitment generation mode
    /// matches the deployed contract's mode.
    L1BatchCommitmentModeValidation { diamond_proxy_addr: u64, commitment_mode: CommitmentMode },
    /// Precondition: confirms configured chain identifiers match what the
    /// connected endpoints report.
    ValidateChainIds { l1_chain_id: u64, l2_chain_id: u64 },
    /// Collects database metrics; mandatory housekeeping owned by `Core`.
    PostgresMetrics,
    /// Writes finalized blocks and batches to storage through a bounded queue.
    OutputHandler {
        l2_shared_bridge_addr: u64,
        seal_queue_capacity: usize,
        pre_insert_txs: bool,
        protective_reads_persistence_enabled: bool,
    },
    /// Supplies the ordered stream of transactions and blocks to replay.
    ExternalIO { l2_chain_id: u64 },
    /// Re-executes incoming batches.
    MainBatchExecutor { save_call_traces: bool, optional_bytecode_compression: bool },
    /// The replication driver itself, with its local cache tuning.
    StateKeeper {
        state_cache_path: String,
        db_block_cache_capacity: u64,
        db_max_open_files: Option<u32>,
    },
    /// Consensus participation in follower mode, with key material read from
    /// the secret store at build time.
    Consensus { config: Option<ConsensusConfig>, secrets: Option<ConsensusSecrets> },
    /// Bounded removal of historical data beyond the retention window;
    /// registered only when pruning is enabled.
    Pruning { removal_delay_ms: u64, chunk_size: u32, data_retention_ms: u64 },
    /// Re-verifies a trailing window of finalized batches against L1.
    ConsistencyChecker { diamond_proxy_addr: u64, max_batches_to_recheck: u32, commitment_mode: CommitmentMode },
    /// Computes the data committed to L1 for each batch.
    CommitmentGenerator { commitment_mode: CommitmentMode, max_parallelism: Option<u32> },
    /// Reconciles local batch status against upstream-reported status.
    BatchStatusUpdater,
    /// Fetches externally computed tree roots.
    TreeDataFetcher { diamond_proxy_addr: u64 },
}

/// The kind of a layer, disregarding its parameters.
#[derive(Clone, Copy, Debug, PartialEq, Eq, Structural)]
pub enum LayerKind {
    SigintHandler,
    HealthCheck,
    PrometheusExporter,
    Pools,
    MainNodeClient,
    QueryEthClient,
    L1BatchCommitmentModeValidation,
    ValidateChainIds,
    PostgresMetrics,
    OutputHandler,
    ExternalIO,
    MainBatchExecutor,
    StateKeeper,
    Consensus,
    Pruning,
    ConsistencyChecker,
    CommitmentGenerator,
    BatchStatusUpdater,
    TreeDataFetcher,
}

/// The kind of a layer.
pub open spec fn layer_kind(l: Layer) -> LayerKind {
    match l {
        Layer::SigintHandler => LayerKind::SigintHandler,
        Layer::HealthCheck { .. } => LayerKind::HealthCheck,
        Layer::PrometheusExporter { .. } => LayerKind::PrometheusExporter,
        Layer::Pools { .. } => LayerKind::Pools,
        Layer::MainNodeClient { .. } => LayerKind::MainNodeClient,
        Layer::QueryEthClient { .. } => LayerKind::QueryEthClient,
        Layer::L1BatchCommitmentModeValidation { .. } => LayerKind::L1BatchCommitmentModeValidation,
        Layer::ValidateChainIds { .. } => LayerKind::ValidateChainIds,
        Layer::PostgresMetrics => LayerKind::PostgresMetrics,
        Layer::OutputHandler { .. } => LayerKind::OutputHandler,
        Layer::ExternalIO { .. } => LayerKind::ExternalIO,
        Layer::MainBatchExecutor { .. } => LayerKind::MainBatchExecutor,
        Layer::StateKeeper { .. } => LayerKind::StateKeeper,
        Layer::Consensus { .. } => LayerKind::Consensus,
        Layer::Pruning { .. } => LayerKind::Pruning,
        Layer::ConsistencyChecker { .. } => LayerKind::ConsistencyChecker,
        Layer::CommitmentGenerator { .. } => LayerKind::CommitmentGenerator,
        Layer::BatchStatusUpdater => LayerKind::BatchStatusUpdater,
        Layer::TreeDataFetcher { .. } => LayerKind::TreeDataFetcher,
    }
}

/// Whether a layer sequence holds a layer of the given kind.
pub open spec fn has_layer_kind(layers: Seq<Layer>, k: LayerKind) -> bool {
    exists|i: int| 0 <= i < layers.len() && layer_kind(layers[i]) == k
}

/// The health check server layer of a configuration.
pub open spec fn healthcheck_layer(cfg: ExternalNodeConfig) -> Layer {
    Layer::HealthCheck {
        port: cfg.required.healthcheck_port,
        slow_time_limit_ms: cfg.optional.healthcheck_slow_time_limit_ms,
        hard_time_limit_ms: cfg.optional.healthcheck_hard_time_limit_ms,
    }
}

/// The telemetry layers of a configuration: one exporter when telemetry
/// configuration is supplied, none otherwise.
pub open spec fn prometheus_layers(cfg: ExternalNodeConfig) -> Seq<Layer> {
    match cfg.observability.prometheus {
        Some(prom) => seq![
            Layer::PrometheusExporter {
                listener_port: prom.listener_port,
                push_interval_ms: prom.push_interval_ms,
            },
        ],
        None => Seq::empty(),
    }
}

/// The database pools layer of a configuration.
pub open spec fn pools_layer(cfg: ExternalNodeConfig) -> Layer {
    Layer::Pools {
        server_url: cfg.postgres.database_url,
        replica_url: cfg.postgres.database_url,
        max_connections: cfg.postgres.max_connections,
        slow_query_threshold_ms: cfg.optional.slow_query_threshold_ms,
        with_master: true,
        with_replica: true,
    }
}

/// The upstream-node client layer of a configuration.
pub open spec fn main_node_client_layer(cfg: ExternalNodeConfig) -> Layer {
    Layer::MainNodeClient {
        url: cfg.required.main_node_url,
        rate_limit_rps: cfg.optional.main_node_rate_limit_rps,
        l2_chain_id: cfg.required.l2_chain_id,
    }
}

/// The L1 client layer of a configuration.
pub open spec fn query_eth_client_layer(cfg: ExternalNodeConfig) -> Layer {
    Layer::QueryEthClient {
        l1_chain_id: cfg.required.l1_chain_id,
        url: cfg.required.eth_client_url,
    }
}

/// The base layers registered for every build, regardless of the requested
/// components, in their fixed order.
pub open spec fn base_layers(cfg: ExternalNodeConfig) -> Seq<Layer> {
    seq![Layer::SigintHandler, healthcheck_layer(cfg)] + prometheus_layers(cfg)
        + seq![pools_layer(cfg), main_node_client_layer(cfg), query_eth_client_layer(cfg)]
}

/// The precondition layers that validate configuration against the live chain
/// before any per-component layer registers.
pub open spec fn precondition_layers(cfg: ExternalNodeConfig) -> Seq<Layer> {
    seq![
        Layer::L1BatchCommitmentModeValidation {
            diamond_proxy_addr: cfg.remote.diamond_proxy_addr,
            commitment_mode: cfg.optional.l1_batch_commit_data_generator_mode,
        },
        Layer::ValidateChainIds {
            l1_chain_id: cfg.required.l1_chain_id,
            l2_chain_id: cfg.required.l2_chain_id,
        },
    ]
}

/// The persistence stage of the state-replication pipeline.
pub open spec fn output_handler_layer(cfg: ExternalNodeConfig) -> Layer
    recommends
        cfg.remote.l2_shared_bridge_addr is Some,
{
    Layer::OutputHandler {
        l2_shared_bridge_addr: cfg.remote.l2_shared_bridge_addr.unwrap(),
        seal_queue_capacity: cfg.optional.l2_block_seal_queue_capacity,
        pre_insert_txs: true,
        protective_reads_persistence_enabled: cfg.optional.protective_reads_persistence_enabled,
    }
}

/// The batch-execution stage of the state-replication pipeline.
pub open spec fn main_batch_executor_layer(cfg: ExternalNodeConfig) -> Layer {
    Layer::MainBatchExecutor {
        save_call_traces: cfg.optional.api_namespaces@.contains(Namespace::Debug),
        optional_bytecode_compression: OPTIONAL_BYTECODE_COMPRESSION,
    }
}

/// The replication-driver stage of the state-replication pipeline.
pub open spec fn state_keeper_layer(cfg: ExternalNodeConfig) -> Layer {
    Layer::StateKeeper {
        state_cache_path: cfg.required.state_cache_path,
        db_block_cache_capacity: cfg.experimental.state_keeper_db_block_cache_capacity,
        db_max_open_files: cfg.experimental.state_keeper_db_max_open_files,
    }
}

/// The four stages of the state-replication pipeline, registered strictly in
/// this order because each stage's task consumes the previous stage's output:
/// persistence, input feed, batch execution, and the replication driver.
pub open spec fn state_keeper_pipeline_layers(cfg: ExternalNodeConfig) -> Seq<Layer>
    recommends
        cfg.remote.l2_shared_bridge_addr is Some,
{
    seq![
        output_handler_layer(cfg),
        Layer::ExternalIO { l2_chain_id: cfg.required.l2_chain_id },
        main_batch_executor_layer(cfg),
        state_keeper_layer(cfg),
    ]
}

/// The pruning layers of a configuration: one pruning layer when pruning is
/// enabled, none otherwise.
pub open spec fn pruning_layers(cfg: ExternalNodeConfig) -> Seq<Layer> {
    if cfg.optional.pruning_enabled {
        seq![
            Layer::Pruning {
                removal_delay_ms: cfg.optional.pruning_removal_delay_ms,
                chunk_size: cfg.optional.pruning_chunk_size,
                data_retention_ms: cfg.optional.pruning_data_retention_ms,
            },
        ]
    } else {
        Seq::empty()
    }
}

/// The layers the `Core` component expands into, in dependency order: database
/// metrics, the four-stage state-replication pipeline, consensus, optionally
/// pruning, the consistency checker, the commitment generator, and the
/// batch-status updater.
pub open spec fn core_layers(cfg: ExternalNodeConfig, secrets: Option<ConsensusSecrets>) -> Seq<Layer>
    recommends
        cfg.remote.l2_shared_bridge_addr is Some,
{
    seq![Layer::PostgresMetrics] + state_keeper_pipeline_layers(cfg) + seq![
        Layer::Consensus { config: cfg.consensus, secrets },
    ] + pruning_layers(cfg) + seq![
        Layer::ConsistencyChecker {
            diamond_proxy_addr: cfg.remote.diamond_proxy_addr,
            max_batches_to_recheck: MAX_BATCHES_TO_RECHECK,
            commitment_mode: cfg.optional.l1_batch_commit_data_generator_mode,
        },
        Layer::CommitmentGenerator {
            commitment_mode: cfg.optional.l1_batch_commit_data_generator_mode,
            max_parallelism: cfg.experimental.commitment_generator_max_parallelism,
        },
        Layer::BatchStatusUpdater,
    ]
}

/// The layers one component expands into. `TreeApi` is folded into `Tree`'s
/// own layer set and contributes none; `Tree`, `HttpApi` and `WsApi` have no
/// expansion here, since their assembly is not supported by this builder.
pub open spec fn component_layers(
    cfg: ExternalNodeConfig,
    secrets: Option<ConsensusSecrets>,
    c: Component,
) -> Seq<Layer> {
    match c {
        Component::Core => core_layers(cfg, secrets),
        Component::TreeFetcher => seq![
            Layer::TreeDataFetcher { diamond_proxy_addr: cfg.remote.diamond_proxy_addr },
        ],
        Component::Tree => Seq::empty(),
        Component::TreeApi => Seq::empty(),
        Component::HttpApi => Seq::empty(),
        Component::WsApi => Seq::empty(),
    }
}

/// The concatenated expansions of a sequence of components, in order.
pub open spec fn expansion_layers(
    cfg: ExternalNodeConfig,
    secrets: Option<ConsensusSecrets>,
    s: Seq<Component>,
) -> Seq<Layer>
    decreases s.len(),
{
    if s.len() == 0 {
        Seq::empty()
    } else {
        expansion_layers(cfg, secrets, s.drop_last()) + component_layers(cfg, secrets, s.last())
    }
}

/// The complete layer sequence of a successful build of a requested component
/// list: base layers, precondition layers, then each component's expansion in
/// scheduler order with duplicate requests discarded.
pub open spec fn full_layer_seq(
    cfg: ExternalNodeConfig,
    secrets: Option<ConsensusSecrets>,
    requested: Seq<Component>,
) -> Seq<Layer> {
    base_layers(cfg) + precondition_layers(cfg)
        + expansion_layers(cfg, secrets, expansion_order(requested))
}

/// The number of layers a single component expands into.
pub open spec fn expansion_size(
    cfg: ExternalNodeConfig,
    secrets: Option<ConsensusSecrets>,
    c: Component,
) -> nat {
    component_layers(cfg, secrets, c).len()
}

/// The sum of the expansion sizes of a sequence of components.
pub open spec fn total_expansion_size(
    cfg: ExternalNodeConfig,
    secrets: Option<ConsensusSecrets>,
    s: Seq<Component>,
) -> nat
    decreases s.len(),
{
    if s.len() == 0 {
        0
    } else {
        total_expansion_size(cfg, secrets, s.drop_last()) + expansion_size(cfg, secrets, s.last())
    }
}

/// A layer of a given kind stands in a concatenation exactly when it stands in
/// one of the halves.
pub proof fn lemma_has_layer_kind_concat(a: Seq<Layer>, b: Seq<Layer>, k: LayerKind)
    ensures
        has_layer_kind(a + b, k) == (has_layer_kind(a, k) || has_layer_kind(b, k)),
{
    if has_layer_kind(a, k) {
        let i = choose|i: int| 0 <= i < a.len() && layer_kind(a[i]) == k;
        assert(layer_kind((a + b)[i]) == k);
    }
    if has_layer_kind(b, k) {
        let i = choose|i: int| 0 <= i < b.len() && layer_kind(b[i]) == k;
        assert(layer_kind((a + b)[a.len() + i]) == k);
    }
    if has_layer_kind(a + b, k) {
        let i = choose|i: int| 0 <= i < (a + b).len() && layer_kind((a + b)[i]) == k;
        if i < a.len() {
            assert(layer_kind(a[i]) == k);
        } else {
            assert(layer_kind(b[i - a.len()]) == k);
        }
    }
}

/// A layer of a given kind stands in a sequence of expansions exactly when it
/// stands in the expansion of one of the components.
pub proof fn lemma_expansion_has_kind(
    cfg: ExternalNodeConfig,
    secrets: Option<ConsensusSecrets>,
    s: Seq<Component>,
    k: LayerKind,
)
    ensures
        has_layer_kind(expansion_layers(cfg, secrets, s), k) == (exists|i: int|
            0 <= i < s.len() && has_layer_kind(component_layers(cfg, secrets, s[i]), k)),
    decreases s.len(),
{
    if s.len() == 0 {
    } else {
        lemma_expansion_has_kind(cfg, secrets, s.drop_last(), k);
        lemma_has_layer_kind_concat(
            expansion_layers(cfg, secrets, s.drop_last()),
            component_layers(cfg, secrets, s.last()),
            k,
        );
        if exists|i: int|
            0 <= i < s.drop_last().len() && has_layer_kind(
                component_layers(cfg, secrets, s.drop_last()[i]),
                k,
            ) {
            let i = choose|i: int|
                0 <= i < s.drop_last().len() && has_layer_kind(
                    component_layers(cfg, secrets, s.drop_last()[i]),
                    k,
                );
            assert(s[i] == s.drop_last()[i]);
            assert(has_layer_kind(component_layers(cfg, secrets, s[i]), k));
        }
        if has_layer_kind(component_layers(cfg, secrets, s.last()), k) {
            assert(has_layer_kind(component_layers(cfg, secrets, s[s.len() - 1]), k));
        }
        if exists|i: int|
            0 <= i < s.len() && has_layer_kind(component_layers(cfg, secrets, s[i]), k) {
            let i = choose|i: int|
                0 <= i < s.len() && has_layer_kind(component_layers(cfg, secrets, s[i]), k);
            if i < s.len() - 1 {
                assert(s.drop_last()[i] == s[i]);
                assert(has_layer_kind(component_layers(cfg, secrets, s.drop_last()[i]), k));
            } else {
                assert(s[i] == s.last());
            }
        }
    }
}

/// A component's expansion holds a pruning layer exactly when the component is
/// `Core` and pruning is enabled.
pub proof fn lemma_component_has_pruning(
    cfg: ExternalNodeConfig,
    secrets: Option<ConsensusSecrets>,
    c: Component,
)
    ensures
        has_layer_kind(component_layers(cfg, secrets, c), LayerKind::Pruning) == (c
            == Component::Core && cfg.optional.pruning_enabled),
{
    match c {
        Component::Core => {
            let head = seq![Layer::PostgresMetrics] + state_keeper_pipeline_layers(cfg) + seq![
                Layer::Consensus { config: cfg.consensus, secrets },
            ];
            let tail = seq![
                Layer::ConsistencyChecker {
                    diamond_proxy_addr: cfg.remote.diamond_proxy_addr,
                    max_batches_to_recheck: MAX_BATCHES_TO_RECHECK,
                    commitment_mode: cfg.optional.l1_batch_commit_data_generator_mode,
                },
                Layer::CommitmentGenerator {
                    commitment_mode: cfg.optional.l1_batch_commit_data_generator_mode,
                    max_parallelism: cfg.experimental.commitment_generator_max_parallelism,
                },
                Layer::BatchStatusUpdater,
            ];
            assert(core_layers(cfg, secrets) =~= (head + pruning_layers(cfg)) + tail);
            lemma_has_layer_kind_concat(head + pruning_layers(cfg), tail, LayerKind::Pruning);
            lemma_has_layer_kind_concat(head, pruning_layers(cfg), LayerKind::Pruning);
            assert(!has_layer_kind(head, LayerKind::Pruning)) by {
                assert(forall|i: int|
                    0 <= i < head.len() ==> layer_kind(#[trigger] head[i]) != LayerKind::Pruning);
            }
            assert(!has_layer_kind(tail, LayerKind::Pruning)) by {
                assert(forall|i: int|
                    0 <= i < tail.len() ==> layer_kind(#[trigger] tail[i]) != LayerKind::Pruning);
            }
            if cfg.optional.pruning_enabled {
                assert(layer_kind(pruning_layers(cfg)[0]) == LayerKind::Pruning);
                assert(has_layer_kind(pruning_layers(cfg), LayerKind::Pruning));
            } else {
                assert(!has_layer_kind(pruning_layers(cfg), LayerKind::Pruning));
            }
        },
        _ => {
            assert(forall|i: int|
                0 <= i < component_layers(cfg, secrets, c).len() ==> layer_kind(
                    #[trigger] component_layers(cfg, secrets, c)[i],
                ) != LayerKind::Pruning);
        },
    }
}

/// The pruning layer stands in the finalized layer sequence exactly when
/// pruning is enabled in the configuration and the core component — the only
/// component that contributes it — was requested.
pub proof fn lemma_pruning_layer_presence(
    cfg: ExternalNodeConfig,
    secrets: Option<ConsensusSecrets>,
    requested: Seq<Component>,
)
    ensures
        has_layer_kind(full_layer_seq(cfg, secrets, requested), LayerKind::Pruning) == (
        cfg.optional.pruning_enabled && requested.contains(Component::Core)),
{
    let ord = expansion_order(requested);
    lemma_has_layer_kind_concat(
        base_layers(cfg) + precondition_layers(cfg),
        expansion_layers(cfg, secrets, ord),
        LayerKind::Pruning,
    );
    lemma_has_layer_kind_concat(base_layers(cfg), precondition_layers(cfg), LayerKind::Pruning);
    assert(!has_layer_kind(base_layers(cfg), LayerKind::Pruning)) by {
        assert(forall|i: int|
            0 <= i < base_layers(cfg).len() ==> layer_kind(#[trigger] base_layers(cfg)[i])
                != LayerKind::Pruning);
    }
    assert(!has_layer_kind(precondition_layers(cfg), LayerKind::Pruning)) by {
        assert(forall|i: int|
            0 <= i < precondition_layers(cfg).len() ==> layer_kind(
                #[trigger] precondition_layers(cfg)[i],
            ) != LayerKind::Pruning);
    }
    lemma_expansion_has_kind(cfg, secrets, ord, LayerKind::Pruning);
    assert forall|i: int| 0 <= i < ord.len() implies (has_layer_kind(
        component_layers(cfg, secrets, ord[i]),
        LayerKind::Pruning,
    ) == (ord[i] == Component::Core && cfg.optional.pruning_enabled)) by {
        lemma_component_has_pruning(cfg, secrets, ord[i]);
    }
    crate::components::lemma_expansion_order_contains(requested, Component::Core);
    if cfg.optional.pruning_enabled && requested.contains(Component::Core) {
        let i = choose|i: int| 0 <= i < ord.len() && ord[i] == Component::Core;
        assert(has_layer_kind(component_layers(cfg, secrets, ord[i]), LayerKind::Pruning));
    }
}

/// A component's expansion never holds a telemetry layer.
pub proof fn lemma_component_has_no_prometheus(
    cfg: ExternalNodeConfig,
    secrets: Option<ConsensusSecrets>,
    c: Component,
)
    ensures
        !has_layer_kind(component_layers(cfg, secrets, c), LayerKind::PrometheusExporter),
{
    assert(forall|i: int|
        0 <= i < component_layers(cfg, secrets, c).len() ==> layer_kind(
            #[trigger] component_layers(cfg, secrets, c)[i],
        ) != LayerKind::PrometheusExporter);
}

/// The telemetry layer stands in the finalized layer sequence exactly when
/// telemetry configuration is supplied, whatever components were requested.
pub proof fn lemma_telemetry_layer_presence(
    cfg: ExternalNodeConfig,
    secrets: Option<ConsensusSecrets>,
    requested: Seq<Component>,
)
    ensures
        has_layer_kind(full_layer_seq(cfg, secrets, requested), LayerKind::PrometheusExporter)
            == (cfg.observability.prometheus is Some),
{
    let ord = expansion_order(requested);
    lemma_has_layer_kind_concat(
        base_layers(cfg) + precondition_layers(cfg),
        expansion_layers(cfg, secrets, ord),
        LayerKind::PrometheusExporter,
    );
    lemma_has_layer_kind_concat(
        base_layers(cfg),
        precondition_layers(cfg),
        LayerKind::PrometheusExporter,
    );
    lemma_has_layer_kind_concat(
        seq![Layer::SigintHandler, healthcheck_layer(cfg)],
        prometheus_layers(cfg),
        LayerKind::PrometheusExporter,
    );
    lemma_has_layer_kind_concat(
        seq![Layer::SigintHandler, healthcheck_layer(cfg)] + prometheus_layers(cfg),
        seq![pools_layer(cfg), main_node_client_layer(cfg), query_eth_client_layer(cfg)],
        LayerKind::PrometheusExporter,
    );
    match cfg.observability.prometheus {
        Some(_) => {
            assert(layer_kind(prometheus_layers(cfg)[0]) == LayerKind::PrometheusExporter);
            assert(has_layer_kind(prometheus_layers(cfg), LayerKind::PrometheusExporter));
        },
        None => {
            assert(!has_layer_kind(prometheus_layers(cfg), LayerKind::PrometheusExporter));
        },
    }
    assert(!has_layer_kind(
        seq![Layer::SigintHandler, healthcheck_layer(cfg)],
        LayerKind::PrometheusExporter,
    )) by {
        let two = seq![Layer::SigintHandler, healthcheck_layer(cfg)];
        assert(forall|i: int|
            0 <= i < two.len() ==> layer_kind(#[trigger] two[i]) != LayerKind::PrometheusExporter);
    }
    assert(!has_layer_kind(
        seq![pools_layer(cfg), main_node_client_layer(cfg), query_eth_client_layer(cfg)],
        LayerKind::PrometheusExporter,
    )) by {
        let three = seq![pools_layer(cfg), main_node_client_layer(cfg), query_eth_client_layer(cfg)];
        assert(forall|i: int|
            0 <= i < three.len() ==> layer_kind(#[trigger] three[i])
                != LayerKind::PrometheusExporter);
    }
    assert(!has_layer_kind(precondition_layers(cfg), LayerKind::PrometheusExporter)) by {
        assert(forall|i: int|
            0 <= i < precondition_layers(cfg).len() ==> layer_kind(
                #[trigger] precondition_layers(cfg)[i],
            ) != LayerKind::PrometheusExporter);
    }
    lemma_expansion_has_kind(cfg, secrets, ord, LayerKind::PrometheusExporter);
    assert forall|i: int| 0 <= i < ord.len() implies !has_layer_kind(
        component_layers(cfg, secrets, ord[i]),
        LayerKind::PrometheusExporter,
    ) by {
        lemma_component_has_no_prometheus(cfg, secrets, ord[i]);
    }
}

/// Determinism of assembly: the finalized layer sequence is a function of the
/// configuration, the consensus secrets, and the requested component set
/// alone, so two independent builds from identical inputs compose services of
/// identical composition and order.
pub proof fn lemma_build_deterministic(
    cfg1: ExternalNodeConfig,
    cfg2: ExternalNodeConfig,
    secrets1: Option<ConsensusSecrets>,
    secrets2: Option<ConsensusSecrets>,
    requested1: Seq<Component>,
    requested2: Seq<Component>,
)
    requires
        cfg1 == cfg2,
        secrets1 == secrets2,
        requested1 == requested2,
    ensures
        full_layer_seq(cfg1, secrets1, requested1) == full_layer_seq(cfg2, secrets2, requested2),
{
}

/// A sequence of expansions is exactly as long as the sum of its components'
/// expansion sizes.
pub proof fn lemma_expansion_layers_len(
    cfg: ExternalNodeConfig,
    secrets: Option<ConsensusSecrets>,
    s: Seq<Component>,
)
    ensures
        expansion_layers(cfg, secrets, s).len() == total_expansion_size(cfg, secrets, s),
    decreases s.len(),
{
    if s.len() == 0 {
    } else {
        lemma_expansion_layers_len(cfg, secrets, s.drop_last());
    }
}

/// The expansion sizes are fixed: the core component contributes its nine
/// layers plus the pruning layer when enabled, the tree fetcher one layer, and
/// the tree API none by design.
pub proof fn lemma_component_expansion_sizes(
    cfg: ExternalNodeConfig,
    secrets: Option<ConsensusSecrets>,
)
    ensures
        expansion_size(cfg, secrets, Component::Core) == if cfg.optional.pruning_enabled {
            10nat
        } else {
            9nat
        },
        expansion_size(cfg, secrets, Component::TreeFetcher) == 1,
        expansion_size(cfg, secrets, Component::TreeApi) == 0,
{
}

/// Layer kinds are singleton keys of the assembly: a sequence registers each
/// kind — and with it each kind's produced resources — at most once.
pub open spec fn distinct_kinds(layers: Seq<Layer>) -> bool {
    forall|i: int, j: int|
        0 <= i < j < layers.len() ==> layer_kind(#[trigger] layers[i]) != layer_kind(
            #[trigger] layers[j],
        )
}

/// The component responsible for contributing layers of a given kind; `None`
/// for the kinds every build registers as base or precondition layers.
pub open spec fn kind_owner(k: LayerKind) -> Option<Component> {
    match k {
        LayerKind::PostgresMetrics => Some(Component::Core),
        LayerKind::OutputHandler => Some(Component::Core),
        LayerKind::ExternalIO => Some(Component::Core),
        LayerKind::MainBatchExecutor => Some(Component::Core),
        LayerKind::StateKeeper => Some(Component::Core),
        LayerKind::Consensus => Some(Component::Core),
        LayerKind::Pruning => Some(Component::Core),
        LayerKind::ConsistencyChecker => Some(Component::Core),
        LayerKind::CommitmentGenerator => Some(Component::Core),
        LayerKind::BatchStatusUpdater => Some(Component::Core),
        LayerKind::TreeDataFetcher => Some(Component::TreeFetcher),
        _ => None,
    }
}

/// Every layer of a component's expansion is of a kind owned by that
/// component, and no kind repeats within the expansion.
pub proof fn lemma_component_layers_owned(
    cfg: ExternalNodeConfig,
    secrets: Option<ConsensusSecrets>,
    c: Component,
)
    ensures
        forall|i: int|
            0 <= i < component_layers(cfg, secrets, c).len() ==> kind_owner(
                layer_kind(#[trigger] component_layers(cfg, secrets, c)[i]),
            ) == Some(c),
        distinct_kinds(component_layers(cfg, secrets, c)),
{
    match c {
        Component::Core => {
            let flat = if cfg.optional.pruning_enabled {
                seq![
                    Layer::PostgresMetrics,
                    output_handler_layer(cfg),
                    Layer::ExternalIO { l2_chain_id: cfg.required.l2_chain_id },
                    main_batch_executor_layer(cfg),
                    state_keeper_layer(cfg),
                    Layer::Consensus { config: cfg.consensus, secrets },
                    Layer::Pruning {
                        removal_delay_ms: cfg.optional.pruning_removal_delay_ms,
                        chunk_size: cfg.optional.pruning_chunk_size,
                        data_retention_ms: cfg.optional.pruning_data_retention_ms,
                    },
                    Layer::ConsistencyChecker {
                        diamond_proxy_addr: cfg.remote.diamond_proxy_addr,
                        max_batches_to_recheck: MAX_BATCHES_TO_RECHECK,
                        commitment_mode: cfg.optional.l1_batch_commit_data_generator_mode,
                    },
                    Layer::CommitmentGenerator {
                        commitment_mode: cfg.optional.l1_batch_commit_data_generator_mode,
                        max_parallelism: cfg.experimental.commitment_generator_max_parallelism,
                    },
                    Layer::BatchStatusUpdater,
                ]
            } else {
                seq![
                    Layer::PostgresMetrics,
                    output_handler_layer(cfg),
                    Layer::ExternalIO { l2_chain_id: cfg.required.l2_chain_id },
                    main_batch_executor_layer(cfg),
                    state_keeper_layer(cfg),
                    Layer::Consensus { config: cfg.consensus, secrets },
                    Layer::ConsistencyChecker {
                        diamond_proxy_addr: cfg.remote.diamond_proxy_addr,
                        max_batches_to_recheck: MAX_BATCHES_TO_RECHECK,
                        commitment_mode: cfg.optional.l1_batch_commit_data_generator_mode,
                    },
                    Layer::CommitmentGenerator {
                        commitment_mode: cfg.optional.l1_batch_commit_data_generator_mode,
                        max_parallelism: cfg.experimental.commitment_generator_max_parallelism,
                    },
                    Layer::BatchStatusUpdater,
                ]
            };
            assert(core_layers(cfg, secrets) =~= flat);
            assert(forall|i: int|
                0 <= i < flat.len() ==> kind_owner(layer_kind(#[trigger] flat[i])) == Some(
                    Component::Core,
                ));
            assert forall|i: int, j: int|
                0 <= i < j < flat.len() implies layer_kind(#[trigger] flat[i]) != layer_kind(
                #[trigger] flat[j],
            ) by {
            }
        },
        _ => {
        },
    }
}

/// Base and precondition layers are of kinds no component owns, and no kind
/// repeats among them.
pub proof fn lemma_base_and_precondition_kinds(cfg: ExternalNodeConfig)
    ensures
        forall|i: int|
            0 <= i < (base_layers(cfg) + precondition_layers(cfg)).len() ==> kind_owner(
                layer_kind(#[trigger] (base_layers(cfg) + precondition_layers(cfg))[i]),
            ) is None,
        distinct_kinds(base_layers(cfg) + precondition_layers(cfg)),
{
    let fixed = base_layers(cfg) + precondition_layers(cfg);
    match cfg.observability.prometheus {
        Some(_) => {
            let flat = seq![
                Layer::SigintHandler,
                healthcheck_layer(cfg),
                prometheus_layers(cfg)[0],
                pools_layer(cfg),
                main_node_client_layer(cfg),
                query_eth_client_layer(cfg),
                precondition_layers(cfg)[0],
                precondition_layers(cfg)[1],
            ];
            assert(fixed =~= flat);
            assert(forall|i: int|
                0 <= i < flat.len() ==> kind_owner(layer_kind(#[trigger] flat[i])) is None);
            assert forall|i: int, j: int|
                0 <= i < j < flat.len() implies layer_kind(#[trigger] flat[i]) != layer_kind(
                #[trigger] flat[j],
            ) by {
            }
        },
        None => {
            let flat = seq![
                Layer::SigintHandler,
                healthcheck_layer(cfg),
                pools_layer(cfg),
                main_node_client_layer(cfg),
                query_eth_client_layer(cfg),
                precondition_layers(cfg)[0],
                precondition_layers(cfg)[1],
            ];
            assert(fixed =~= flat);
            assert(forall|i: int|
                0 <= i < flat.len() ==> kind_owner(layer_kind(#[trigger] flat[i])) is None);
            assert forall|i: int, j: int|
                0 <= i < j < flat.len() implies layer_kind(#[trigger] flat[i]) != layer_kind(
                #[trigger] flat[j],
            ) by {
            }
        },
    }
}

/// Across a duplicate-free component sequence, no layer kind is contributed
/// twice.
pub proof fn lemma_expansion_distinct_kinds(
    cfg: ExternalNodeConfig,
    secrets: Option<ConsensusSecrets>,
    s: Seq<Component>,
)
    requires
        s.no_duplicates(),
    ensures
        distinct_kinds(expansion_layers(cfg, secrets, s)),
    decreases s.len(),
{
    if s.len() == 0 {
    } else {
        assert(s.drop_last().no_duplicates()) by {
            assert(forall|i: int, j: int|
                0 <= i < j < s.drop_last().len() ==> s.drop_last()[i] == s[i]
                    && s.drop_last()[j] == s[j]);
        }
        lemma_expansion_distinct_kinds(cfg, secrets, s.drop_last());
        lemma_component_layers_owned(cfg, secrets, s.last());
        let a = expansion_layers(cfg, secrets, s.drop_last());
        let b = component_layers(cfg, secrets, s.last());
        let whole = a + b;
        assert forall|i: int, j: int|
            0 <= i < j < whole.len() implies layer_kind(#[trigger] whole[i]) != layer_kind(
            #[trigger] whole[j],
        ) by {
            if j < a.len() {
                assert(whole[i] == a[i] && whole[j] == a[j]);
            } else if i >= a.len() {
                assert(whole[i] == b[i - a.len()] && whole[j] == b[j - a.len()]);
            } else {
                assert(whole[i] == a[i] && whole[j] == b[j - a.len()]);
                let k = layer_kind(a[i]);
                if k == layer_kind(b[j - a.len()]) {
                    assert(kind_owner(k) == Some(s.last()));
                    assert(has_layer_kind(a, k));
                    lemma_expansion_has_kind(cfg, secrets, s.drop_last(), k);
                    let m = choose|m: int|
                        0 <= m < s.drop_last().len() && has_layer_kind(
                            component_layers(cfg, secrets, s.drop_last()[m]),
                            k,
                        );
                    lemma_component_layers_owned(cfg, secrets, s.drop_last()[m]);
                    let n = choose|n: int|
                        0 <= n < component_layers(cfg, secrets, s.drop_last()[m]).len()
                            && layer_kind(component_layers(cfg, secrets, s.drop_last()[m])[n])
                            == k;
                    assert(kind_owner(k) == Some(s.drop_last()[m]));
                    assert(s[m] == s[s.len() - 1]);
                    assert(false);
                }
            }
        }
    }
}

/// No layer is registered twice: the finalized sequence of any build holds at
/// most one layer of each kind, so each kind's shared resources are produced
/// by a single registration.
pub proof fn lemma_no_layer_registered_twice(
    cfg: ExternalNodeConfig,
    secrets: Option<ConsensusSecrets>,
    requested: Seq<Component>,
)
    ensures
        distinct_kinds(full_layer_seq(cfg, secrets, requested)),
        full_layer_seq(cfg, secrets, requested).no_duplicates(),
{
    let ord = expansion_order(requested);
    crate::components::lemma_expansion_order_no_duplicates(requested);
    lemma_base_and_precondition_kinds(cfg);
    lemma_expansion_distinct_kinds(cfg, secrets, ord);
    let fixed = base_layers(cfg) + precondition_layers(cfg);
    let expanded = expansion_layers(cfg, secrets, ord);
    let whole = full_layer_seq(cfg, secrets, requested);
    assert(whole =~= fixed + expanded);
    assert forall|i: int, j: int|
        0 <= i < j < whole.len() implies layer_kind(#[trigger] whole[i]) != layer_kind(
        #[trigger] whole[j],
    ) by {
        if j < fixed.len() {
            assert(whole[i] == fixed[i] && whole[j] == fixed[j]);
        } else if i >= fixed.len() {
            assert(whole[i] == expanded[i - fixed.len()] && whole[j] == expanded[j - fixed.len()]);
        } else {
            assert(whole[i] == fixed[i] && whole[j] == expanded[j - fixed.len()]);
            let k = layer_kind(fixed[i]);
            if k == layer_kind(expanded[j - fixed.len()]) {
                assert(has_layer_kind(expanded, k));
                lemma_expansion_has_kind(cfg, secrets, ord, k);
                let m = choose|m: int|
                    0 <= m < ord.len() && has_layer_kind(
                        component_layers(cfg, secrets, ord[m]),
                        k,
                    );
                lemma_component_layers_owned(cfg, secrets, ord[m]);
                let n = choose|n: int|
                    0 <= n < component_layers(cfg, secrets, ord[m]).len() && layer_kind(
                        component_layers(cfg, secrets, ord[m])[n],
                    ) == k;
                assert(kind_owner(k) == Some(ord[m]));
                assert(false);
            }
        }
    }
    assert forall|i: int, j: int| 0 <= i < j < whole.len() implies whole[i] != whole[j] by {
    }
}

/// The finalized layer count of a build equals the count of base and
/// precondition layers plus the sum of each selected component's fixed
/// expansion size, duplicates counted once.
pub proof fn lemma_layer_count(
    cfg: ExternalNodeConfig,
    secrets: Option<ConsensusSecrets>,
    requested: Seq<Component>,
)
    ensures
        full_layer_seq(cfg, secrets, requested).len() == base_layers(cfg).len()
            + precondition_layers(cfg).len() + total_expansion_size(
            cfg,
            secrets,
            expansion_order(requested),
        ),
{
    lemma_expansion_layers_len(cfg, secrets, expansion_order(requested));
}

} // verus!
