use external_node::builder::ExternalNodeBuilder;
use external_node::components::Component;
use external_node::config::{
    CommitmentMode, ConsensusConfig, ConsensusSecrets, ExperimentalConfig, ExternalNodeConfig,
    Namespace, ObservabilityConfig, OptionalConfig, PostgresSettings, PrometheusConfig,
    RemoteConfig, RequiredConfig,
};
use external_node::layers::Layer;
use external_node::price_api::{BaseTokenAPIPrice, PriceAPIClient, PriceFetchError};
use external_node::service::Service;

fn config_with(pruning_enabled: bool, prometheus: Option<PrometheusConfig>) -> ExternalNodeConfig {
    ExternalNodeConfig {
        required: RequiredConfig {
            main_node_url: String::from("http://main-node.local:3050"),
            eth_client_url: String::from("http://l1-node.local:8545"),
            l2_chain_id: 270,
            l1_chain_id: 9,
            healthcheck_port: 3081,
            state_cache_path: String::from("./db/state_keeper"),
        },
        postgres: PostgresSettings {
            database_url: String::from("postgres://localhost:5432/external_node"),
            max_connections: 50,
        },
        optional: OptionalConfig {
            slow_query_threshold_ms: Some(100),
            main_node_rate_limit_rps: 100,
            healthcheck_slow_time_limit_ms: Some(500),
            healthcheck_hard_time_limit_ms: Some(2_000),
            l2_block_seal_queue_capacity: 10,
            protective_reads_persistence_enabled: true,
            api_namespaces: vec![Namespace::Eth, Namespace::Debug],
            pruning_enabled,
            pruning_removal_delay_ms: 60_000,
            pruning_chunk_size: 10,
            pruning_data_retention_ms: 3_600_000,
            l1_batch_commit_data_generator_mode: CommitmentMode::Rollup,
        },
        remote: RemoteConfig {
            l2_shared_bridge_addr: Some(0x2222),
            diamond_proxy_addr: 0x1111,
        },
        experimental: ExperimentalConfig {
            state_keeper_db_block_cache_capacity: 128 << 20,
            state_keeper_db_max_open_files: Some(256),
            commitment_generator_max_parallelism: Some(4),
        },
        observability: ObservabilityConfig { prometheus },
        consensus: Some(ConsensusConfig { max_payload_size: 2_500_000 }),
    }
}

fn secrets() -> ConsensusSecrets {
    ConsensusSecrets { validator_key: [1; 32], node_key: [2; 32] }
}

fn build(config: ExternalNodeConfig, set: Vec<Component>) -> Service {
    ExternalNodeBuilder::new(config)
        .build(set, Some(secrets()))
        .unwrap()
}

fn kind_name(layer: &Layer) -> &'static str {
    match layer {
        Layer::SigintHandler => "sigint",
        Layer::HealthCheck { .. } => "healthcheck",
        Layer::PrometheusExporter { .. } => "prometheus",
        Layer::Pools { .. } => "pools",
        Layer::MainNodeClient { .. } => "main_node_client",
        Layer::QueryEthClient { .. } => "query_eth_client",
        Layer::L1BatchCommitmentModeValidation { .. } => "commitment_mode_validation",
        Layer::ValidateChainIds { .. } => "validate_chain_ids",
        Layer::PostgresMetrics => "postgres_metrics",
        Layer::OutputHandler { .. } => "output_handler",
        Layer::ExternalIO { .. } => "external_io",
        Layer::MainBatchExecutor { .. } => "main_batch_executor",
        Layer::StateKeeper { .. } => "state_keeper",
        Layer::Consensus { .. } => "consensus",
        Layer::Pruning { .. } => "pruning",
        Layer::ConsistencyChecker { .. } => "consistency_checker",
        Layer::CommitmentGenerator { .. } => "commitment_generator",
        Layer::BatchStatusUpdater => "batch_status_updater",
        Layer::TreeDataFetcher { .. } => "tree_data_fetcher",
    }
}

fn kind_names(service: &Service) -> Vec<&'static str> {
    service.layers().iter().map(kind_name).collect()
}

#[test]
fn core_and_tree_fetcher_build_the_full_pipeline_in_order() {
    let prometheus = Some(PrometheusConfig { listener_port: 3312, push_interval_ms: 10_000 });
    let service = build(
        config_with(true, prometheus),
        vec![Component::Core, Component::TreeFetcher],
    );
    assert_eq!(
        kind_names(&service),
        vec![
            "sigint",
            "healthcheck",
            "prometheus",
            "pools",
            "main_node_client",
            "query_eth_client",
            "commitment_mode_validation",
            "validate_chain_ids",
            "postgres_metrics",
            "output_handler",
            "external_io",
            "main_batch_executor",
            "state_keeper",
            "consensus",
            "pruning",
            "consistency_checker",
            "commitment_generator",
            "batch_status_updater",
            "tree_data_fetcher",
        ]
    );
}

#[test]
fn the_exact_layer_parameters_come_from_the_configuration() {
    let service = build(config_with(false, None), vec![Component::Core]);
    let layers = service.layers();
    assert_eq!(layers[0], Layer::SigintHandler);
    assert_eq!(
        layers[1],
        Layer::HealthCheck {
            port: 3081,
            slow_time_limit_ms: Some(500),
            hard_time_limit_ms: Some(2_000),
        }
    );
    assert_eq!(
        layers[2],
        Layer::Pools {
            server_url: String::from("postgres://localhost:5432/external_node"),
            replica_url: String::from("postgres://localhost:5432/external_node"),
            max_connections: 50,
            slow_query_threshold_ms: Some(100),
            with_master: true,
            with_replica: true,
        }
    );
    assert_eq!(
        layers[3],
        Layer::MainNodeClient {
            url: String::from("http://main-node.local:3050"),
            rate_limit_rps: 100,
            l2_chain_id: 270,
        }
    );
    assert_eq!(
        layers[4],
        Layer::QueryEthClient {
            l1_chain_id: 9,
            url: String::from("http://l1-node.local:8545"),
        }
    );
    assert_eq!(
        layers[5],
        Layer::L1BatchCommitmentModeValidation {
            diamond_proxy_addr: 0x1111,
            commitment_mode: CommitmentMode::Rollup,
        }
    );
    assert_eq!(
        layers[6],
        Layer::ValidateChainIds { l1_chain_id: 9, l2_chain_id: 270 }
    );
    assert_eq!(layers[7], Layer::PostgresMetrics);
    assert_eq!(
        layers[8],
        Layer::OutputHandler {
            l2_shared_bridge_addr: 0x2222,
            seal_queue_capacity: 10,
            pre_insert_txs: true,
            protective_reads_persistence_enabled: true,
        }
    );
    assert_eq!(layers[9], Layer::ExternalIO { l2_chain_id: 270 });
    // The debug namespace is enabled, so call traces are captured; bytecode
    // compression stays optional for a follower.
    assert_eq!(
        layers[10],
        Layer::MainBatchExecutor { save_call_traces: true, optional_bytecode_compression: true }
    );
    assert_eq!(
        layers[11],
        Layer::StateKeeper {
            state_cache_path: String::from("./db/state_keeper"),
            db_block_cache_capacity: 128 << 20,
            db_max_open_files: Some(256),
        }
    );
    assert_eq!(
        layers[12],
        Layer::Consensus {
            config: Some(ConsensusConfig { max_payload_size: 2_500_000 }),
            secrets: Some(secrets()),
        }
    );
    assert_eq!(
        layers[13],
        Layer::ConsistencyChecker {
            diamond_proxy_addr: 0x1111,
            max_batches_to_recheck: 10,
            commitment_mode: CommitmentMode::Rollup,
        }
    );
    assert_eq!(
        layers[14],
        Layer::CommitmentGenerator {
            commitment_mode: CommitmentMode::Rollup,
            max_parallelism: Some(4),
        }
    );
    assert_eq!(layers[15], Layer::BatchStatusUpdater);
    assert_eq!(layers.len(), 16);
}

#[test]
fn pruning_disabled_omits_the_pruning_layer_without_error() {
    let service = build(config_with(false, None), vec![Component::Core]);
    assert!(!service.layers().iter().any(|l| matches!(l, Layer::Pruning { .. })));
}

#[test]
fn pruning_enabled_registers_the_pruning_layer_once() {
    let service = build(config_with(true, None), vec![Component::Core]);
    let pruning: Vec<&Layer> = service
        .layers()
        .iter()
        .filter(|l| matches!(l, Layer::Pruning { .. }))
        .collect();
    assert_eq!(pruning.len(), 1);
    assert_eq!(
        pruning[0],
        &Layer::Pruning {
            removal_delay_ms: 60_000,
            chunk_size: 10,
            data_retention_ms: 3_600_000,
        }
    );
}

#[test]
fn telemetry_layer_present_exactly_when_configured() {
    let with = build(
        config_with(false, Some(PrometheusConfig { listener_port: 3312, push_interval_ms: 5_000 })),
        vec![Component::Core],
    );
    assert!(with.layers().iter().any(|l| matches!(l, Layer::PrometheusExporter { .. })));
    let without = build(config_with(false, None), vec![Component::Core]);
    assert!(!without.layers().iter().any(|l| matches!(l, Layer::PrometheusExporter { .. })));
}

#[test]
fn two_builds_from_identical_inputs_are_identical() {
    let set = vec![Component::TreeFetcher, Component::Core];
    let first = build(config_with(true, None), set.clone());
    let second = build(config_with(true, None), set);
    assert_eq!(first.layers(), second.layers());
}

#[test]
fn layer_count_is_the_sum_of_the_selected_expansion_sizes() {
    // Base layers: five, plus one when telemetry is configured; preconditions:
    // two. Core expands into nine layers, ten with pruning; the tree fetcher
    // into one; the tree API into zero by design.
    let empty = build(config_with(false, None), vec![]);
    assert_eq!(empty.layer_count(), 5 + 2);

    let core_only = build(config_with(false, None), vec![Component::Core]);
    assert_eq!(core_only.layer_count(), 5 + 2 + 9);

    let with_pruning = build(config_with(true, None), vec![Component::Core]);
    assert_eq!(with_pruning.layer_count(), 5 + 2 + 10);

    let prometheus = Some(PrometheusConfig { listener_port: 3312, push_interval_ms: 5_000 });
    let both = build(
        config_with(true, prometheus),
        vec![Component::Core, Component::TreeFetcher],
    );
    assert_eq!(both.layer_count(), 6 + 2 + 10 + 1);
}

#[test]
fn duplicate_requests_are_a_no_op() {
    let once = build(
        config_with(true, None),
        vec![Component::Core, Component::TreeFetcher],
    );
    let thrice = build(
        config_with(true, None),
        vec![
            Component::Core,
            Component::Core,
            Component::TreeFetcher,
            Component::Core,
            Component::TreeFetcher,
        ],
    );
    assert_eq!(once.layers(), thrice.layers());
}

#[test]
fn no_layer_is_registered_twice() {
    let prometheus = Some(PrometheusConfig { listener_port: 3312, push_interval_ms: 5_000 });
    let service = build(
        config_with(true, prometheus),
        vec![Component::Core, Component::TreeFetcher],
    );
    let names = kind_names(&service);
    for (i, a) in names.iter().enumerate() {
        for b in names.iter().skip(i + 1) {
            assert_ne!(a, b);
        }
    }
}

#[test]
fn tree_fetcher_alone_builds_without_core() {
    let service = build(config_with(true, None), vec![Component::TreeFetcher]);
    assert_eq!(
        kind_names(&service),
        vec![
            "sigint",
            "healthcheck",
            "pools",
            "main_node_client",
            "query_eth_client",
            "commitment_mode_validation",
            "validate_chain_ids",
            "tree_data_fetcher",
        ]
    );
    assert_eq!(
        service.layers()[7],
        Layer::TreeDataFetcher { diamond_proxy_addr: 0x1111 }
    );
}

#[test]
fn a_node_without_consensus_configuration_or_secrets_still_assembles() {
    let mut config = config_with(false, None);
    config.consensus = None;
    let service = ExternalNodeBuilder::new(config)
        .build(vec![Component::Core], None)
        .unwrap();
    assert!(service
        .layers()
        .iter()
        .any(|l| matches!(l, Layer::Consensus { config: None, secrets: None })));
}

#[derive(Debug)]
struct FixedPriceSource {
    price: BaseTokenAPIPrice,
}

impl PriceAPIClient for FixedPriceSource {
    fn fetch_price(&self, token_address: u64) -> Result<BaseTokenAPIPrice, PriceFetchError> {
        if token_address == 0 {
            Err(PriceFetchError { message: String::from("unknown token") })
        } else {
            Ok(self.price)
        }
    }
}

#[test]
fn price_sources_implement_the_capability_interface() {
    let source = FixedPriceSource {
        price: BaseTokenAPIPrice { numerator: 250, denominator: 100 },
    };
    assert_eq!(
        source.fetch_price(0x42).unwrap(),
        BaseTokenAPIPrice { numerator: 250, denominator: 100 }
    );
    assert_eq!(
        source.fetch_price(0).unwrap_err(),
        PriceFetchError { message: String::from("unknown token") }
    );
}
