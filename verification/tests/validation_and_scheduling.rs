use external_node::builder::ExternalNodeBuilder;
use external_node::components::{
    dedup_components, schedule_components, validate_components, BuildError, Component,
};
use external_node::config::{
    CommitmentMode, ExperimentalConfig, ExternalNodeConfig, ObservabilityConfig, OptionalConfig,
    PostgresSettings, RemoteConfig, RequiredConfig,
};

fn sample_config() -> ExternalNodeConfig {
    ExternalNodeConfig {
        required: RequiredConfig {
            main_node_url: String::from("http://main-node.local:3050"),
            eth_client_url: String::from("http://l1-node.local:8545"),
            l2_chain_id: 270,
            l1_chain_id: 9,
            healthcheck_port: 3081,
            state_cache_path: String::from("./db/state_keeper"),
        },
        postgres: PostgresSettings {
            database_url: String::from("postgres://localhost:5432/external_node"),
            max_connections: 50,
        },
        optional: OptionalConfig {
            slow_query_threshold_ms: Some(100),
            main_node_rate_limit_rps: 100,
            healthcheck_slow_time_limit_ms: None,
            healthcheck_hard_time_limit_ms: None,
            l2_block_seal_queue_capacity: 10,
            protective_reads_persistence_enabled: false,
            api_namespaces: vec![],
            pruning_enabled: false,
            pruning_removal_delay_ms: 60_000,
            pruning_chunk_size: 10,
            pruning_data_retention_ms: 3_600_000,
            l1_batch_commit_data_generator_mode: CommitmentMode::Rollup,
        },
        remote: RemoteConfig {
            l2_shared_bridge_addr: Some(0x2222),
            diamond_proxy_addr: 0x1111,
        },
        experimental: ExperimentalConfig {
            state_keeper_db_block_cache_capacity: 128 << 20,
            state_keeper_db_max_open_files: None,
            commitment_generator_max_parallelism: None,
        },
        observability: ObservabilityConfig { prometheus: None },
        consensus: None,
    }
}

#[test]
fn tree_alone_fails_before_any_layer_registration() {
    let result = ExternalNodeBuilder::new(sample_config()).build(vec![Component::Tree], None);
    assert_eq!(result.unwrap_err(), BuildError::TreeRequiresCore);
}

#[test]
fn tree_requires_core_error_names_the_missing_co_requirement() {
    assert_eq!(
        BuildError::TreeRequiresCore.message(),
        "Tree must run on the same machine as Core"
    );
}

#[test]
fn tree_api_alone_fails_with_a_distinct_error() {
    let result = ExternalNodeBuilder::new(sample_config()).build(vec![Component::TreeApi], None);
    assert_eq!(result.unwrap_err(), BuildError::TreeApiRequiresTree);
}

#[test]
fn tree_api_error_names_the_tree_requirement() {
    assert_eq!(
        BuildError::TreeApiRequiresTree.message(),
        "Merkle tree API cannot be started without a tree component"
    );
}

#[test]
fn tree_without_core_fails_whatever_else_is_requested() {
    for set in [
        vec![Component::Tree, Component::TreeFetcher],
        vec![Component::TreeFetcher, Component::Tree],
        vec![Component::WsApi, Component::Tree],
        vec![Component::Tree, Component::TreeApi, Component::HttpApi],
    ] {
        let result = ExternalNodeBuilder::new(sample_config()).build(set, None);
        assert_eq!(result.unwrap_err(), BuildError::TreeRequiresCore);
    }
}

#[test]
fn tree_api_without_tree_fails_whatever_else_is_requested() {
    for set in [
        vec![Component::TreeApi, Component::Core],
        vec![Component::Core, Component::TreeFetcher, Component::TreeApi],
        vec![Component::HttpApi, Component::TreeApi],
    ] {
        let result = ExternalNodeBuilder::new(sample_config()).build(set, None);
        assert_eq!(result.unwrap_err(), BuildError::TreeApiRequiresTree);
    }
}

#[test]
fn validate_components_reports_the_first_violation_only() {
    let set = vec![Component::Tree];
    assert_eq!(
        validate_components(&set),
        Some(BuildError::TreeRequiresCore)
    );
    let legal = vec![Component::Core, Component::TreeFetcher];
    assert_eq!(validate_components(&legal), None);
}

#[test]
fn scheduling_places_api_components_strictly_last() {
    let set = vec![
        Component::WsApi,
        Component::Core,
        Component::HttpApi,
        Component::TreeFetcher,
    ];
    let ordered = schedule_components(&set);
    assert_eq!(
        ordered,
        vec![
            Component::Core,
            Component::TreeFetcher,
            Component::WsApi,
            Component::HttpApi,
        ]
    );
}

#[test]
fn scheduling_keeps_the_relative_order_of_producers() {
    let set = vec![
        Component::HttpApi,
        Component::TreeFetcher,
        Component::Core,
    ];
    let ordered = schedule_components(&set);
    assert_eq!(
        ordered,
        vec![Component::TreeFetcher, Component::Core, Component::HttpApi]
    );
}

#[test]
fn deduplication_keeps_the_first_occurrence_of_each_component() {
    let set = vec![
        Component::Core,
        Component::TreeFetcher,
        Component::Core,
        Component::WsApi,
        Component::TreeFetcher,
    ];
    assert_eq!(
        dedup_components(&set),
        vec![Component::Core, Component::TreeFetcher, Component::WsApi]
    );
}

#[test]
fn scheduling_an_api_free_set_changes_nothing() {
    let set = vec![Component::Core, Component::TreeFetcher];
    let ordered = schedule_components(&set);
    assert_eq!(ordered, set);
}
