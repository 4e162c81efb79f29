//! The service builder for the external node.
//!
//! The builder accumulates layers in a fixed, designer-chosen sequence: base
//! layers first, then the two precondition layers, then each requested
//! component's layers in scheduler order. `build` validates the requested set
//! before any layer is registered, so no partial assembly occurs for a
//! rejected combination, and finalizes the accumulated sequence into a
//! [`Service`].

use vstd::prelude::*;
use vstd::pervasive::unreached;
use crate::components::{
    Component, BuildError, dedup_components, expansion_order, lemma_dedup_contains,
    lemma_expansion_order_contains, schedule_components, validate_components, validation_error,
};
use crate::config::{ConsensusSecrets, ExternalNodeConfig, Namespace, namespaces_contain};
use crate::layers::{
    Layer, MAX_BATCHES_TO_RECHECK, OPTIONAL_BYTECODE_COMPRESSION, base_layers, expansion_layers,
    full_layer_seq, healthcheck_layer, main_node_client_layer, pools_layer, precondition_layers,
    prometheus_layers, pruning_layers, query_eth_client_layer, state_keeper_pipeline_layers,
};
use crate::service::Service;

verus! {

/// Builder for the external node: owns the configuration for the duration of
/// assembly and accumulates the layer sequence that `build` finalizes.
#[derive(Debug)]
pub struct ExternalNodeBuilder {
    layers: Vec<Layer>,
    config: ExternalNodeConfig,
}

impl ExternalNodeBuilder {
    /// The layers registered so far, in registration order.
    pub closed spec fn layer_seq(&self) -> Seq<Layer> {
        self.layers@
    }

    /// The configuration the builder was created with.
    pub closed spec fn config_value(&self) -> ExternalNodeConfig {
        self.config
    }

    /// Creates a builder with no layer registered yet.
    pub fn new(config: ExternalNodeConfig) -> (r: Self)
        ensures
            r.layer_seq() == Seq::<Layer>::empty(),
            r.config_value() == config,
    {
        ExternalNodeBuilder { layers: Vec::new(), config }
    }

    /// Registers the shutdown-signal layer.
    pub fn add_sigint_handler_layer(&mut self)
        ensures
            final(self).config_value() == old(self).config_value(),
            final(self).layer_seq() == old(self).layer_seq().push(Layer::SigintHandler),
    {
        self.layers.push(Layer::SigintHandler);
    }

    /// Registers the health-check server layer.
    pub fn add_healthcheck_layer(&mut self)
        ensures
            final(self).config_value() == old(self).config_value(),
            final(self).layer_seq() == old(self).layer_seq().push(
                healthcheck_layer(old(self).config_value()),
            ),
    {
        let layer = Layer::HealthCheck {
            port: self.config.required.healthcheck_port,
            slow_time_limit_ms: self.config.optional.healthcheck_slow_time_limit_ms,
            hard_time_limit_ms: self.config.optional.healthcheck_hard_time_limit_ms,
        };
        self.layers.push(layer);
    }

    /// Registers the telemetry-export layer when telemetry configuration is
    /// supplied; its absence is an intentional skip, not an error.
    pub fn add_prometheus_exporter_layer(&mut self)
        ensures
            final(self).config_value() == old(self).config_value(),
            final(self).layer_seq() == old(self).layer_seq() + prometheus_layers(
                old(self).config_value(),
            ),
    {
        match self.config.observability.prometheus {
            Some(prom) => {
                let layer = Layer::PrometheusExporter {
                    listener_port: prom.listener_port,
                    push_interval_ms: prom.push_interval_ms,
                };
                self.layers.push(layer);
                proof {
                    assert(self.layer_seq() =~= old(self).layer_seq() + prometheus_layers(
                        old(self).config_value(),
                    ));
                }
            },
            None => {
                proof {
                    assert(self.layer_seq() =~= old(self).layer_seq() + prometheus_layers(
                        old(self).config_value(),
                    ));
                }
            },
        }
    }

    /// Registers the database connection-pool layer; the replica pool reuses
    /// the primary settings, since the node's configuration surface does not
    /// support independent replica tuning.
    pub fn add_pools_layer(&mut self)
        ensures
            final(self).config_value() == old(self).config_value(),
            final(self).layer_seq() == old(self).layer_seq().push(
                pools_layer(old(self).config_value()),
            ),
    {
        let server_url = self.config.postgres.database_url.clone();
        let replica_url = self.config.postgres.database_url.clone();
        let layer = Layer::Pools {
            server_url,
            replica_url,
            max_connections: self.config.postgres.max_connections,
            slow_query_threshold_ms: self.config.optional.slow_query_threshold_ms,
            with_master: true,
            with_replica: true,
        };
        self.layers.push(layer);
    }

    /// Registers the upstream-node RPC client layer.
    pub fn add_main_node_client_layer(&mut self)
        ensures
            final(self).config_value() == old(self).config_value(),
            final(self).layer_seq() == old(self).layer_seq().push(
                main_node_client_layer(old(self).config_value()),
            ),
    {
        let layer = Layer::MainNodeClient {
            url: self.config.required.main_node_url.clone(),
            rate_limit_rps: self.config.optional.main_node_rate_limit_rps,
            l2_chain_id: self.config.required.l2_chain_id,
        };
        self.layers.push(layer);
    }

    /// Registers the L1 RPC client layer.
    pub fn add_query_eth_client_layer(&mut self)
        ensures
            final(self).config_value() == old(self).config_value(),
            final(self).layer_seq() == old(self).layer_seq().push(
                query_eth_client_layer(old(self).config_value()),
            ),
    {
        let layer = Layer::QueryEthClient {
            l1_chain_id: self.config.required.l1_chain_id,
            url: self.config.required.eth_client_url.clone(),
        };
        self.layers.push(layer);
    }

    /// Registers the precondition layer that confirms the configured
    /// commitment generation mode matches the deployed contract's mode.
    pub fn add_l1_batch_commitment_mode_validation_layer(&mut self)
        ensures
            final(self).config_value() == old(self).config_value(),
            final(self).layer_seq() == old(self).layer_seq().push(
                precondition_layers(old(self).config_value())[0],
            ),
    {
        let layer = Layer::L1BatchCommitmentModeValidation {
            diamond_proxy_addr: self.config.remote.diamond_proxy_addr,
            commitment_mode: self.config.optional.l1_batch_commit_data_generator_mode,
        };
        self.layers.push(layer);
    }

    /// Registers the precondition layer that confirms the configured chain
    /// identifiers match what the connected endpoints report.
    pub fn add_validate_chain_ids_layer(&mut self)
        ensures
            final(self).config_value() == old(self).config_value(),
            final(self).layer_seq() == old(self).layer_seq().push(
                precondition_layers(old(self).config_value())[1],
            ),
    {
        let layer = Layer::ValidateChainIds {
            l1_chain_id: self.config.required.l1_chain_id,
            l2_chain_id: self.config.required.l2_chain_id,
        };
        self.layers.push(layer);
    }

    /// Registers the database-metrics collection layer.
    pub fn add_postgres_metrics_layer(&mut self)
        ensures
            final(self).config_value() == old(self).config_value(),
            final(self).layer_seq() == old(self).layer_seq().push(Layer::PostgresMetrics),
    {
        self.layers.push(Layer::PostgresMetrics);
    }

    /// Registers the four layers of the state-replication pipeline in their
    /// fixed order: persistence, input feed, batch execution, driver.
    pub fn add_state_keeper_layer(&mut self)
        requires
            old(self).config_value().remote.l2_shared_bridge_addr is Some,
        ensures
            final(self).config_value() == old(self).config_value(),
            final(self).layer_seq() == old(self).layer_seq() + state_keeper_pipeline_layers(
                old(self).config_value(),
            ),
    {
        let bridge_addr = self.config.remote.l2_shared_bridge_addr.unwrap();
        let persistence_layer = Layer::OutputHandler {
            l2_shared_bridge_addr: bridge_addr,
            seal_queue_capacity: self.config.optional.l2_block_seal_queue_capacity,
            // A follower requires transactions to be pre-inserted.
            pre_insert_txs: true,
            protective_reads_persistence_enabled: self
                .config
                .optional
                .protective_reads_persistence_enabled,
        };
        let io_layer = Layer::ExternalIO { l2_chain_id: self.config.required.l2_chain_id };
        // Call traces are only needed when the debug namespace is enabled.
        let save_call_traces = namespaces_contain(
            &self.config.optional.api_namespaces,
            Namespace::Debug,
        );
        let executor_layer = Layer::MainBatchExecutor {
            save_call_traces,
            optional_bytecode_compression: OPTIONAL_BYTECODE_COMPRESSION,
        };
        let state_keeper = Layer::StateKeeper {
            state_cache_path: self.config.required.state_cache_path.clone(),
            db_block_cache_capacity: self
                .config
                .experimental
                .state_keeper_db_block_cache_capacity,
            db_max_open_files: self.config.experimental.state_keeper_db_max_open_files,
        };
        self.layers.push(persistence_layer);
        self.layers.push(io_layer);
        self.layers.push(executor_layer);
        self.layers.push(state_keeper);
        proof {
            assert(self.layer_seq() =~= old(self).layer_seq() + state_keeper_pipeline_layers(
                old(self).config_value(),
            ));
        }
    }

    /// Registers the consensus-participation layer in follower mode, with key
    /// material the caller read from the secret store.
    pub fn add_consensus_layer(&mut self, secrets: Option<ConsensusSecrets>)
        ensures
            final(self).config_value() == old(self).config_value(),
            final(self).layer_seq() == old(self).layer_seq().push(
                Layer::Consensus { config: old(self).config_value().consensus, secrets },
            ),
    {
        let layer = Layer::Consensus { config: self.config.consensus, secrets };
        self.layers.push(layer);
    }

    /// Registers the pruning layer when pruning is enabled; when disabled the
    /// skip is intentional, not an error.
    pub fn add_pruning_layer(&mut self)
        ensures
            final(self).config_value() == old(self).config_value(),
            final(self).layer_seq() == old(self).layer_seq() + pruning_layers(
                old(self).config_value(),
            ),
    {
        if self.config.optional.pruning_enabled {
            let layer = Layer::Pruning {
                removal_delay_ms: self.config.optional.pruning_removal_delay_ms,
                chunk_size: self.config.optional.pruning_chunk_size,
                data_retention_ms: self.config.optional.pruning_data_retention_ms,
            };
            self.layers.push(layer);
            proof {
                assert(self.layer_seq() =~= old(self).layer_seq() + pruning_layers(
                    old(self).config_value(),
                ));
            }
        } else {
            proof {
                assert(self.layer_seq() =~= old(self).layer_seq() + pruning_layers(
                    old(self).config_value(),
                ));
            }
        }
    }

    /// Registers the consistency-checker layer over the fixed trailing window
    /// of recently finalized batches.
    pub fn add_consistency_checker_layer(&mut self)
        ensures
            final(self).config_value() == old(self).config_value(),
            final(self).layer_seq() == old(self).layer_seq().push(
                Layer::ConsistencyChecker {
                    diamond_proxy_addr: old(self).config_value().remote.diamond_proxy_addr,
                    max_batches_to_recheck: MAX_BATCHES_TO_RECHECK,
                    commitment_mode: old(
                        self,
                    ).config_value().optional.l1_batch_commit_data_generator_mode,
                },
            ),
    {
        let layer = Layer::ConsistencyChecker {
            diamond_proxy_addr: self.config.remote.diamond_proxy_addr,
            max_batches_to_recheck: MAX_BATCHES_TO_RECHECK,
            commitment_mode: self.config.optional.l1_batch_commit_data_generator_mode,
        };
        self.layers.push(layer);
    }

    /// Registers the commitment-generator layer.
    pub fn add_commitment_generator_layer(&mut self)
        ensures
            final(self).config_value() == old(self).config_value(),
            final(self).layer_seq() == old(self).layer_seq().push(
                Layer::CommitmentGenerator {
                    commitment_mode: old(
                        self,
                    ).config_value().optional.l1_batch_commit_data_generator_mode,
                    max_parallelism: old(
                        self,
                    ).config_value().experimental.commitment_generator_max_parallelism,
                },
            ),
    {
        let layer = Layer::CommitmentGenerator {
            commitment_mode: self.config.optional.l1_batch_commit_data_generator_mode,
            max_parallelism: self.config.experimental.commitment_generator_max_parallelism,
        };
        self.layers.push(layer);
    }

    /// Registers the batch-status-updater layer; it carries no parameters.
    pub fn add_batch_status_updater_layer(&mut self)
        ensures
            final(self).config_value() == old(self).config_value(),
            final(self).layer_seq() == old(self).layer_seq().push(Layer::BatchStatusUpdater),
    {
        self.layers.push(Layer::BatchStatusUpdater);
    }

    /// Registers the tree-data-fetcher layer.
    pub fn add_tree_data_fetcher_layer(&mut self)
        ensures
            final(self).config_value() == old(self).config_value(),
            final(self).layer_seq() == old(self).layer_seq().push(
                Layer::TreeDataFetcher {
                    diamond_proxy_addr: old(self).config_value().remote.diamond_proxy_addr,
                },
            ),
    {
        let layer = Layer::TreeDataFetcher {
            diamond_proxy_addr: self.config.remote.diamond_proxy_addr,
        };
        self.layers.push(layer);
    }

    /// Validates the requested component set, orders it, registers the base,
    /// precondition, and per-component layers, and finalizes the service.
    ///
    /// The set is validated before any layer is registered, so a rejected
    /// combination allocates nothing. On success the resulting layer sequence
    /// is pinned to [`full_layer_seq`], a function of the configuration, the
    /// secrets, and the requested set alone — two builds from identical inputs
    /// produce identical services.
    ///
    /// A legal set whose expansion this builder does not support — `Tree`
    /// (and with it `TreeApi`), `HttpApi` and `WsApi` are not yet
    /// implemented — is excluded by precondition; an illegal set is still
    /// accepted and reported as the matching validation error.
    pub fn build(self, components: Vec<Component>, consensus_secrets: Option<ConsensusSecrets>) -> (r: Result<
        Service,
        BuildError,
    >)
        requires
            validation_error(components@) is None ==> !components@.contains(Component::Tree)
                && !components@.contains(Component::HttpApi) && !components@.contains(
                Component::WsApi,
            ),
            validation_error(components@) is None && components@.contains(Component::Core)
                ==> self.config_value().remote.l2_shared_bridge_addr is Some,
        ensures
            match r {
                Ok(service) => validation_error(components@) is None && service@ == self.layer_seq()
                    + full_layer_seq(self.config_value(), consensus_secrets, components@),
                Err(e) => validation_error(components@) == Some(e),
            },
    {
        let ghost cfg = self.config_value();
        let ghost layers0 = self.layer_seq();
        let mut this = self;

        // Reject illegal combinations before any layer is registered, and
        // discard duplicate requests, which are semantically a no-op.
        let unique = dedup_components(&components);
        proof {
            lemma_dedup_contains(components@, Component::Tree);
            lemma_dedup_contains(components@, Component::TreeApi);
            lemma_dedup_contains(components@, Component::Core);
            assert(validation_error(unique@) == validation_error(components@));
        }
        match validate_components(&unique) {
            Some(e) => {
                return Err(e);
            },
            None => {},
        }

        // Order the components so that consumers are expanded last.
        let ordered = schedule_components(&unique);
        proof {
            assert(ordered@ == expansion_order(components@));
        }

        // Base layers, registered for every build.
        this.add_sigint_handler_layer();
        this.add_healthcheck_layer();
        this.add_prometheus_exporter_layer();
        this.add_pools_layer();
        this.add_main_node_client_layer();
        this.add_query_eth_client_layer();
        proof {
            assert(this.layer_seq() =~= layers0 + base_layers(cfg));
        }

        // Preconditions validated against the live chain, before any
        // per-component layer.
        this.add_l1_batch_commitment_mode_validation_layer();
        this.add_validate_chain_ids_layer();
        proof {
            assert(this.layer_seq() =~= layers0 + base_layers(cfg) + precondition_layers(cfg));
        }

        // Per-component layers, in scheduler order.
        let mut i: usize = 0;
        while i < ordered.len()
            invariant
                i <= ordered@.len(),
                this.config_value() == cfg,
                ordered@ == expansion_order(components@),
                validation_error(components@) is None,
                !components@.contains(Component::Tree),
                !components@.contains(Component::HttpApi),
                !components@.contains(Component::WsApi),
                components@.contains(Component::Core) ==> cfg.remote.l2_shared_bridge_addr
                    is Some,
                this.layer_seq() == layers0 + base_layers(cfg) + precondition_layers(cfg)
                    + expansion_layers(cfg, consensus_secrets, ordered@.take(i as int)),
            decreases ordered@.len() - i,
        {
            let component = ordered[i];
            proof {
                assert(ordered@.take(i as int + 1).drop_last() =~= ordered@.take(i as int));
                assert(ordered@.take(i as int + 1).last() == ordered@[i as int]);
                assert(ordered@.contains(component));
            }
            match component {
                Component::HttpApi | Component::WsApi | Component::Tree => {
                    proof {
                        lemma_expansion_order_contains(components@, component);
                        assert(false);
                    }
                    unreached::<()>()
                },
                Component::TreeApi => {
                    // A legal set holding the tree API also holds the tree,
                    // which this builder does not expand.
                    proof {
                        lemma_expansion_order_contains(components@, Component::TreeApi);
                        lemma_expansion_order_contains(components@, Component::Tree);
                        assert(false);
                    }
                    unreached::<()>()
                },
                Component::TreeFetcher => {
                    this.add_tree_data_fetcher_layer();
                    proof {
                        assert(this.layer_seq() =~= layers0 + base_layers(cfg)
                            + precondition_layers(cfg) + expansion_layers(
                            cfg,
                            consensus_secrets,
                            ordered@.take(i as int + 1),
                        ));
                    }
                },
                Component::Core => {
                    proof {
                        lemma_expansion_order_contains(components@, Component::Core);
                        assert(cfg.remote.l2_shared_bridge_addr is Some);
                    }
                    // Core is the singleton always-present component, so it is
                    // also responsible for node-wide housekeeping.
                    this.add_postgres_metrics_layer();

                    // Main tasks.
                    this.add_state_keeper_layer();
                    this.add_consensus_layer(consensus_secrets);
                    this.add_pruning_layer();
                    this.add_consistency_checker_layer();
                    this.add_commitment_generator_layer();
                    this.add_batch_status_updater_layer();
                    proof {
                        assert(this.layer_seq() =~= layers0 + base_layers(cfg)
                            + precondition_layers(cfg) + expansion_layers(
                            cfg,
                            consensus_secrets,
                            ordered@.take(i as int + 1),
                        ));
                    }
                },
            }
            i += 1;
        }
        proof {
            assert(ordered@.take(ordered@.len() as int) =~= ordered@);
            assert(this.layer_seq() =~= layers0 + full_layer_seq(cfg, consensus_secrets, components@));
        }
        let ExternalNodeBuilder { layers, config: _ } = this;
        Ok(Service::assemble(layers))
    }
}

} // verus!
