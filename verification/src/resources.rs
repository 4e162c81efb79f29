//! The resource registry discipline of the layer sequence.
//!
//! The registry is a process-wide, singleton-per-type store of shared handles,
//! populated incrementally as layers register. Each layer kind declares which
//! resources it inserts and which it expects to be present already. The
//! builder encodes the dependency graph through registration order alone, so
//! the discipline is proved here once and for all sequences the builder can
//! produce: every requirement is inserted by a strictly earlier layer, and no
//! resource is inserted twice.

use vstd::prelude::*;
use crate::components::{expansion_order, Component};
use crate::config::{ConsensusSecrets, ExternalNodeConfig};
use crate::layers::{
    base_layers, component_layers, distinct_kinds, expansion_layers, full_layer_seq, layer_kind,
    lemma_no_layer_registered_twice, precondition_layers, Layer, LayerKind,
};

verus! {

/// A resource type of the registry; at most one value of each type may be
/// registered, and later layers receive shared references to it.
#[derive(Clone, Copy, Debug, PartialEq, Eq, Structural)]
pub enum ResourceId {
    /// The process-shutdown handle, consumed by the runtime.
    ShutdownHandle,
    /// The aggregator of per-layer health contributions.
    HealthAggregator,
    /// The primary database pool.
    MasterPool,
    /// The replica database pool.
    ReplicaPool,
    /// The rate-limited client of the upstream node.
    MainNodeClientHandle,
    /// The L1 chain client.
    EthClientHandle,
    /// The persistence stage's bounded output queue.
    PersistenceChannel,
    /// The ordered stream of transactions and blocks to replay.
    TransactionFeed,
    /// The batch-execution engine handle.
    BatchExecutorHandle,
}

/// The resources a layer of the given kind inserts into the registry.
pub open spec fn produces(k: LayerKind, r: ResourceId) -> bool {
    match k {
        LayerKind::SigintHandler => r == ResourceId::ShutdownHandle,
        LayerKind::HealthCheck => r == ResourceId::HealthAggregator,
        LayerKind::Pools => r == ResourceId::MasterPool || r == ResourceId::ReplicaPool,
        LayerKind::MainNodeClient => r == ResourceId::MainNodeClientHandle,
        LayerKind::QueryEthClient => r == ResourceId::EthClientHandle,
        LayerKind::OutputHandler => r == ResourceId::PersistenceChannel,
        LayerKind::ExternalIO => r == ResourceId::TransactionFeed,
        LayerKind::MainBatchExecutor => r == ResourceId::BatchExecutorHandle,
        _ => false,
    }
}

/// The resources a layer of the given kind expects the registry to hold when
/// it registers.
pub open spec fn needs(k: LayerKind, r: ResourceId) -> bool {
    match k {
        LayerKind::L1BatchCommitmentModeValidation => r == ResourceId::EthClientHandle,
        LayerKind::ValidateChainIds => r == ResourceId::MainNodeClientHandle || r
            == ResourceId::EthClientHandle,
        LayerKind::PostgresMetrics => r == ResourceId::MasterPool,
        LayerKind::OutputHandler => r == ResourceId::MasterPool,
        LayerKind::ExternalIO => r == ResourceId::MasterPool || r
            == ResourceId::MainNodeClientHandle,
        LayerKind::StateKeeper => r == ResourceId::MasterPool || r
            == ResourceId::PersistenceChannel || r == ResourceId::TransactionFeed || r
            == ResourceId::BatchExecutorHandle,
        LayerKind::Consensus => r == ResourceId::MasterPool || r
            == ResourceId::MainNodeClientHandle,
        LayerKind::Pruning => r == ResourceId::MasterPool,
        LayerKind::ConsistencyChecker => r == ResourceId::MasterPool || r
            == ResourceId::EthClientHandle,
        LayerKind::CommitmentGenerator => r == ResourceId::MasterPool,
        LayerKind::BatchStatusUpdater => r == ResourceId::MasterPool || r
            == ResourceId::MainNodeClientHandle,
        LayerKind::TreeDataFetcher => r == ResourceId::MasterPool || r
            == ResourceId::MainNodeClientHandle || r == ResourceId::EthClientHandle,
        _ => false,
    }
}

/// A resource that every build's base layers insert before any other layer
/// registers.
pub open spec fn base_resource(r: ResourceId) -> bool {
    r == ResourceId::ShutdownHandle || r == ResourceId::HealthAggregator || r
        == ResourceId::MasterPool || r == ResourceId::ReplicaPool || r
        == ResourceId::MainNodeClientHandle || r == ResourceId::EthClientHandle
}

/// A layer sequence respects the registry discipline when every resource a
/// layer needs was inserted by a strictly earlier layer.
pub open spec fn resource_ordered(layers: Seq<Layer>) -> bool {
    forall|i: int, r: ResourceId|
        0 <= i < layers.len() && #[trigger] needs(layer_kind(layers[i]), r) ==> exists|j: int|
            0 <= j < i && #[trigger] produces(layer_kind(layers[j]), r)
}

/// Every base resource is inserted by some base layer.
proof fn lemma_base_layers_produce(cfg: ExternalNodeConfig)
    ensures
        forall|r: ResourceId|
            #[trigger] base_resource(r) ==> exists|j: int|
                0 <= j < base_layers(cfg).len() && #[trigger] produces(
                    layer_kind(base_layers(cfg)[j]),
                    r,
                ),
{
    let base = base_layers(cfg);
    let off: int = if cfg.observability.prometheus is Some {
        1
    } else {
        0
    };
    assert(layer_kind(base[0]) == LayerKind::SigintHandler);
    assert(layer_kind(base[1]) == LayerKind::HealthCheck);
    assert(layer_kind(base[2 + off]) == LayerKind::Pools);
    assert(layer_kind(base[3 + off]) == LayerKind::MainNodeClient);
    assert(layer_kind(base[4 + off]) == LayerKind::QueryEthClient);
    assert forall|r: ResourceId| #[trigger] base_resource(r) implies exists|j: int|
        0 <= j < base_layers(cfg).len() && #[trigger] produces(
            layer_kind(base_layers(cfg)[j]),
            r,
        ) by {
        if r == ResourceId::ShutdownHandle {
            assert(produces(layer_kind(base[0]), r));
        } else if r == ResourceId::HealthAggregator {
            assert(produces(layer_kind(base[1]), r));
        } else if r == ResourceId::MasterPool || r == ResourceId::ReplicaPool {
            assert(produces(layer_kind(base[2 + off]), r));
        } else if r == ResourceId::MainNodeClientHandle {
            assert(produces(layer_kind(base[3 + off]), r));
        } else {
            assert(produces(layer_kind(base[4 + off]), r));
        }
    }
}

/// No base layer needs anything of the registry.
proof fn lemma_base_layers_need_nothing(cfg: ExternalNodeConfig)
    ensures
        forall|t: int, r: ResourceId|
            0 <= t < base_layers(cfg).len() ==> !(#[trigger] needs(
                layer_kind(base_layers(cfg)[t]),
                r,
            )),
{
    let base = base_layers(cfg);
    assert forall|t: int, r: ResourceId| 0 <= t < base.len() implies !(#[trigger] needs(
        layer_kind(base[t]),
        r,
    )) by {
        let off: int = if cfg.observability.prometheus is Some {
            1
        } else {
            0
        };
        if t == 0 {
            assert(layer_kind(base[t]) == LayerKind::SigintHandler);
        } else if t == 1 {
            assert(layer_kind(base[t]) == LayerKind::HealthCheck);
        } else if off == 1 && t == 2 {
            assert(layer_kind(base[t]) == LayerKind::PrometheusExporter);
        } else if t == 2 + off {
            assert(layer_kind(base[t]) == LayerKind::Pools);
        } else if t == 3 + off {
            assert(layer_kind(base[t]) == LayerKind::MainNodeClient);
        } else {
            assert(layer_kind(base[t]) == LayerKind::QueryEthClient);
        }
    }
}

/// Within one component's expansion, every need is either a base resource or
/// inserted by an earlier layer of the same expansion.
proof fn lemma_component_block_ordered(
    cfg: ExternalNodeConfig,
    secrets: Option<ConsensusSecrets>,
    c: Component,
)
    ensures
        forall|t: int, r: ResourceId|
            0 <= t < component_layers(cfg, secrets, c).len() && #[trigger] needs(
                layer_kind(component_layers(cfg, secrets, c)[t]),
                r,
            ) ==> base_resource(r) || exists|u: int|
                0 <= u < t && #[trigger] produces(
                    layer_kind(component_layers(cfg, secrets, c)[u]),
                    r,
                ),
{
    let block = component_layers(cfg, secrets, c);
    match c {
        Component::Core => {
            assert forall|t: int, r: ResourceId|
                0 <= t < block.len() && #[trigger] needs(layer_kind(block[t]), r) implies base_resource(
                r,
            ) || exists|u: int|
                0 <= u < t && #[trigger] produces(layer_kind(block[u]), r) by {
                assert(layer_kind(block[1]) == LayerKind::OutputHandler);
                assert(layer_kind(block[2]) == LayerKind::ExternalIO);
                assert(layer_kind(block[3]) == LayerKind::MainBatchExecutor);
                if t == 4 {
                    assert(layer_kind(block[t]) == LayerKind::StateKeeper);
                    if r == ResourceId::PersistenceChannel {
                        assert(produces(layer_kind(block[1]), r));
                    } else if r == ResourceId::TransactionFeed {
                        assert(produces(layer_kind(block[2]), r));
                    } else if r == ResourceId::BatchExecutorHandle {
                        assert(produces(layer_kind(block[3]), r));
                    } else {
                        assert(base_resource(r));
                    }
                } else {
                    assert(base_resource(r));
                }
            }
        },
        _ => {
        },
    }
}

/// Across a whole expansion sequence, every need is either a base resource or
/// inserted by an earlier layer of the expansion.
proof fn lemma_expansion_ordered(
    cfg: ExternalNodeConfig,
    secrets: Option<ConsensusSecrets>,
    s: Seq<Component>,
)
    ensures
        forall|t: int, r: ResourceId|
            0 <= t < expansion_layers(cfg, secrets, s).len() && #[trigger] needs(
                layer_kind(expansion_layers(cfg, secrets, s)[t]),
                r,
            ) ==> base_resource(r) || exists|u: int|
                0 <= u < t && #[trigger] produces(
                    layer_kind(expansion_layers(cfg, secrets, s)[u]),
                    r,
                ),
    decreases s.len(),
{
    if s.len() == 0 {
    } else {
        lemma_expansion_ordered(cfg, secrets, s.drop_last());
        lemma_component_block_ordered(cfg, secrets, s.last());
        let a = expansion_layers(cfg, secrets, s.drop_last());
        let b = component_layers(cfg, secrets, s.last());
        let whole = expansion_layers(cfg, secrets, s);
        assert(whole == a + b);
        assert forall|t: int, r: ResourceId|
            0 <= t < whole.len() && #[trigger] needs(layer_kind(whole[t]), r) implies base_resource(
                r,
            ) || exists|u: int| 0 <= u < t && #[trigger] produces(layer_kind(whole[u]), r) by {
            if t < a.len() {
                assert(whole[t] == a[t]);
                if !base_resource(r) {
                    let u = choose|u: int| 0 <= u < t && produces(layer_kind(a[u]), r);
                    assert(whole[u] == a[u]);
                }
            } else {
                assert(whole[t] == b[t - a.len()]);
                if !base_resource(r) {
                    let u = choose|u: int|
                        0 <= u < t - a.len() && produces(layer_kind(b[u]), r);
                    assert(whole[a.len() + u] == b[u]);
                    assert(produces(layer_kind(whole[a.len() + u]), r));
                }
            }
        }
    }
}

/// Finalization always succeeds: in the layer sequence of any build, every
/// resource a layer needs was inserted by a strictly earlier layer, and — the
/// singleton invariant of the registry — no resource is inserted twice.
pub proof fn lemma_registry_discipline(
    cfg: ExternalNodeConfig,
    secrets: Option<ConsensusSecrets>,
    requested: Seq<Component>,
)
    ensures
        resource_ordered(full_layer_seq(cfg, secrets, requested)),
        forall|i: int, j: int, r: ResourceId|
            0 <= i < j < full_layer_seq(cfg, secrets, requested).len() ==> !(#[trigger] produces(
                layer_kind(full_layer_seq(cfg, secrets, requested)[i]),
                r,
            ) && #[trigger] produces(
                layer_kind(full_layer_seq(cfg, secrets, requested)[j]),
                r,
            )),
{
    let base = base_layers(cfg);
    let pre = precondition_layers(cfg);
    let expanded = expansion_layers(cfg, secrets, expansion_order(requested));
    let whole = full_layer_seq(cfg, secrets, requested);
    lemma_base_layers_produce(cfg);
    lemma_base_layers_need_nothing(cfg);
    lemma_expansion_ordered(cfg, secrets, expansion_order(requested));
    assert(whole =~= base + pre + expanded);

    assert forall|i: int, r: ResourceId|
        0 <= i < whole.len() && #[trigger] needs(layer_kind(whole[i]), r) implies exists|j: int|
        0 <= j < i && #[trigger] produces(layer_kind(whole[j]), r) by {
        if i < base.len() {
            assert(whole[i] == base[i]);
            assert(false);
        } else if i < base.len() + pre.len() {
            // The two precondition layers consume the chain clients, which the
            // base layers inserted.
            assert(whole[i] == pre[i - base.len()]);
            assert(base_resource(r));
            let j = choose|j: int|
                0 <= j < base.len() && produces(layer_kind(base[j]), r);
            assert(whole[j] == base[j]);
            assert(produces(layer_kind(whole[j]), r));
        } else {
            let t = i - base.len() - pre.len();
            assert(whole[i] == expanded[t]);
            if base_resource(r) {
                let j = choose|j: int|
                    0 <= j < base.len() && produces(layer_kind(base[j]), r);
                assert(whole[j] == base[j]);
                assert(produces(layer_kind(whole[j]), r));
            } else {
                let u = choose|u: int|
                    0 <= u < t && produces(layer_kind(expanded[u]), r);
                assert(whole[base.len() + pre.len() + u] == expanded[u]);
                assert(produces(layer_kind(whole[base.len() + pre.len() + u]), r));
            }
        }
    }

    // Each resource is produced by exactly one layer kind, and no kind
    // registers twice.
    lemma_no_layer_registered_twice(cfg, secrets, requested);
    assert(distinct_kinds(whole));
    assert forall|i: int, j: int, r: ResourceId|
        0 <= i < j < whole.len() implies !(#[trigger] produces(layer_kind(whole[i]), r)
        && #[trigger] produces(layer_kind(whole[j]), r)) by {
        if produces(layer_kind(whole[i]), r) && produces(layer_kind(whole[j]), r) {
            assert(layer_kind(whole[i]) == layer_kind(whole[j]));
        }
    }
}

} // verus!
