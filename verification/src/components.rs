//! The component catalog, the dependency validator, and the component
//! scheduler.
//!
//! A component is a user-selectable subsystem of the node. Before any layer is
//! registered, the requested set is checked for legality (`tree` requires
//! `core`; `tree_api` requires `tree`), duplicates are discarded, and the set
//! is ordered so that components whose layers only consume shared resources
//! (the API servers) are expanded after every producing component.

use vstd::prelude::*;

verus! {

/// A user-selectable high-level subsystem of the node.
#[derive(Clone, Copy, Debug, PartialEq, Eq, Structural)]
pub enum Component {
    /// State replication, housekeeping and the batch pipeline; the singleton
    /// always-present component of a monolithic node.
    Core,
    /// Local Merkle tree maintenance.
    Tree,
    /// The Merkle tree query interface; a marker folded into `Tree`'s own
    /// layer set, contributing no layers of its own.
    TreeApi,
    /// Fetching of externally computed tree roots, for nodes that trust an
    /// external root source instead of running `Tree`.
    TreeFetcher,
    /// The HTTP API server.
    HttpApi,
    /// The WebSocket API server.
    WsApi,
}

/// A consumer component's layers only read resources that other components
/// publish, so the scheduler expands consumers after every producer.
pub open spec fn is_consumer(c: Component) -> bool {
    c == Component::HttpApi || c == Component::WsApi
}

/// A dependency-validation failure: the requested component set is illegal and
/// the build is aborted before any layer is registered.
#[derive(Clone, Copy, Debug, PartialEq, Eq, Structural)]
pub enum BuildError {
    /// `tree` was requested without `core`: distributed operation (the tree
    /// running apart from core replication) is unsupported.
    TreeRequiresCore,
    /// `tree_api` was requested without `tree`.
    TreeApiRequiresTree,
}

impl BuildError {
    /// A human-readable explanation of the violated constraint.
    pub fn message(&self) -> (r: &'static str)
        ensures
            *self == BuildError::TreeRequiresCore ==> r@ == "Tree must run on the same machine as Core"@,
            *self == BuildError::TreeApiRequiresTree ==> r@ == "Merkle tree API cannot be started without a tree component"@,
    {
        match self {
            BuildError::TreeRequiresCore => "Tree must run on the same machine as Core",
            BuildError::TreeApiRequiresTree => "Merkle tree API cannot be started without a tree component",
        }
    }
}

/// The single first-encountered dependency violation of a requested component
/// set, if any. The two constraints are mutually exclusive, so at most one can
/// hold of a given set.
pub open spec fn validation_error(s: Seq<Component>) -> Option<BuildError> {
    if s.contains(Component::Tree) && !s.contains(Component::Core) {
        Some(BuildError::TreeRequiresCore)
    } else if s.contains(Component::TreeApi) && !s.contains(Component::Tree) {
        Some(BuildError::TreeApiRequiresTree)
    } else {
        None
    }
}

/// The requested set with duplicates discarded, keeping the first occurrence
/// of each component: a repeated request is semantically a no-op.
pub open spec fn dedup_first(s: Seq<Component>) -> Seq<Component>
    decreases s.len(),
{
    if s.len() == 0 {
        Seq::empty()
    } else {
        let rest = dedup_first(s.drop_last());
        if rest.contains(s.last()) {
            rest
        } else {
            rest.push(s.last())
        }
    }
}

/// The producer components of a set, in the set's own relative order.
pub open spec fn producer_part(s: Seq<Component>) -> Seq<Component>
    decreases s.len(),
{
    if s.len() == 0 {
        Seq::empty()
    } else {
        let rest = producer_part(s.drop_last());
        if is_consumer(s.last()) {
            rest
        } else {
            rest.push(s.last())
        }
    }
}

/// The consumer components of a set, in the set's own relative order.
pub open spec fn consumer_part(s: Seq<Component>) -> Seq<Component>
    decreases s.len(),
{
    if s.len() == 0 {
        Seq::empty()
    } else {
        let rest = consumer_part(s.drop_last());
        if is_consumer(s.last()) {
            rest.push(s.last())
        } else {
            rest
        }
    }
}

/// The deterministic expansion order of a component set: all producers first,
/// in the set's own relative order, then all consumers, in theirs.
pub open spec fn scheduled_order(s: Seq<Component>) -> Seq<Component> {
    producer_part(s) + consumer_part(s)
}

/// The order in which a requested component list is expanded into layers:
/// duplicates discarded, then producers before consumers.
pub open spec fn expansion_order(s: Seq<Component>) -> Seq<Component> {
    scheduled_order(dedup_first(s))
}

/// Discarding duplicate requests changes no membership.
pub proof fn lemma_dedup_contains(s: Seq<Component>, c: Component)
    ensures
        dedup_first(s).contains(c) == s.contains(c),
    decreases s.len(),
{
    if s.len() == 0 {
    } else {
        lemma_dedup_contains(s.drop_last(), c);
        let rest = dedup_first(s.drop_last());
        let last = s.last();
        if s.contains(c) {
            let i = choose|i: int| 0 <= i < s.len() && s[i] == c;
            if i == s.len() - 1 {
                assert(c == last);
                if rest.contains(last) {
                    assert(dedup_first(s).contains(c));
                } else {
                    assert(rest.push(last)[rest.len() as int] == c);
                    assert(dedup_first(s).contains(c));
                }
            } else {
                assert(s.drop_last()[i] == c);
                assert(s.drop_last().contains(c));
                let j = choose|j: int| 0 <= j < rest.len() && rest[j] == c;
                if rest.contains(last) {
                    assert(dedup_first(s).contains(c));
                } else {
                    assert(rest.push(last)[j] == c);
                    assert(dedup_first(s).contains(c));
                }
            }
        }
        if dedup_first(s).contains(c) {
            let i = choose|i: int| 0 <= i < dedup_first(s).len() && dedup_first(s)[i] == c;
            if rest.contains(last) {
                assert(rest[i] == c);
                assert(s.drop_last().contains(c));
                let j = choose|j: int| 0 <= j < s.drop_last().len() && s.drop_last()[j] == c;
                assert(s[j] == c);
                assert(s.contains(c));
            } else {
                if i < rest.len() {
                    assert(rest[i] == c);
                    assert(s.drop_last().contains(c));
                    let j = choose|j: int| 0 <= j < s.drop_last().len() && s.drop_last()[j] == c;
                    assert(s[j] == c);
                    assert(s.contains(c));
                } else {
                    assert(c == last);
                    assert(s[s.len() - 1] == c);
                    assert(s.contains(c));
                }
            }
        }
    }
}

/// The producer part holds exactly the set's producer components.
pub proof fn lemma_producer_part_contains(s: Seq<Component>, c: Component)
    ensures
        producer_part(s).contains(c) == (s.contains(c) && !is_consumer(c)),
    decreases s.len(),
{
    if s.len() == 0 {
    } else {
        lemma_producer_part_contains(s.drop_last(), c);
        let rest = producer_part(s.drop_last());
        let last = s.last();
        if s.contains(c) && !is_consumer(c) {
            let i = choose|i: int| 0 <= i < s.len() && s[i] == c;
            if i == s.len() - 1 {
                assert(c == last);
                assert(rest.push(last)[rest.len() as int] == c);
                assert(producer_part(s).contains(c));
            } else {
                assert(s.drop_last()[i] == c);
                assert(s.drop_last().contains(c));
                let j = choose|j: int| 0 <= j < rest.len() && rest[j] == c;
                if is_consumer(last) {
                    assert(producer_part(s).contains(c));
                } else {
                    assert(rest.push(last)[j] == c);
                    assert(producer_part(s).contains(c));
                }
            }
        }
        if producer_part(s).contains(c) {
            let i = choose|i: int| 0 <= i < producer_part(s).len() && producer_part(s)[i] == c;
            if is_consumer(last) {
                assert(rest[i] == c);
            } else {
                if i < rest.len() {
                    assert(rest[i] == c);
                } else {
                    assert(c == last);
                    assert(s[s.len() - 1] == c);
                }
            }
            if rest.contains(c) {
                assert(s.drop_last().contains(c));
                let j = choose|j: int| 0 <= j < s.drop_last().len() && s.drop_last()[j] == c;
                assert(s[j] == c);
                assert(s.contains(c));
            }
        }
    }
}

/// The consumer part holds exactly the set's consumer components.
pub proof fn lemma_consumer_part_contains(s: Seq<Component>, c: Component)
    ensures
        consumer_part(s).contains(c) == (s.contains(c) && is_consumer(c)),
    decreases s.len(),
{
    if s.len() == 0 {
    } else {
        lemma_consumer_part_contains(s.drop_last(), c);
        let rest = consumer_part(s.drop_last());
        let last = s.last();
        if s.contains(c) && is_consumer(c) {
            let i = choose|i: int| 0 <= i < s.len() && s[i] == c;
            if i == s.len() - 1 {
                assert(c == last);
                assert(rest.push(last)[rest.len() as int] == c);
                assert(consumer_part(s).contains(c));
            } else {
                assert(s.drop_last()[i] == c);
                assert(s.drop_last().contains(c));
                let j = choose|j: int| 0 <= j < rest.len() && rest[j] == c;
                if is_consumer(last) {
                    assert(rest.push(last)[j] == c);
                    assert(consumer_part(s).contains(c));
                } else {
                    assert(consumer_part(s).contains(c));
                }
            }
        }
        if consumer_part(s).contains(c) {
            let i = choose|i: int| 0 <= i < consumer_part(s).len() && consumer_part(s)[i] == c;
            if !is_consumer(last) {
                assert(rest[i] == c);
            } else {
                if i < rest.len() {
                    assert(rest[i] == c);
                } else {
                    assert(c == last);
                    assert(s[s.len() - 1] == c);
                }
            }
            if rest.contains(c) {
                assert(s.drop_last().contains(c));
                let j = choose|j: int| 0 <= j < s.drop_last().len() && s.drop_last()[j] == c;
                assert(s[j] == c);
                assert(s.contains(c));
            }
        }
    }
}

/// Scheduling reorders the set but changes no membership.
pub proof fn lemma_scheduled_contains(s: Seq<Component>, c: Component)
    ensures
        scheduled_order(s).contains(c) == s.contains(c),
{
    lemma_producer_part_contains(s, c);
    lemma_consumer_part_contains(s, c);
    let a = producer_part(s);
    let b = consumer_part(s);
    if a.contains(c) {
        let i = choose|i: int| 0 <= i < a.len() && a[i] == c;
        assert((a + b)[i] == c);
        assert(scheduled_order(s).contains(c));
    }
    if b.contains(c) {
        let i = choose|i: int| 0 <= i < b.len() && b[i] == c;
        assert((a + b)[a.len() + i] == c);
        assert(scheduled_order(s).contains(c));
    }
    if (a + b).contains(c) {
        let i = choose|i: int| 0 <= i < (a + b).len() && (a + b)[i] == c;
        if i < a.len() {
            assert(a[i] == c);
        } else {
            assert(b[i - a.len()] == c);
        }
    }
}

/// The expansion order of a request holds exactly the requested components.
pub proof fn lemma_expansion_order_contains(s: Seq<Component>, c: Component)
    ensures
        expansion_order(s).contains(c) == s.contains(c),
{
    lemma_dedup_contains(s, c);
    lemma_scheduled_contains(dedup_first(s), c);
}

/// Every element of the producer part is a producer.
pub proof fn lemma_producer_part_elements(s: Seq<Component>)
    ensures
        forall|i: int|
            0 <= i < producer_part(s).len() ==> !is_consumer(#[trigger] producer_part(s)[i]),
    decreases s.len(),
{
    if s.len() == 0 {
    } else {
        lemma_producer_part_elements(s.drop_last());
        let rest = producer_part(s.drop_last());
        if !is_consumer(s.last()) {
            assert forall|i: int|
                0 <= i < producer_part(s).len() implies !is_consumer(producer_part(s)[i]) by {
                if i < rest.len() {
                    assert(producer_part(s)[i] == rest[i]);
                } else {
                    assert(producer_part(s)[i] == s.last());
                }
            }
        }
    }
}

/// Every element of the consumer part is a consumer.
pub proof fn lemma_consumer_part_elements(s: Seq<Component>)
    ensures
        forall|i: int|
            0 <= i < consumer_part(s).len() ==> is_consumer(#[trigger] consumer_part(s)[i]),
    decreases s.len(),
{
    if s.len() == 0 {
    } else {
        lemma_consumer_part_elements(s.drop_last());
        let rest = consumer_part(s.drop_last());
        if is_consumer(s.last()) {
            assert forall|i: int|
                0 <= i < consumer_part(s).len() implies is_consumer(consumer_part(s)[i]) by {
                if i < rest.len() {
                    assert(consumer_part(s)[i] == rest[i]);
                } else {
                    assert(consumer_part(s)[i] == s.last());
                }
            }
        }
    }
}

/// Partitioning into producers and consumers loses no element.
pub proof fn lemma_parts_len(s: Seq<Component>)
    ensures
        producer_part(s).len() + consumer_part(s).len() == s.len(),
    decreases s.len(),
{
    if s.len() == 0 {
    } else {
        lemma_parts_len(s.drop_last());
    }
}

/// The scheduler's order is a partition: every producer component stands
/// strictly before every consumer component, whatever the input order, and
/// membership is unchanged.
pub proof fn lemma_consumers_scheduled_last(s: Seq<Component>)
    ensures
        scheduled_order(s).len() == s.len(),
        forall|i: int, j: int|
            0 <= i < j < scheduled_order(s).len() && is_consumer(
                #[trigger] scheduled_order(s)[i],
            ) ==> is_consumer(#[trigger] scheduled_order(s)[j]),
        forall|c: Component| #[trigger] scheduled_order(s).contains(c) == s.contains(c),
{
    lemma_parts_len(s);
    lemma_producer_part_elements(s);
    lemma_consumer_part_elements(s);
    let a = producer_part(s);
    let b = consumer_part(s);
    assert forall|i: int, j: int|
        0 <= i < j < scheduled_order(s).len() && is_consumer(
            scheduled_order(s)[i],
        ) implies is_consumer(scheduled_order(s)[j]) by {
        if i < a.len() {
            assert(scheduled_order(s)[i] == a[i]);
            assert(!is_consumer(scheduled_order(s)[i]));
        } else {
            assert(j >= a.len());
            assert(scheduled_order(s)[j] == b[j - a.len()]);
        }
    }
    assert forall|c: Component| #[trigger] scheduled_order(s).contains(c) == s.contains(c) by {
        lemma_scheduled_contains(s, c);
    }
}

/// Discarding duplicates leaves no duplicate behind.
pub proof fn lemma_dedup_no_duplicates(s: Seq<Component>)
    ensures
        dedup_first(s).no_duplicates(),
    decreases s.len(),
{
    if s.len() == 0 {
    } else {
        lemma_dedup_no_duplicates(s.drop_last());
        let rest = dedup_first(s.drop_last());
        let last = s.last();
        if !rest.contains(last) {
            let d = rest.push(last);
            assert forall|i: int, j: int| 0 <= i < j < d.len() implies d[i] != d[j] by {
                if j < rest.len() {
                    assert(d[i] == rest[i] && d[j] == rest[j]);
                } else {
                    assert(d[i] == rest[i] && d[j] == last);
                    if rest[i] == last {
                        assert(rest.contains(last));
                    }
                }
            }
        }
    }
}

/// The producer part of a duplicate-free set is duplicate-free.
pub proof fn lemma_producer_part_no_duplicates(s: Seq<Component>)
    requires
        s.no_duplicates(),
    ensures
        producer_part(s).no_duplicates(),
    decreases s.len(),
{
    if s.len() == 0 {
    } else {
        assert(s.drop_last().no_duplicates()) by {
            assert(forall|i: int, j: int|
                0 <= i < j < s.drop_last().len() ==> s.drop_last()[i] == s[i]
                    && s.drop_last()[j] == s[j]);
        }
        lemma_producer_part_no_duplicates(s.drop_last());
        let rest = producer_part(s.drop_last());
        let last = s.last();
        if !is_consumer(last) {
            assert(!rest.contains(last)) by {
                lemma_producer_part_contains(s.drop_last(), last);
                if s.drop_last().contains(last) {
                    let i = choose|i: int|
                        0 <= i < s.drop_last().len() && s.drop_last()[i] == last;
                    assert(s[i] == s[s.len() - 1]);
                }
            }
            let d = rest.push(last);
            assert forall|i: int, j: int| 0 <= i < j < d.len() implies d[i] != d[j] by {
                if j < rest.len() {
                    assert(d[i] == rest[i] && d[j] == rest[j]);
                } else {
                    assert(d[i] == rest[i] && d[j] == last);
                    if rest[i] == last {
                        assert(rest.contains(last));
                    }
                }
            }
        }
    }
}

/// The consumer part of a duplicate-free set is duplicate-free.
pub proof fn lemma_consumer_part_no_duplicates(s: Seq<Component>)
    requires
        s.no_duplicates(),
    ensures
        consumer_part(s).no_duplicates(),
    decreases s.len(),
{
    if s.len() == 0 {
    } else {
        assert(s.drop_last().no_duplicates()) by {
            assert(forall|i: int, j: int|
                0 <= i < j < s.drop_last().len() ==> s.drop_last()[i] == s[i]
                    && s.drop_last()[j] == s[j]);
        }
        lemma_consumer_part_no_duplicates(s.drop_last());
        let rest = consumer_part(s.drop_last());
        let last = s.last();
        if is_consumer(last) {
            assert(!rest.contains(last)) by {
                lemma_consumer_part_contains(s.drop_last(), last);
                if s.drop_last().contains(last) {
                    let i = choose|i: int|
                        0 <= i < s.drop_last().len() && s.drop_last()[i] == last;
                    assert(s[i] == s[s.len() - 1]);
                }
            }
            let d = rest.push(last);
            assert forall|i: int, j: int| 0 <= i < j < d.len() implies d[i] != d[j] by {
                if j < rest.len() {
                    assert(d[i] == rest[i] && d[j] == rest[j]);
                } else {
                    assert(d[i] == rest[i] && d[j] == last);
                    if rest[i] == last {
                        assert(rest.contains(last));
                    }
                }
            }
        }
    }
}

/// Scheduling a duplicate-free set yields a duplicate-free order.
pub proof fn lemma_scheduled_no_duplicates(s: Seq<Component>)
    requires
        s.no_duplicates(),
    ensures
        scheduled_order(s).no_duplicates(),
{
    lemma_producer_part_no_duplicates(s);
    lemma_consumer_part_no_duplicates(s);
    lemma_producer_part_elements(s);
    lemma_consumer_part_elements(s);
    let a = producer_part(s);
    let b = consumer_part(s);
    let d = scheduled_order(s);
    assert forall|i: int, j: int| 0 <= i < j < d.len() implies d[i] != d[j] by {
        if j < a.len() {
            assert(d[i] == a[i] && d[j] == a[j]);
        } else if i >= a.len() {
            assert(d[i] == b[i - a.len()] && d[j] == b[j - a.len()]);
        } else {
            assert(d[i] == a[i] && d[j] == b[j - a.len()]);
            assert(!is_consumer(a[i]) && is_consumer(b[j - a.len()]));
        }
    }
}

/// The expansion order of any request, legal or not, is duplicate-free.
pub proof fn lemma_expansion_order_no_duplicates(s: Seq<Component>)
    ensures
        expansion_order(s).no_duplicates(),
{
    lemma_dedup_no_duplicates(s);
    lemma_scheduled_no_duplicates(dedup_first(s));
}

/// The expansion order of a request places its consumer components strictly
/// after every other requested component, whatever the request's order.
pub proof fn lemma_expansion_order_consumers_last(s: Seq<Component>)
    ensures
        forall|i: int, j: int|
            0 <= i < j < expansion_order(s).len() && is_consumer(
                #[trigger] expansion_order(s)[i],
            ) ==> is_consumer(#[trigger] expansion_order(s)[j]),
{
    lemma_consumers_scheduled_last(dedup_first(s));
}

/// Any component set holding the tree component but not the core component is
/// rejected, with the error naming the missing co-requirement.
pub proof fn lemma_tree_requires_core(s: Seq<Component>)
    requires
        s.contains(Component::Tree),
        !s.contains(Component::Core),
    ensures
        validation_error(s) == Some(BuildError::TreeRequiresCore),
{
}

/// Any component set holding the tree API component but not the tree
/// component is rejected, with a distinct error naming that requirement.
pub proof fn lemma_tree_api_requires_tree(s: Seq<Component>)
    requires
        s.contains(Component::TreeApi),
        !s.contains(Component::Tree),
    ensures
        validation_error(s) == Some(BuildError::TreeApiRequiresTree),
{
}

/// Whether a component set holds a given component.
pub fn component_set_contains(components: &Vec<Component>, c: Component) -> (r: bool)
    ensures
        r == components@.contains(c),
{
    let mut i: usize = 0;
    while i < components.len()
        invariant
            i <= components@.len(),
            forall|j: int| 0 <= j < i ==> components@[j] != c,
        decreases components@.len() - i,
    {
        if components[i] == c {
            return true;
        }
        i += 1;
    }
    false
}

/// Checks the cross-component legality constraints of a requested set and
/// returns the first violation, if any. The checks are evaluated against the
/// whole set, so the input order is irrelevant.
pub fn validate_components(components: &Vec<Component>) -> (r: Option<BuildError>)
    ensures
        r == validation_error(components@),
{
    let has_core = component_set_contains(components, Component::Core);
    let has_tree = component_set_contains(components, Component::Tree);
    let has_tree_api = component_set_contains(components, Component::TreeApi);
    if has_tree && !has_core {
        Some(BuildError::TreeRequiresCore)
    } else if has_tree_api && !has_tree {
        Some(BuildError::TreeApiRequiresTree)
    } else {
        None
    }
}

/// Discards duplicate requests, keeping the first occurrence of each
/// component.
pub fn dedup_components(components: &Vec<Component>) -> (r: Vec<Component>)
    ensures
        r@ == dedup_first(components@),
{
    let mut out: Vec<Component> = Vec::new();
    let mut i: usize = 0;
    while i < components.len()
        invariant
            i <= components@.len(),
            out@ == dedup_first(components@.take(i as int)),
        decreases components@.len() - i,
    {
        let c = components[i];
        proof {
            assert(components@.take(i as int + 1).drop_last() =~= components@.take(i as int));
            assert(components@.take(i as int + 1).last() == components@[i as int]);
        }
        if !component_set_contains(&out, c) {
            out.push(c);
        }
        i += 1;
    }
    proof {
        assert(components@.take(components@.len() as int) =~= components@);
    }
    out
}

/// Orders a component set deterministically: producers first, in the input's
/// relative order, then consumers, in theirs.
pub fn schedule_components(components: &Vec<Component>) -> (r: Vec<Component>)
    ensures
        r@ == scheduled_order(components@),
{
    let mut producers: Vec<Component> = Vec::new();
    let mut consumers: Vec<Component> = Vec::new();
    let mut i: usize = 0;
    while i < components.len()
        invariant
            i <= components@.len(),
            producers@ == producer_part(components@.take(i as int)),
            consumers@ == consumer_part(components@.take(i as int)),
        decreases components@.len() - i,
    {
        let c = components[i];
        proof {
            assert(components@.take(i as int + 1).drop_last() =~= components@.take(i as int));
            assert(components@.take(i as int + 1).last() == components@[i as int]);
        }
        if c == Component::HttpApi || c == Component::WsApi {
            consumers.push(c);
        } else {
            producers.push(c);
        }
        i += 1;
    }
    proof {
        assert(components@.take(components@.len() as int) =~= components@);
    }
    let mut result = producers;
    let mut j: usize = 0;
    while j < consumers.len()
        invariant
            j <= consumers@.len(),
            consumers@ == consumer_part(components@),
            result@ == producer_part(components@) + consumer_part(components@).take(j as int),
        decreases consumers@.len() - j,
    {
        let c = consumers[j];
        result.push(c);
        proof {
            assert(consumer_part(components@).take(j as int + 1)
                =~= consumer_part(components@).take(j as int).push(consumer_part(components@)[j as int]));
            assert(result@ =~= producer_part(components@) + consumer_part(components@).take(j as int + 1));
        }
        j += 1;
    }
    proof {
        assert(consumer_part(components@).take(consumer_part(components@).len() as int)
            =~= consumer_part(components@));
    }
    result
}

} // verus!
