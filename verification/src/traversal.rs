//! Breadth-first traversal of the relationship graph.
//!
//! The search starts at one identity and follows relationships: from their
//! source to their target, and where the rules of the traversal say so also
//! from their target to their source. Its queue is first-in first-out and
//! the relationships at each identity are taken in the order in which they
//! were recorded, so one graph always gives one result. The walks found so
//! far are the queue: the search goes on from them one after the other, and
//! a hash set of the identities they end at tells where it has been.

use crate::components::{IdentityRelationship, RelationshipType};
use crate::events::TraversalPath;
use crate::ids::{IdentityId, RelationshipId};
use crate::time::Timestamp;
use std::collections::HashSet;
use vstd::prelude::*;

verus! {

/// A path through the graph: the identities along it and the relationships
/// that lead from each to the next.
pub struct Walk {
    pub identities: Seq<IdentityId>,
    pub relationships: Seq<RelationshipId>,
}

impl View for TraversalPath {
    type V = Walk;

    open spec fn view(&self) -> Walk {
        Walk { identities: self.identities@, relationships: self.relationships@ }
    }
}

impl Walk {
    /// The walk that stays at its start.
    pub open spec fn start(root: IdentityId) -> Walk {
        Walk { identities: seq![root], relationships: Seq::empty() }
    }

    /// The identity at which the walk ends.
    pub open spec fn end(self) -> IdentityId {
        self.identities.last()
    }

    /// The number of relationships along the walk.
    pub open spec fn depth(self) -> nat {
        self.relationships.len()
    }

    /// The walk made one hop longer.
    pub open spec fn extended(self, hop: Hop) -> Walk {
        Walk {
            identities: self.identities.push(hop.to),
            relationships: self.relationships.push(hop.relationship_id),
        }
    }
}

/// The walks that a list of paths holds.
pub open spec fn walks_of(paths: Seq<TraversalPath>) -> Seq<Walk> {
    paths.map_values(|p: TraversalPath| p@)
}

/// The rules of a traversal: which relationship types it follows, how a type
/// is held against the allow-list, and in which direction a relationship is
/// followed.
#[derive(Debug)]
pub struct TraversalRules {
    /// The relationship types that are followed; all of them where there is
    /// no list.
    pub filter: Option<Vec<RelationshipType>>,
    /// A type passes the list only when the list holds a type that is the
    /// same in what it carries too; otherwise a listed type of the same
    /// variant is enough.
    pub exact_types: bool,
    /// A relationship is followed from its target to its source as well.
    pub both_ways: bool,
}

impl TraversalRules {
    /// The rules of a traversal that a command asks for: relationships are
    /// followed from source to target, and a type passes the allow-list when
    /// the list names a type of the same variant, whatever it carries.
    pub open spec fn of_command(filter: Option<Vec<RelationshipType>>) -> TraversalRules {
        TraversalRules { filter, exact_types: false, both_ways: false }
    }

    pub fn for_command(filter: Option<Vec<RelationshipType>>) -> (r: TraversalRules)
        ensures
            r == Self::of_command(filter),
    {
        TraversalRules { filter, exact_types: false, both_ways: false }
    }

    /// The rules of a traversal that a query asks for: relationships are
    /// followed from either end, and a type passes the allow-list only when
    /// the list holds the very type, with what it carries.
    pub open spec fn of_query(filter: Option<Vec<RelationshipType>>) -> TraversalRules {
        TraversalRules { filter, exact_types: true, both_ways: true }
    }

    pub fn for_query(filter: Option<Vec<RelationshipType>>) -> (r: TraversalRules)
        ensures
            r == Self::of_query(filter),
    {
        TraversalRules { filter, exact_types: true, both_ways: true }
    }
}

/// A listed type lets a relationship type pass: as the same type where the
/// rules ask for exact types, as a type of the same variant otherwise.
pub open spec fn type_matches(listed: RelationshipType, t: RelationshipType, exact_types: bool) -> bool {
    if exact_types {
        listed.same_as(t)
    } else {
        listed.same_kind(t)
    }
}

/// A relationship type passes the allow-list when there is no list, or when
/// some listed type lets it pass.
pub open spec fn type_admitted(rules: TraversalRules, t: RelationshipType) -> bool {
    match rules.filter {
        Some(allowed) => exists|k: int|
            0 <= k < allowed@.len() && type_matches(#[trigger] allowed@[k], t, rules.exact_types),
        None => true,
    }
}

/// A relationship can be followed when it has not expired and its type passes
/// the allow-list.
pub open spec fn usable(rel: IdentityRelationship, rules: TraversalRules, now: Timestamp) -> bool {
    !rel.expired(now) && type_admitted(rules, rel.relationship_type)
}

/// One way of following a relationship: from one of its ends to the other.
/// A hop that is not open cannot be taken.
pub struct Hop {
    pub relationship_id: RelationshipId,
    pub from: IdentityId,
    pub to: IdentityId,
    pub open: bool,
}

/// The hop along a relationship from its source to its target. It is open
/// when the relationship can be followed.
pub open spec fn forward_hop(rel: IdentityRelationship, rules: TraversalRules, now: Timestamp) -> Hop {
    Hop {
        relationship_id: rel.relationship_id,
        from: rel.source_identity,
        to: rel.target_identity,
        open: usable(rel, rules, now),
    }
}

/// The hop along a relationship from its target to its source. It is open
/// when the relationship can be followed and the rules follow relationships
/// both ways.
pub open spec fn backward_hop(rel: IdentityRelationship, rules: TraversalRules, now: Timestamp) -> Hop {
    Hop {
        relationship_id: rel.relationship_id,
        from: rel.target_identity,
        to: rel.source_identity,
        open: rules.both_ways && usable(rel, rules, now),
    }
}

/// The hops that the relationships offer, in the order in which a search
/// looks at them: for each relationship in recorded order, first the hop
/// from its source to its target, then the hop back.
pub open spec fn hops_of(rels: Seq<IdentityRelationship>, rules: TraversalRules, now: Timestamp) -> Seq<
    Hop,
> {
    Seq::new(
        2 * rels.len(),
        |h: int|
            if h % 2 == 0 {
                forward_hop(rels[h / 2], rules, now)
            } else {
                backward_hop(rels[h / 2], rules, now)
            },
    )
}

/// Some walk in the queue ends at the identity: the search has been there.
pub open spec fn reached(queue: Seq<Walk>, node: IdentityId) -> bool {
    exists|k: int| 0 <= k < queue.len() && (#[trigger] queue[k]).end() == node
}

/// A walk may be made longer unless it has the greatest depth allowed.
pub open spec fn may_expand(max_depth: Option<u32>, walk: Walk) -> bool {
    max_depth matches Some(d) ==> walk.depth() < d
}

/// The queue after the first `n` hops were looked at from the end of
/// `current`: each open one that leaves there and leads to an identity not
/// reached before adds the longer walk at the back.
pub open spec fn expand(
    hops: Seq<Hop>,
    current: Walk,
    queue: Seq<Walk>,
    n: int,
) -> Seq<Walk>
    decreases n,
{
    if n <= 0 {
        queue
    } else {
        let before = expand(hops, current, queue, n - 1);
        let rel = hops[n - 1];
        if rel.from == current.end() && rel.open && !reached(
            before,
            rel.to,
        ) {
            before.push(current.extended(rel))
        } else {
            before
        }
    }
}

/// The queue when the search is over, given the queue so far and the place
/// `head` of the next walk to go on from. The search ends when it has gone on
/// from every walk, and at the latest when `head` passes the number of hops:
/// a queue never holds more walks than there are hops, plus the one at the
/// start, so that by then no walk is left (`lemma_breadth_first_exhaustive`).
pub open spec fn search(
    hops: Seq<Hop>,
    max_depth: Option<u32>,
    queue: Seq<Walk>,
    head: int,
) -> Seq<Walk>
    decreases hops.len() + 1 - head,
{
    if head < 0 || head >= queue.len() || head > hops.len() {
        queue
    } else {
        let current = queue[head];
        let next = if may_expand(max_depth, current) {
            expand(hops, current, queue, hops.len() as int)
        } else {
            queue
        };
        search(hops, max_depth, next, head + 1)
    }
}

/// All walks that a breadth-first search from `root` finds over the hops, in
/// the order in which it finds them; the first is the walk that stays at
/// `root`.
pub open spec fn search_from(hops: Seq<Hop>, root: IdentityId, max_depth: Option<u32>) -> Seq<Walk> {
    search(hops, max_depth, seq![Walk::start(root)], 0)
}

/// All walks that a breadth-first search from `root` finds among the
/// relationships at `now` under the rules of the traversal, in the order in
/// which it finds them; the first is the walk that stays at `root`.
pub open spec fn breadth_first(
    rels: Seq<IdentityRelationship>,
    root: IdentityId,
    max_depth: Option<u32>,
    rules: TraversalRules,
    now: Timestamp,
) -> Seq<Walk> {
    search_from(hops_of(rels, rules, now), root, max_depth)
}

/// A walk is sound when it starts at `root`, is no deeper than allowed, passes
/// no identity twice, and each of its relationships is that of an open hop
/// which leads from one identity of the walk to the next.
pub open spec fn walk_sound(
    walk: Walk,
    hops: Seq<Hop>,
    root: IdentityId,
    max_depth: Option<u32>,
) -> bool {
    &&& walk.identities.len() == walk.relationships.len() + 1
    &&& walk.identities[0] == root
    &&& max_depth matches Some(d) ==> walk.relationships.len() <= d
    &&& walk.identities.no_duplicates()
    &&& forall|k: int|
        0 <= k < walk.relationships.len() ==> exists|j: int|
            0 <= j < hops.len() && (#[trigger] hops[j]).relationship_id
                == #[trigger] walk.relationships[k] && hops[j].from == walk.identities[k]
                && hops[j].to == walk.identities[k + 1] && hops[j].open
}

/// No two walks of the queue end at the same identity.
pub open spec fn ends_distinct(queue: Seq<Walk>) -> bool {
    forall|a: int, b: int|
        0 <= a < b < queue.len() ==> (#[trigger] queue[a]).end() != (#[trigger] queue[b]).end()
}

/// What holds of the queue all through a search: every walk is sound, no two
/// end at the same identity, and every identity on a walk has been reached.
pub open spec fn queue_sound(
    queue: Seq<Walk>,
    hops: Seq<Hop>,
    root: IdentityId,
    max_depth: Option<u32>,
) -> bool {
    &&& forall|k: int|
        0 <= k < queue.len() ==> walk_sound(#[trigger] queue[k], hops, root, max_depth)
    &&& ends_distinct(queue)
    &&& forall|k: int, m: int|
        0 <= k < queue.len() && 0 <= m < queue[k].identities.len() ==> reached(
            queue,
            #[trigger] queue[k].identities[m],
        )
}

/// `longer` begins with the walks of `queue`, in the same order.
pub open spec fn grown_from(longer: Seq<Walk>, queue: Seq<Walk>) -> bool {
    &&& queue.len() <= longer.len()
    &&& forall|k: int| 0 <= k < queue.len() ==> #[trigger] longer[k] == queue[k]
}

proof fn lemma_reached_grows(longer: Seq<Walk>, queue: Seq<Walk>, node: IdentityId)
    requires
        grown_from(longer, queue),
        reached(queue, node),
    ensures
        reached(longer, node),
{
    let k = choose|k: int| 0 <= k < queue.len() && (#[trigger] queue[k]).end() == node;
    assert(longer[k].end() == node);
}

proof fn lemma_push_sound(
    queue: Seq<Walk>,
    hops: Seq<Hop>,
    root: IdentityId,
    max_depth: Option<u32>,
    current: Walk,
    at: int,
    n: int,
)
    requires
        queue_sound(queue, hops, root, max_depth),
        0 <= at < queue.len(),
        queue[at] == current,
        may_expand(max_depth, current),
        0 < n <= hops.len(),
        hops[n - 1].from == current.end(),
        hops[n - 1].open,
        !reached(queue, hops[n - 1].to),
    ensures
        queue_sound(queue.push(current.extended(hops[n - 1])), hops, root, max_depth),
{
    let rel = hops[n - 1];
    let walk = current.extended(rel);
    let longer = queue.push(walk);
    assert(walk_sound(current, hops, root, max_depth));
    assert(grown_from(longer, queue));
    assert forall|m: int| 0 <= m < current.identities.len() implies current.identities[m]
        != rel.to by {
        assert(reached(queue, queue[at].identities[m]));
    }
    assert(walk.identities.no_duplicates());
    assert forall|k: int| 0 <= k < walk.relationships.len() implies exists|j: int|
        0 <= j < hops.len() && (#[trigger] hops[j]).relationship_id
            == #[trigger] walk.relationships[k] && hops[j].from == walk.identities[k]
            && hops[j].to == walk.identities[k + 1] && hops[j].open by {
        if k < current.relationships.len() {
            let j = choose|j: int|
                0 <= j < hops.len() && (#[trigger] hops[j]).relationship_id
                    == current.relationships[k] && hops[j].from == current.identities[k]
                    && hops[j].to == current.identities[k + 1] && hops[j].open;
            assert(hops[j].relationship_id == walk.relationships[k]);
        } else {
            assert(hops[n - 1].relationship_id == walk.relationships[k]);
        }
    }
    assert(walk_sound(walk, hops, root, max_depth));
    assert forall|k: int| 0 <= k < longer.len() implies walk_sound(
        #[trigger] longer[k],
        hops, root, max_depth,
    ) by {
        if k < queue.len() {
            assert(longer[k] == queue[k]);
        }
    }
    assert forall|a: int, b: int| 0 <= a < b < longer.len() implies (#[trigger] longer[a]).end() != (
    #[trigger] longer[b]).end() by {
        if b < queue.len() {
            assert(queue[a].end() != queue[b].end());
        } else {
            assert(queue[a].end() != rel.to);
        }
    }
    assert forall|k: int, m: int|
        0 <= k < longer.len() && 0 <= m < longer[k].identities.len() implies reached(
        longer,
        #[trigger] longer[k].identities[m],
    ) by {
        if k < queue.len() {
            assert(reached(queue, queue[k].identities[m]));
            lemma_reached_grows(longer, queue, queue[k].identities[m]);
        } else if m < current.identities.len() {
            assert(reached(queue, queue[at].identities[m]));
            lemma_reached_grows(longer, queue, current.identities[m]);
        } else {
            assert(longer[queue.len() as int].end() == rel.to);
        }
    }
}

proof fn lemma_expand_sound(
    queue: Seq<Walk>,
    hops: Seq<Hop>,
    root: IdentityId,
    max_depth: Option<u32>,
    current: Walk,
    at: int,
    n: int,
)
    requires
        queue_sound(queue, hops, root, max_depth),
        0 <= at < queue.len(),
        queue[at] == current,
        may_expand(max_depth, current),
        0 <= n <= hops.len(),
    ensures
        queue_sound(expand(hops, current, queue, n), hops, root, max_depth),
        grown_from(expand(hops, current, queue, n), queue),
    decreases n,
{
    if n > 0 {
        lemma_expand_sound(queue, hops, root, max_depth, current, at, n - 1);
        let before = expand(hops, current, queue, n - 1);
        let rel = hops[n - 1];
        if rel.from == current.end() && rel.open && !reached(
            before,
            rel.to,
        ) {
            assert(before[at] == current);
            lemma_push_sound(before, hops, root, max_depth, current, at, n);
        }
    }
}

proof fn lemma_search_sound(
    queue: Seq<Walk>,
    hops: Seq<Hop>,
    root: IdentityId,
    max_depth: Option<u32>,
    head: int,
)
    requires
        queue_sound(queue, hops, root, max_depth),
        0 <= head,
    ensures
        queue_sound(search(hops, max_depth, queue, head), hops, root, max_depth),
        grown_from(search(hops, max_depth, queue, head), queue),
    decreases hops.len() + 1 - head,
{
    if !(head >= queue.len() || head > hops.len()) {
        let current = queue[head];
        if may_expand(max_depth, current) {
            lemma_expand_sound(
                queue,
                hops, root, max_depth,
                current,
                head,
                hops.len() as int,
            );
        }
        let next = if may_expand(max_depth, current) {
            expand(hops, current, queue, hops.len() as int)
        } else {
            queue
        };
        lemma_search_sound(next, hops, root, max_depth, head + 1);
    }
}

/// Every walk that a breadth-first search finds starts at its root, is no
/// deeper than the greatest depth asked for, passes no identity twice and
/// follows open hops; and no two of the walks end at the same identity, so
/// that no identity is visited twice.
pub proof fn lemma_breadth_first_sound(
    hops: Seq<Hop>,
    root: IdentityId,
    max_depth: Option<u32>,
)
    ensures
        queue_sound(search_from(hops, root, max_depth), hops, root, max_depth),
        search_from(hops, root, max_depth).len() >= 1,
        search_from(hops, root, max_depth)[0] == Walk::start(root),
{
    let first = seq![Walk::start(root)];
    assert(first[0].identities.no_duplicates());
    assert(walk_sound(first[0], hops, root, max_depth));
    assert forall|k: int, m: int|
        0 <= k < first.len() && 0 <= m < first[k].identities.len() implies reached(
        first,
        #[trigger] first[k].identities[m],
    ) by {
        assert(first[0].end() == root);
    }
    lemma_search_sound(first, hops, root, max_depth, 0);
}

/// A relationship joins one identity to the next along a traversal: from its
/// source to its target, or the other way round where the rules follow
/// relationships both ways.
pub open spec fn joins(
    rel: IdentityRelationship,
    from: IdentityId,
    to: IdentityId,
    rules: TraversalRules,
) -> bool {
    ||| (rel.source_identity == from && rel.target_identity == to)
    ||| (rules.both_ways && rel.target_identity == from && rel.source_identity == to)
}

/// The step at `m` of the walk follows a recorded relationship: one that can
/// be followed at `now` under the rules, that joins the identity at `m` to
/// the next, and whose identifier the walk holds at `m`.
pub open spec fn step_follows(
    rels: Seq<IdentityRelationship>,
    rules: TraversalRules,
    now: Timestamp,
    walk: Walk,
    m: int,
) -> bool {
    exists|j: int|
        0 <= j < rels.len() && (#[trigger] rels[j]).relationship_id == walk.relationships[m]
            && joins(rels[j], walk.identities[m], walk.identities[m + 1], rules) && usable(
            rels[j],
            rules,
            now,
        )
}

/// Every step of every walk that a breadth-first search finds follows a
/// recorded relationship that has not expired and whose type passes the
/// allow-list as the rules hold it against the list.
pub proof fn lemma_walks_follow_relationships(
    rels: Seq<IdentityRelationship>,
    root: IdentityId,
    max_depth: Option<u32>,
    rules: TraversalRules,
    now: Timestamp,
)
    ensures
        forall|k: int, m: int|
            0 <= k < breadth_first(rels, root, max_depth, rules, now).len() && 0 <= m
                < breadth_first(rels, root, max_depth, rules, now)[k].relationships.len()
                ==> #[trigger] step_follows(
                rels,
                rules,
                now,
                breadth_first(rels, root, max_depth, rules, now)[k],
                m,
            ),
{
    let hops = hops_of(rels, rules, now);
    let walks = breadth_first(rels, root, max_depth, rules, now);
    lemma_breadth_first_sound(hops, root, max_depth);
    assert forall|k: int, m: int|
        0 <= k < walks.len() && 0 <= m < walks[k].relationships.len() implies #[trigger] step_follows(
        rels,
        rules,
        now,
        walks[k],
        m,
    ) by {
        let walk = walks[k];
        assert(walk_sound(walk, hops, root, max_depth));
        let h = choose|h: int|
            0 <= h < hops.len() && (#[trigger] hops[h]).relationship_id == walk.relationships[m]
                && hops[h].from == walk.identities[m] && hops[h].to == walk.identities[m + 1]
                && hops[h].open;
        let j = h / 2;
        assert(0 <= j < rels.len());
        assert(rels[j].relationship_id == walk.relationships[m]);
        assert(joins(rels[j], walk.identities[m], walk.identities[m + 1], rules));
        assert(usable(rels[j], rules, now));
    }
}

/// Some hop leads to the identity.
pub open spec fn led_to(hops: Seq<Hop>, node: IdentityId) -> bool {
    exists|j: int| 0 <= j < hops.len() && (#[trigger] hops[j]).to == node
}

/// A sound queue that begins with the walk that stays at the root holds at
/// most one walk more than there are hops: every other walk ends where a hop
/// leads, and no two walks end at the same identity.
pub proof fn lemma_queue_bounded(
    queue: Seq<Walk>,
    hops: Seq<Hop>,
    root: IdentityId,
    max_depth: Option<u32>,
)
    requires
        queue_sound(queue, hops, root, max_depth),
        queue.len() >= 1,
        queue[0] == Walk::start(root),
    ensures
        queue.len() <= hops.len() + 1,
{
    let n = queue.len() - 1;
    assert forall|k: int| 1 <= k < queue.len() implies led_to(hops, (#[trigger] queue[k]).end()) by {
        let walk = queue[k];
        assert(walk_sound(walk, hops, root, max_depth));
        assert(queue[0].end() == root);
        assert(queue[0].end() != queue[k].end());
        let m = walk.relationships.len() - 1;
        let j = choose|j: int|
            0 <= j < hops.len() && (#[trigger] hops[j]).relationship_id
                == walk.relationships[m] && hops[j].from == walk.identities[m]
                && hops[j].to == walk.identities[m + 1] && hops[j].open;
        assert(hops[j].to == walk.end());
    }
    let found = Seq::new(
        n as nat,
        |i: int| choose|j: int| 0 <= j < hops.len() && (#[trigger] hops[j]).to == queue[i + 1].end(),
    );
    assert forall|a: int| 0 <= a < found.len() implies 0 <= #[trigger] found[a] < hops.len()
        && hops[found[a]].to == queue[a + 1].end() by {
        assert(led_to(hops, queue[a + 1].end()));
    }
    assert forall|a: int, b: int| 0 <= a < found.len() && 0 <= b < found.len() && a != b implies found[a]
        != found[b] by {
        assert(hops[found[a]].to == queue[a + 1].end());
        assert(hops[found[b]].to == queue[b + 1].end());
        if a < b {
            assert(queue[a + 1].end() != queue[b + 1].end());
        } else {
            assert(queue[b + 1].end() != queue[a + 1].end());
        }
    }
    found.unique_seq_to_set();
    vstd::set_lib::lemma_int_range(0, hops.len() as int);
    assert(found.to_set().subset_of(vstd::set_lib::set_int_range(0, hops.len() as int))) by {
        assert forall|j: int| found.to_set().contains(j) implies vstd::set_lib::set_int_range(
            0,
            hops.len() as int,
        ).contains(j) by {
            let i = choose|i: int| 0 <= i < found.len() && found[i] == j;
            assert(0 <= found[i] < hops.len());
        }
    }
    vstd::set_lib::lemma_len_subset(
        found.to_set(),
        vstd::set_lib::set_int_range(0, hops.len() as int),
    );
}

/// A route: identities from the root on, each joined to the next by an open
/// hop.
pub open spec fn route(
    hops: Seq<Hop>,
    root: IdentityId,
    path: Seq<IdentityId>,
) -> bool {
    &&& path.len() >= 1
    &&& path[0] == root
    &&& forall|m: int|
        0 <= m < path.len() - 1 ==> exists|j: int|
            0 <= j < hops.len() && (#[trigger] hops[j]).from == #[trigger] path[m]
                && hops[j].to == path[m + 1] && hops[j].open
}

/// Some walk of the queue ends at the identity and is no deeper than the
/// limit.
pub open spec fn reached_within(queue: Seq<Walk>, node: IdentityId, limit: nat) -> bool {
    exists|i: int| 0 <= i < queue.len() && (#[trigger] queue[i]).end() == node && queue[i].depth() <= limit
}

/// Walks further back in the queue are at least as deep.
pub open spec fn ordered_by_depth(queue: Seq<Walk>) -> bool {
    forall|a: int, b: int|
        0 <= a <= b < queue.len() ==> (#[trigger] queue[a]).depth() <= (#[trigger] queue[b]).depth()
}

/// No walk of the queue is deeper than the limit.
pub open spec fn no_deeper_than(queue: Seq<Walk>, limit: nat) -> bool {
    forall|b: int| 0 <= b < queue.len() ==> (#[trigger] queue[b]).depth() <= limit
}

/// Every open hop that leaves the end of the walk leads to an identity that
/// the queue has reached by a walk at most one deeper.
pub open spec fn closed_within(
    queue: Seq<Walk>,
    hops: Seq<Hop>,
    walk: Walk,
) -> bool {
    forall|j: int|
        0 <= j < hops.len() && (#[trigger] hops[j]).from == walk.end() && hops[j].open ==> reached_within(queue, hops[j].to, walk.depth() + 1)
}

proof fn lemma_reached_within_grows(longer: Seq<Walk>, queue: Seq<Walk>, node: IdentityId, limit: nat)
    requires
        grown_from(longer, queue),
        reached_within(queue, node, limit),
    ensures
        reached_within(longer, node, limit),
{
    let i = choose|i: int|
        0 <= i < queue.len() && (#[trigger] queue[i]).end() == node && queue[i].depth() <= limit;
    assert(longer[i].end() == node && longer[i].depth() <= limit);
}

proof fn lemma_expand_levels(
    hops: Seq<Hop>,
    current: Walk,
    queue: Seq<Walk>,
    n: int,
)
    requires
        0 <= n <= hops.len(),
        ordered_by_depth(queue),
        no_deeper_than(queue, current.depth() + 1),
    ensures
        grown_from(expand(hops, current, queue, n), queue),
        ordered_by_depth(expand(hops, current, queue, n)),
        no_deeper_than(expand(hops, current, queue, n), current.depth() + 1),
        forall|j: int|
            0 <= j < n && (#[trigger] hops[j]).from == current.end() && hops[j].open ==> reached_within(
                expand(hops, current, queue, n),
                hops[j].to,
                current.depth() + 1,
            ),
    decreases n,
{
    if n > 0 {
        lemma_expand_levels(hops, current, queue, n - 1);
        let before = expand(hops, current, queue, n - 1);
        let after = expand(hops, current, queue, n);
        let limit = current.depth() + 1;
        assert(grown_from(after, before));
        assert(ordered_by_depth(after)) by {
            assert forall|a: int, b: int| 0 <= a <= b < after.len() implies (
            #[trigger] after[a]).depth() <= (#[trigger] after[b]).depth() by {
                if b < before.len() {
                    assert(before[a].depth() <= before[b].depth());
                } else if a < before.len() {
                    assert(before[a].depth() <= limit);
                }
            }
        }
        assert(no_deeper_than(after, limit)) by {
            assert forall|b: int| 0 <= b < after.len() implies (#[trigger] after[b]).depth()
                <= limit by {
                if b < before.len() {
                    assert(before[b].depth() <= limit);
                }
            }
        }
        assert forall|j: int|
            0 <= j < n && (#[trigger] hops[j]).from == current.end() && hops[j].open implies reached_within(after, hops[j].to, limit) by {
            if j < n - 1 {
                lemma_reached_within_grows(after, before, hops[j].to, limit);
            } else if reached(before, hops[j].to) {
                let i = choose|i: int|
                    0 <= i < before.len() && (#[trigger] before[i]).end()
                        == hops[j].to;
                assert(before[i].depth() <= limit);
                assert(after[i].end() == hops[j].to && after[i].depth() <= limit);
            } else {
                let i = before.len() as int;
                assert(after[i].end() == hops[j].to && after[i].depth() <= limit);
            }
        }
    }
}

proof fn lemma_search_levels(
    hops: Seq<Hop>,
    max_depth: Option<u32>,
    queue: Seq<Walk>,
    head: int,
)
    requires
        0 <= head,
        ordered_by_depth(queue),
        head < queue.len() ==> no_deeper_than(queue, queue[head].depth() + 1),
    ensures
        grown_from(search(hops, max_depth, queue, head), queue),
        forall|k: int|
            head <= k < search(hops, max_depth, queue, head).len() && k <= hops.len()
                && may_expand(
                max_depth,
                #[trigger] search(hops, max_depth, queue, head)[k],
            ) ==> closed_within(
                search(hops, max_depth, queue, head),
                hops, search(hops, max_depth, queue, head)[k],
            ),
    decreases hops.len() + 1 - head,
{
    let result = search(hops, max_depth, queue, head);
    if !(head >= queue.len() || head > hops.len()) {
        let current = queue[head];
        let limit = current.depth() + 1;
        let next = if may_expand(max_depth, current) {
            expand(hops, current, queue, hops.len() as int)
        } else {
            queue
        };
        lemma_expand_levels(hops, current, queue, hops.len() as int);
        assert(grown_from(next, queue));
        assert(ordered_by_depth(next));
        assert(no_deeper_than(next, limit));
        if head + 1 < next.len() {
            assert(next[head].depth() <= next[head + 1].depth());
            assert forall|b: int| 0 <= b < next.len() implies (#[trigger] next[b]).depth()
                <= next[head + 1].depth() + 1 by {
                assert(next[b].depth() <= limit);
            }
        }
        lemma_search_levels(hops, max_depth, next, head + 1);
        assert(grown_from(result, next));
        assert(result[head] == current);
        assert forall|k: int|
            head <= k < result.len() && k <= hops.len() && may_expand(
                max_depth,
                #[trigger] result[k],
            ) implies closed_within(result, hops, result[k]) by {
            if k == head {
                assert forall|j: int|
                    0 <= j < hops.len() && (#[trigger] hops[j]).from == current.end()
                        && hops[j].open implies reached_within(
                    result,
                    hops[j].to,
                    limit,
                ) by {
                    lemma_reached_within_grows(result, next, hops[j].to, limit);
                }
            }
        }
    }
}

/// A breadth-first search is exhaustive. It never holds more walks than there
/// are hops, plus the one at its start, so that it goes on from every walk it
/// finds; and from every walk that may be made longer, each open hop leads
/// to an identity that the search has reached by a walk at most one deeper.
pub proof fn lemma_breadth_first_exhaustive(
    hops: Seq<Hop>,
    root: IdentityId,
    max_depth: Option<u32>,
)
    ensures
        search_from(hops, root, max_depth).len() <= hops.len() + 1,
        forall|k: int|
            0 <= k < search_from(hops, root, max_depth).len() && may_expand(
                max_depth,
                #[trigger] search_from(hops, root, max_depth)[k],
            ) ==> closed_within(
                search_from(hops, root, max_depth),
                hops, search_from(hops, root, max_depth)[k],
            ),
{
    let walks = search_from(hops, root, max_depth);
    lemma_breadth_first_sound(hops, root, max_depth);
    lemma_queue_bounded(walks, hops, root, max_depth);
    let first = seq![Walk::start(root)];
    assert(ordered_by_depth(first));
    assert(no_deeper_than(first, first[0].depth() + 1));
    lemma_search_levels(hops, max_depth, first, 0);
}

/// A breadth-first search finds every identity that can be reached, and by a
/// walk that is as short as any: where a route leads from the root to an
/// identity, and is no longer than the greatest depth asked for, the search
/// has a walk that ends at the identity and is no longer than the route.
pub proof fn lemma_breadth_first_complete(
    hops: Seq<Hop>,
    root: IdentityId,
    max_depth: Option<u32>,
    path: Seq<IdentityId>,
)
    requires
        route(hops, root, path),
        max_depth matches Some(d) ==> path.len() - 1 <= d,
    ensures
        reached_within(
            search_from(hops, root, max_depth),
            path.last(),
            (path.len() - 1) as nat,
        ),
    decreases path.len(),
{
    let walks = search_from(hops, root, max_depth);
    lemma_breadth_first_sound(hops, root, max_depth);
    if path.len() == 1 {
        assert(walks[0].end() == root && walks[0].depth() <= 0);
    } else {
        let shorter = path.drop_last();
        assert(route(hops, root, shorter)) by {
            assert forall|m: int| 0 <= m < shorter.len() - 1 implies exists|j: int|
                0 <= j < hops.len() && (#[trigger] hops[j]).from == #[trigger] shorter[m]
                    && hops[j].to == shorter[m + 1] && hops[j].open by {
                let j = choose|j: int|
                    0 <= j < hops.len() && (#[trigger] hops[j]).from == path[m]
                        && hops[j].to == path[m + 1] && hops[j].open;
                assert(hops[j].from == shorter[m]);
            }
        }
        lemma_breadth_first_complete(hops, root, max_depth, shorter);
        let k = choose|k: int|
            0 <= k < walks.len() && (#[trigger] walks[k]).end() == shorter.last()
                && walks[k].depth() <= shorter.len() - 1;
        let m = path.len() - 2;
        let j = choose|j: int|
            0 <= j < hops.len() && (#[trigger] hops[j]).from == path[m]
                && hops[j].to == path[m + 1] && hops[j].open;
        assert(shorter.last() == path[m]);
        lemma_breadth_first_exhaustive(hops, root, max_depth);
        assert(may_expand(max_depth, walks[k]));
        assert(closed_within(walks, hops, walks[k]));
        assert(reached_within(walks, hops[j].to, walks[k].depth() + 1));
        let i = choose|i: int|
            0 <= i < walks.len() && (#[trigger] walks[i]).end() == hops[j].to
                && walks[i].depth() <= walks[k].depth() + 1;
        assert(walks[i].end() == path.last() && walks[i].depth() <= path.len() - 1);
    }
}

/// The open hops among the first `n`, in their order.
pub open spec fn open_hops(hops: Seq<Hop>, n: int) -> Seq<Hop>
    decreases n,
{
    if n <= 0 {
        Seq::empty()
    } else if hops[n - 1].open {
        open_hops(hops, n - 1).push(hops[n - 1])
    } else {
        open_hops(hops, n - 1)
    }
}

/// The open hops among the first `n` are the first of the open hops among
/// the first `m`, where `m` is no less than `n`; and there are no more of
/// them than `n`.
pub proof fn lemma_open_hops_prefix(hops: Seq<Hop>, n: int, m: int)
    requires
        0 <= n <= m <= hops.len(),
    ensures
        open_hops(hops, n).len() <= open_hops(hops, m).len(),
        open_hops(hops, n).len() <= n,
        forall|i: int|
            0 <= i < open_hops(hops, n).len() ==> #[trigger] open_hops(hops, m)[i] == open_hops(
                hops,
                n,
            )[i],
    decreases m,
{
    if n < m {
        lemma_open_hops_prefix(hops, n, m - 1);
    } else if n > 0 {
        lemma_open_hops_prefix(hops, n - 1, n - 1);
    }
}

/// Two lists of hops that agree in their first `n` hops have the same open
/// hops among them.
pub proof fn lemma_open_hops_agree(one: Seq<Hop>, other: Seq<Hop>, n: int)
    requires
        0 <= n <= one.len(),
        n <= other.len(),
        forall|i: int| 0 <= i < n ==> #[trigger] one[i] == other[i],
    ensures
        open_hops(one, n) == open_hops(other, n),
    decreases n,
{
    if n > 0 {
        lemma_open_hops_agree(one, other, n - 1);
    }
}

proof fn lemma_expand_passes_over_closed(hops: Seq<Hop>, current: Walk, queue: Seq<Walk>, n: int)
    requires
        0 <= n <= hops.len(),
    ensures
        expand(hops, current, queue, n) == expand(
            open_hops(hops, hops.len() as int),
            current,
            queue,
            open_hops(hops, n).len() as int,
        ),
    decreases n,
{
    if n > 0 {
        lemma_expand_passes_over_closed(hops, current, queue, n - 1);
        lemma_open_hops_prefix(hops, n, hops.len() as int);
        if hops[n - 1].open {
            let m = open_hops(hops, n - 1).len() as int;
            assert(open_hops(hops, n)[m] == hops[n - 1]);
            assert(open_hops(hops, hops.len() as int)[m] == hops[n - 1]);
        }
    }
}

proof fn lemma_search_passes_over_closed(
    hops: Seq<Hop>,
    root: IdentityId,
    max_depth: Option<u32>,
    queue: Seq<Walk>,
    head: int,
)
    requires
        queue_sound(queue, open_hops(hops, hops.len() as int), root, max_depth),
        queue.len() >= 1,
        queue[0] == Walk::start(root),
        0 <= head <= queue.len(),
    ensures
        search(hops, max_depth, queue, head) == search(
            open_hops(hops, hops.len() as int),
            max_depth,
            queue,
            head,
        ),
    decreases hops.len() + 1 - head,
{
    let open = open_hops(hops, hops.len() as int);
    lemma_queue_bounded(queue, open, root, max_depth);
    lemma_open_hops_prefix(hops, hops.len() as int, hops.len() as int);
    if head < queue.len() {
        let current = queue[head];
        if may_expand(max_depth, current) {
            lemma_expand_passes_over_closed(hops, current, queue, hops.len() as int);
            lemma_expand_sound(queue, open, root, max_depth, current, head, open.len() as int);
        }
        let next = if may_expand(max_depth, current) {
            expand(open, current, queue, open.len() as int)
        } else {
            queue
        };
        assert(next[0] == queue[0]);
        lemma_search_passes_over_closed(hops, root, max_depth, next, head + 1);
    }
}

/// Hops that are not open make no difference to a search: it finds over all
/// the hops what it finds over the open ones alone.
pub proof fn lemma_closed_hops_make_no_difference(hops: Seq<Hop>, root: IdentityId, max_depth: Option<u32>)
    ensures
        search_from(hops, root, max_depth) == search_from(
            open_hops(hops, hops.len() as int),
            root,
            max_depth,
        ),
{
    let open = open_hops(hops, hops.len() as int);
    let first = seq![Walk::start(root)];
    assert(first[0].identities.no_duplicates());
    assert(walk_sound(first[0], open, root, max_depth));
    assert forall|k: int, m: int|
        0 <= k < first.len() && 0 <= m < first[k].identities.len() implies reached(
        first,
        #[trigger] first[k].identities[m],
    ) by {
        assert(first[0].end() == root);
    }
    lemma_search_passes_over_closed(hops, root, max_depth, first, 0);
}

fn copy_identities(ids: &Vec<IdentityId>) -> (r: Vec<IdentityId>)
    ensures
        r@ == ids@,
{
    let mut out: Vec<IdentityId> = Vec::new();
    let mut i: usize = 0;
    while i < ids.len()
        invariant
            i <= ids@.len(),
            out@ == ids@.subrange(0, i as int),
        decreases ids@.len() - i,
    {
        out.push(ids[i]);
        i += 1;
    }
    assert(ids@.subrange(0, ids@.len() as int) == ids@);
    out
}

fn copy_relationship_ids(ids: &Vec<RelationshipId>) -> (r: Vec<RelationshipId>)
    ensures
        r@ == ids@,
{
    let mut out: Vec<RelationshipId> = Vec::new();
    let mut i: usize = 0;
    while i < ids.len()
        invariant
            i <= ids@.len(),
            out@ == ids@.subrange(0, i as int),
        decreases ids@.len() - i,
    {
        out.push(ids[i]);
        i += 1;
    }
    assert(ids@.subrange(0, ids@.len() as int) == ids@);
    out
}

impl Clone for TraversalPath {
    fn clone(&self) -> (r: Self)
        ensures
            r@ == self@,
    {
        TraversalPath {
            identities: copy_identities(&self.identities),
            relationships: copy_relationship_ids(&self.relationships),
        }
    }
}

/// Whether some listed type lets the relationship type pass.
fn is_listed(allowed: &Vec<RelationshipType>, t: &RelationshipType, exact_types: bool) -> (r: bool)
    ensures
        r == exists|k: int|
            0 <= k < allowed@.len() && type_matches(#[trigger] allowed@[k], *t, exact_types),
{
    let mut k: usize = 0;
    while k < allowed.len()
        invariant
            k <= allowed@.len(),
            forall|i: int| 0 <= i < k ==> !type_matches(#[trigger] allowed@[i], *t, exact_types),
        decreases allowed@.len() - k,
    {
        let hit = if exact_types {
            allowed[k].is_same_as(t)
        } else {
            allowed[k].is_same_kind(t)
        };
        if hit {
            return true;
        }
        k += 1;
    }
    false
}

/// Whether a relationship type passes the allow-list.
pub fn is_type_admitted(rules: &TraversalRules, t: &RelationshipType) -> (r: bool)
    ensures
        r == type_admitted(*rules, *t),
{
    match &rules.filter {
        None => true,
        Some(allowed) => is_listed(allowed, t, rules.exact_types),
    }
}

/// Every path holds at least the identity it starts at.
pub open spec fn all_started(paths: Seq<TraversalPath>) -> bool {
    forall|k: int| 0 <= k < paths.len() ==> (#[trigger] paths[k]).identities@.len() > 0
}

/// The set holds the number of an identity exactly when some walk of the
/// queue ends at the identity.
pub open spec fn holds_ends(visited: Set<u128>, queue: Seq<Walk>) -> bool {
    forall|id: IdentityId| visited.contains(id.0) <==> #[trigger] reached(queue, id)
}

/// Takes one hop from the end of the current walk, if the hop leaves there,
/// is open and leads to an identity that was not reached before.
fn follow(
    queue: &mut Vec<TraversalPath>,
    visited: &mut HashSet<u128>,
    current_identities: &Vec<IdentityId>,
    current_relationships: &Vec<RelationshipId>,
    node: IdentityId,
    hop_from: IdentityId,
    hop_to: IdentityId,
    relationship_id: RelationshipId,
    open: bool,
)
    requires
        all_started(old(queue)@),
        holds_ends(old(visited)@, walks_of(old(queue)@)),
    ensures
        all_started(final(queue)@),
        holds_ends(final(visited)@, walks_of(final(queue)@)),
        walks_of(final(queue)@) == (if hop_from == node && open && !reached(
            walks_of(old(queue)@),
            hop_to,
        ) {
            walks_of(old(queue)@).push(
                Walk {
                    identities: current_identities@.push(hop_to),
                    relationships: current_relationships@.push(relationship_id),
                },
            )
        } else {
            walks_of(old(queue)@)
        }),
{
    broadcast use vstd::std_specs::hash::group_hash_axioms;

    let ghost before = walks_of(queue@);
    assert(visited@.contains(hop_to.0) <==> reached(before, hop_to));
    if hop_from == node && open && !visited.contains(&hop_to.0) {
        let mut identities = copy_identities(current_identities);
        identities.push(hop_to);
        let mut relationships = copy_relationship_ids(current_relationships);
        relationships.push(relationship_id);
        queue.push(TraversalPath { identities, relationships });
        let _ = visited.insert(hop_to.0);
        let ghost after = walks_of(queue@);
        assert(after =~= before.push(
            Walk {
                identities: current_identities@.push(hop_to),
                relationships: current_relationships@.push(relationship_id),
            },
        ));
        assert forall|id: IdentityId| visited@.contains(id.0) <==> #[trigger] reached(after, id) by {
            assert(visited@.contains(id.0) <==> (old(visited)@.contains(id.0) || id.0 == hop_to.0));
            assert(old(visited)@.contains(id.0) <==> reached(before, id));
            if reached(before, id) {
                let k = choose|k: int| 0 <= k < before.len() && (#[trigger] before[k]).end() == id;
                assert(after[k].end() == id);
            }
            if id == hop_to {
                assert(after[before.len() as int].end() == id);
            }
            if reached(after, id) {
                let k = choose|k: int| 0 <= k < after.len() && (#[trigger] after[k]).end() == id;
                if k < before.len() {
                    assert(before[k].end() == id);
                }
            }
        }
    } else {
        assert(walks_of(queue@) =~= before);
    }
}

/// Searches the relationships breadth-first from `root` under the rules of
/// the traversal. The result holds the walk that stays at `root` and then one
/// walk to every identity that was reached, in the order in which they were
/// reached.
pub fn traverse(
    rels: &Vec<IdentityRelationship>,
    root: IdentityId,
    max_depth: Option<u32>,
    rules: &TraversalRules,
    now: Timestamp,
) -> (r: Vec<TraversalPath>)
    ensures
        walks_of(r@) == breadth_first(rels@, root, max_depth, *rules, now),
        queue_sound(walks_of(r@), hops_of(rels@, *rules, now), root, max_depth),
        r@.len() >= 1,
        r@[0]@ == Walk::start(root),
        all_started(r@),
{
    let ghost hops = hops_of(rels@, *rules, now);
    let mut first_identities: Vec<IdentityId> = Vec::new();
    first_identities.push(root);
    let mut queue: Vec<TraversalPath> = Vec::new();
    queue.push(TraversalPath { identities: first_identities, relationships: Vec::new() });
    assert(walks_of(queue@) =~= seq![Walk::start(root)]) by {
        assert(queue@[0]@.identities =~= seq![root]);
        assert(queue@[0]@.relationships =~= Seq::<RelationshipId>::empty());
    }
    let mut visited: HashSet<u128> = HashSet::new();
    let _ = visited.insert(root.0);
    assert(holds_ends(visited@, walks_of(queue@))) by {
        broadcast use vstd::std_specs::hash::group_hash_axioms;

        let first = walks_of(queue@);
        assert forall|id: IdentityId| visited@.contains(id.0) <==> #[trigger] reached(first, id) by {
            if id == root {
                assert(first[0].end() == id);
            }
        }
    }
    let mut head: usize = 0;
    while head < queue.len() && head - head / 2 <= rels.len()
        invariant
            hops == hops_of(rels@, *rules, now),
            all_started(queue@),
            holds_ends(visited@, walks_of(queue@)),
            search(hops, max_depth, walks_of(queue@), head as int) == search_from(
                hops,
                root,
                max_depth,
            ),
        decreases 2 * rels@.len() + 1 - head,
    {
        let within = match max_depth {
            Some(d) => queue[head].relationships.len() < d as usize,
            None => true,
        };
        let ghost current = queue@[head as int]@;
        let ghost start_queue = walks_of(queue@);
        assert(start_queue[head as int] == current);
        assert(within == may_expand(max_depth, current));
        if within {
            let last: usize = queue[head].identities.len() - 1;
            let node = queue[head].identities[last];
            let current_identities = copy_identities(&queue[head].identities);
            let current_relationships = copy_relationship_ids(&queue[head].relationships);
            let mut j: usize = 0;
            while j < rels.len()
                invariant
                    j <= rels@.len(),
                    hops == hops_of(rels@, *rules, now),
                    all_started(queue@),
                    holds_ends(visited@, walks_of(queue@)),
                    walks_of(queue@) == expand(hops, current, start_queue, 2 * j),
                    current_identities@ == current.identities,
                    current_relationships@ == current.relationships,
                    node == current.end(),
                decreases rels@.len() - j,
            {
                let rel = &rels[j];
                let touches = rel.source_identity == node || rel.target_identity == node;
                let open = touches && !rel.is_expired(&now) && is_type_admitted(
                    rules,
                    &rel.relationship_type,
                );
                proof {
                    assert(hops[2 * j] == forward_hop(rels@[j as int], *rules, now));
                    assert(hops[2 * j + 1] == backward_hop(rels@[j as int], *rules, now));
                }
                follow(
                    &mut queue,
                    &mut visited,
                    &current_identities,
                    &current_relationships,
                    node,
                    rel.source_identity,
                    rel.target_identity,
                    rel.relationship_id,
                    open,
                );
                assert(walks_of(queue@) == expand(hops, current, start_queue, 2 * j + 1));
                follow(
                    &mut queue,
                    &mut visited,
                    &current_identities,
                    &current_relationships,
                    node,
                    rel.target_identity,
                    rel.source_identity,
                    rel.relationship_id,
                    open && rules.both_ways,
                );
                assert(walks_of(queue@) == expand(hops, current, start_queue, 2 * j + 2));
                j += 1;
            }
        }
        head += 1;
    }
    proof {
        lemma_breadth_first_sound(hops, root, max_depth);
    }
    queue
}

} // verus!
