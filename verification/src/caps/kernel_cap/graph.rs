//! Kernel capability graph: structural dependency declarations.
//!
//! Capability relationships as a directed graph. Purely declarative: it
//! never evaluates availability, computes compatibility or recommends.
//! It answers "what does livepatch need?" and "what depends on modules?".
//!
//! A lookup by id finds the first node declared with that id.
use crate::seqs::cond_seq;
use crate::text::{str_eq, views};
use vstd::seq_lib::lemma_concat_associative;
use crate::caps::kernel_cap::graph_laws::{lemma_known_chain_prerequisites_first, prerequisites_first};
use vstd::prelude::*;

verus! {

// ============================================================================
//  Domain model
// ============================================================================

/// A dependency from one capability to another.
#[derive(Clone, Debug)]
pub struct CapabilityDependency {
    /// The capability id this node depends on.
    pub target_id: &'static str,
    /// The kind of dependency.
    pub kind: DependencyKind,
    /// Why this dependency exists.
    pub reason: &'static str,
}

pub struct DependencyView {
    pub target_id: Seq<char>,
    pub kind: DependencyKind,
    pub reason: Seq<char>,
}

impl View for CapabilityDependency {
    type V = DependencyView;

    open spec fn view(&self) -> DependencyView {
        DependencyView { target_id: self.target_id@, kind: self.kind, reason: self.reason@ }
    }
}

/// How strongly one capability depends on another.
#[derive(Clone, Copy, Debug, PartialEq, Eq, Structural)]
pub enum DependencyKind {
    /// Hard requirement: the capability does not work without it.
    Required,
    /// Soft requirement: the capability is degraded without it.
    Optional,
    /// Enhancement: the capability gains features with it.
    Enhances,
}

impl DependencyKind {
    pub open spec fn spec_label(self) -> Seq<char> {
        match self {
            DependencyKind::Required => "required"@,
            DependencyKind::Optional => "optional"@,
            DependencyKind::Enhances => "enhances"@,
        }
    }

    pub fn label(self) -> (r: &'static str)
        ensures
            r@ == self.spec_label(),
    {
        match self {
            DependencyKind::Required => "required",
            DependencyKind::Optional => "optional",
            DependencyKind::Enhances => "enhances",
        }
    }
}

/// A node of the capability dependency graph.
#[derive(Clone, Debug)]
pub struct CapabilityNode {
    /// Capability id (matches the evidence id).
    pub id: &'static str,
    /// Human-readable label.
    pub label: &'static str,
    /// Capabilities this node depends on.
    pub depends_on: Vec<CapabilityDependency>,
    /// Category for grouping.
    pub category: CapabilityCategory,
}

pub struct NodeView {
    pub id: Seq<char>,
    pub label: Seq<char>,
    pub depends_on: Seq<DependencyView>,
    pub category: CapabilityCategory,
}

pub open spec fn dependency_views(s: Seq<CapabilityDependency>) -> Seq<DependencyView> {
    s.map_values(|d: CapabilityDependency| d@)
}

impl View for CapabilityNode {
    type V = NodeView;

    open spec fn view(&self) -> NodeView {
        NodeView {
            id: self.id@,
            label: self.label@,
            depends_on: dependency_views(self.depends_on@),
            category: self.category,
        }
    }
}

/// High-level category of a capability.
#[derive(Clone, Copy, Debug, PartialEq, Eq, Structural)]
pub enum CapabilityCategory {
    /// Kernel configuration options.
    Config,
    /// Kernel infrastructure (kallsyms, modules, BTF).
    Infrastructure,
    /// Tracing and debugging frameworks.
    Tracing,
    /// Security features.
    Security,
    /// Userspace toolchain.
    Toolchain,
    /// Build environment.
    BuildEnv,
    /// Capability of the zenvecha kernel module.
    KernelModule,
}

impl CapabilityCategory {
    pub open spec fn spec_label(self) -> Seq<char> {
        match self {
            CapabilityCategory::Config => "config"@,
            CapabilityCategory::Infrastructure => "infrastructure"@,
            CapabilityCategory::Tracing => "tracing"@,
            CapabilityCategory::Security => "security"@,
            CapabilityCategory::Toolchain => "toolchain"@,
            CapabilityCategory::BuildEnv => "build_env"@,
            CapabilityCategory::KernelModule => "kernel_module"@,
        }
    }

    pub fn label(self) -> (r: &'static str)
        ensures
            r@ == self.spec_label(),
    {
        match self {
            CapabilityCategory::Config => "config",
            CapabilityCategory::Infrastructure => "infrastructure",
            CapabilityCategory::Tracing => "tracing",
            CapabilityCategory::Security => "security",
            CapabilityCategory::Toolchain => "toolchain",
            CapabilityCategory::BuildEnv => "build_env",
            CapabilityCategory::KernelModule => "kernel_module",
        }
    }
}

/// The capability dependency graph. Built once by [`CapabilityGraph::known`]
/// and immutable afterwards.
#[derive(Clone, Debug)]
pub struct CapabilityGraph {
    nodes: Vec<CapabilityNode>,
}

pub open spec fn node_views(s: Seq<CapabilityNode>) -> Seq<NodeView> {
    s.map_values(|n: CapabilityNode| n@)
}

pub open spec fn node_ref_views(s: Seq<&CapabilityNode>) -> Seq<NodeView> {
    s.map_values(|n: &CapabilityNode| n@)
}

pub open spec fn dependency_ref_views(s: Seq<&CapabilityDependency>) -> Seq<DependencyView> {
    s.map_values(|d: &CapabilityDependency| d@)
}

impl View for CapabilityGraph {
    type V = Seq<NodeView>;

    closed spec fn view(&self) -> Seq<NodeView> {
        node_views(self.nodes@)
    }
}

// ============================================================================
//  Mathematical model of lookups and reachability
// ============================================================================

/// Index of the first node with id `id`.
pub open spec fn node_index(g: Seq<NodeView>, id: Seq<char>) -> Option<int>
    decreases g.len(),
{
    if g.len() == 0 {
        None
    } else if g[0].id == id {
        Some(0)
    } else {
        match node_index(g.drop_first(), id) {
            Some(i) => Some(i + 1),
            None => None,
        }
    }
}

/// The node a lookup of `id` finds: the first with that id.
pub open spec fn lookup(g: Seq<NodeView>, id: Seq<char>) -> Option<NodeView> {
    match node_index(g, id) {
        Some(i) => Some(g[i]),
        None => None,
    }
}

pub open spec fn is_node(g: Seq<NodeView>, id: Seq<char>) -> bool {
    node_index(g, id) is Some
}

/// The ids that node `id` depends on, in declaration order (none for an
/// unknown id).
pub open spec fn dep_ids(g: Seq<NodeView>, id: Seq<char>) -> Seq<Seq<char>> {
    match lookup(g, id) {
        Some(n) => n.depends_on.map_values(|d: DependencyView| d.target_id),
        None => seq![],
    }
}

/// `b` can be reached from the node `a` along at most `n` dependency edges.
pub open spec fn reaches(g: Seq<NodeView>, a: Seq<char>, b: Seq<char>, n: nat) -> bool
    decreases n,
{
    if n == 0 {
        a == b && is_node(g, a)
    } else {
        reaches(g, a, b, (n - 1) as nat) || (is_node(g, a) && exists|k: int|
            0 <= k < dep_ids(g, a).len() && reaches(g, #[trigger] dep_ids(g, a)[k], b, (n - 1) as nat))
    }
}

/// The node `b` is `a` itself or something `a` depends on, directly or not.
pub open spec fn reachable(g: Seq<NodeView>, a: Seq<char>, b: Seq<char>) -> bool {
    exists|n: nat| #[trigger] reaches(g, a, b, n)
}

pub proof fn lemma_node_index(g: Seq<NodeView>, id: Seq<char>)
    ensures
        node_index(g, id) matches Some(i) ==> 0 <= i < g.len() && g[i].id == id && forall|j: int|
            0 <= j < i ==> #[trigger] g[j].id != id,
        node_index(g, id) is None ==> forall|j: int| 0 <= j < g.len() ==> #[trigger] g[j].id != id,
    decreases g.len(),
{
    if g.len() > 0 {
        lemma_node_index(g.drop_first(), id);
        assert forall|j: int| 1 <= j < g.len() implies #[trigger] g[j].id == g.drop_first()[j - 1].id by {}
    }
}

proof fn lemma_reaches_nodes(g: Seq<NodeView>, a: Seq<char>, b: Seq<char>, n: nat)
    requires
        reaches(g, a, b, n),
    ensures
        is_node(g, a),
        is_node(g, b),
    decreases n,
{
    if n > 0 {
        if reaches(g, a, b, (n - 1) as nat) {
            lemma_reaches_nodes(g, a, b, (n - 1) as nat);
        } else {
            let k = choose|k: int|
                0 <= k < dep_ids(g, a).len() && reaches(g, #[trigger] dep_ids(g, a)[k], b, (n - 1) as nat);
            lemma_reaches_nodes(g, dep_ids(g, a)[k], b, (n - 1) as nat);
        }
    }
}

/// A path to `v` extends by one edge to a dependency of `v`.
proof fn lemma_reaches_extend(g: Seq<NodeView>, a: Seq<char>, v: Seq<char>, k: int, n: nat)
    requires
        reaches(g, a, v, n),
        0 <= k < dep_ids(g, v).len(),
        is_node(g, dep_ids(g, v)[k]),
    ensures
        reaches(g, a, dep_ids(g, v)[k], n + 1),
    decreases n,
{
    let t = dep_ids(g, v)[k];
    lemma_reaches_nodes(g, a, v, n);
    if n == 0 {
        assert(reaches(g, t, t, 0));
        assert(reaches(g, dep_ids(g, a)[k], t, 0));
    } else if reaches(g, a, v, (n - 1) as nat) {
        lemma_reaches_extend(g, a, v, k, (n - 1) as nat);
    } else {
        let j = choose|j: int|
            0 <= j < dep_ids(g, a).len() && reaches(g, #[trigger] dep_ids(g, a)[j], v, (n - 1) as nat);
        lemma_reaches_extend(g, dep_ids(g, a)[j], v, k, (n - 1) as nat);
        assert(reaches(g, dep_ids(g, a)[j], t, n));
    }
}

/// Every node dependency of a member of `s` is a member of `s`.
pub open spec fn closed_under_deps(g: Seq<NodeView>, s: Seq<Seq<char>>) -> bool {
    forall|i: int, k: int|
        0 <= i < s.len() && 0 <= k < dep_ids(g, s[i]).len() && is_node(
            g,
            #[trigger] dep_ids(g, s[i])[k],
        ) ==> s.contains(dep_ids(g, s[i])[k])
}

/// A set closed under dependencies holds everything reachable from its
/// members.
proof fn lemma_closed_holds_reachable(
    g: Seq<NodeView>,
    s: Seq<Seq<char>>,
    a: Seq<char>,
    b: Seq<char>,
    n: nat,
)
    requires
        closed_under_deps(g, s),
        s.contains(a),
        reaches(g, a, b, n),
    ensures
        s.contains(b),
    decreases n,
{
    if n > 0 {
        if reaches(g, a, b, (n - 1) as nat) {
            lemma_closed_holds_reachable(g, s, a, b, (n - 1) as nat);
        } else {
            let k = choose|k: int|
                0 <= k < dep_ids(g, a).len() && reaches(g, #[trigger] dep_ids(g, a)[k], b, (n - 1) as nat);
            lemma_reaches_nodes(g, dep_ids(g, a)[k], b, (n - 1) as nat);
            let i = choose|i: int| 0 <= i < s.len() && s[i] == a;
            assert(s.contains(dep_ids(g, s[i])[k]));
            lemma_closed_holds_reachable(g, s, dep_ids(g, a)[k], b, (n - 1) as nat);
        }
    }
}

// ============================================================================
//  The dependency walk
// ============================================================================

/// The dependencies pushed on the walk's stack: not yet visited, last
/// declared pushed first, so that the first declared is taken first.
pub open spec fn stacked(deps: Seq<Seq<char>>, visited: Seq<Seq<char>>) -> Seq<Seq<char>>
    decreases deps.len(),
{
    if deps.len() == 0 {
        seq![]
    } else {
        cond_seq(!visited.contains(deps.last()), deps.last()) + stacked(deps.drop_last(), visited)
    }
}

/// Number of nodes whose id is not visited.
pub open spec fn unvisited(g: Seq<NodeView>, visited: Seq<Seq<char>>) -> nat
    decreases g.len(),
{
    if g.len() == 0 {
        0
    } else {
        unvisited(g.drop_last(), visited) + (if visited.contains(g.last().id) {
            0nat
        } else {
            1nat
        })
    }
}

pub proof fn lemma_unvisited_drops(g: Seq<NodeView>, visited: Seq<Seq<char>>, x: Seq<char>)
    ensures
        unvisited(g, visited.push(x)) <= unvisited(g, visited),
        !visited.contains(x) && is_node(g, x) ==> unvisited(g, visited.push(x)) < unvisited(
            g,
            visited,
        ),
    decreases g.len(),
{
    if g.len() > 0 {
        lemma_unvisited_drops(g.drop_last(), visited, x);
        let y = g.last().id;
        if visited.contains(y) {
            let i = choose|i: int| 0 <= i < visited.len() && visited[i] == y;
            assert(visited.push(x)[i] == y);
        }
        if y == x {
            assert(visited.push(x)[visited.len() as int] == y);
        }
        if is_node(g, x) && g.last().id != x {
            lemma_node_index(g, x);
            lemma_node_index(g.drop_last(), x);
            let k = node_index(g, x)->0;
            assert(g.drop_last()[k].id == x);
        }
    }
}

/// Depth-first walk: take the top of the stack; skip it when visited or
/// unknown, otherwise visit it and stack its unvisited dependencies.
pub open spec fn walk(g: Seq<NodeView>, stack: Seq<Seq<char>>, visited: Seq<Seq<char>>) -> Seq<
    Seq<char>,
>
    decreases unvisited(g, visited), stack.len(),
{
    if stack.len() == 0 {
        visited
    } else {
        let cur = stack.last();
        let rest = stack.drop_last();
        if visited.contains(cur) || !is_node(g, cur) {
            walk(g, rest, visited)
        } else {
            let seen = visited.push(cur);
            proof {
                lemma_unvisited_drops(g, visited, cur);
            }
            walk(g, rest + stacked(dep_ids(g, cur), seen), seen)
        }
    }
}

/// The nodes found for `ids`, in order, unknown ids left out.
pub open spec fn lookup_all(g: Seq<NodeView>, ids: Seq<Seq<char>>) -> Seq<NodeView>
    decreases ids.len(),
{
    if ids.len() == 0 {
        seq![]
    } else {
        lookup_all(g, ids.drop_last()) + match lookup(g, ids.last()) {
            Some(n) => seq![n],
            None => seq![],
        }
    }
}

/// The dependency chain of `id`: the walk's visit order, reversed, as nodes.
pub open spec fn chain_of(g: Seq<NodeView>, id: Seq<char>) -> Seq<NodeView> {
    lookup_all(g, walk(g, seq![id], seq![]).reverse())
}

/// Whether node `n` declares a dependency on `id`.
pub open spec fn depends_on_id(n: NodeView, id: Seq<char>) -> bool {
    exists|k: int| 0 <= k < n.depends_on.len() && #[trigger] n.depends_on[k].target_id == id
}

pub open spec fn depends_on_pred(id: Seq<char>) -> spec_fn(NodeView) -> bool {
    |n: NodeView| depends_on_id(n, id)
}

// ============================================================================
//  Queries
// ============================================================================

pub open spec fn opt_node_view(o: Option<&CapabilityNode>) -> Option<NodeView> {
    match o {
        Some(n) => Some(n@),
        None => None,
    }
}

/// The target ids of a list of dependencies.
pub open spec fn target_ids(deps: Seq<DependencyView>) -> Seq<Seq<char>> {
    deps.map_values(|d: DependencyView| d.target_id)
}

/// `s` is the requested id or a dependency of a visited node.
pub open spec fn pending_ok(g: Seq<NodeView>, visited: Seq<Seq<char>>, id: Seq<char>, s: Seq<char>) -> bool {
    s == id || exists|v: int, k: int|
        0 <= v < visited.len() && 0 <= k < dep_ids(g, visited[v]).len() && #[trigger] dep_ids(
            g,
            visited[v],
        )[k] == s
}

/// Every node dependency of a visited node is visited or still stacked.
pub open spec fn deps_accounted(g: Seq<NodeView>, visited: Seq<Seq<char>>, stack: Seq<Seq<char>>) -> bool {
    forall|v: int, k: int|
        0 <= v < visited.len() && 0 <= k < dep_ids(g, visited[v]).len() ==> visited.contains(
            #[trigger] dep_ids(g, visited[v])[k],
        ) || stack.contains(dep_ids(g, visited[v])[k]) || !is_node(g, dep_ids(g, visited[v])[k])
}

/// Every visited id is a node reachable from `id`.
pub open spec fn visited_reachable(g: Seq<NodeView>, visited: Seq<Seq<char>>, id: Seq<char>) -> bool {
    forall|i: int|
        0 <= i < visited.len() ==> is_node(g, #[trigger] visited[i]) && reachable(g, id, visited[i])
}

/// The id visited at index `i` was found as a dependency of an id visited
/// before it.
pub open spec fn found_before(g: Seq<NodeView>, visited: Seq<Seq<char>>, i: int) -> bool {
    exists|v: int| 0 <= v < i && #[trigger] dep_ids(g, visited[v]).contains(visited[i])
}

/// Every visited id but the first was found as a dependency of an id
/// visited before it.
pub open spec fn discovered_in_order(g: Seq<NodeView>, visited: Seq<Seq<char>>) -> bool {
    forall|i: int| 0 < i < visited.len() ==> #[trigger] found_before(g, visited, i)
}

proof fn lemma_discovered_push(g: Seq<NodeView>, vi: Seq<Seq<char>>, id: Seq<char>, cur: Seq<char>)
    requires
        discovered_in_order(g, vi),
        vi.len() > 0 ==> vi[0] == id,
        !vi.contains(cur),
        pending_ok(g, vi, id, cur),
    ensures
        discovered_in_order(g, vi.push(cur)),
{
    let seen = vi.push(cur);
    assert forall|i: int| 0 < i < seen.len() implies #[trigger] found_before(g, seen, i) by {
        if i < vi.len() {
            assert(found_before(g, vi, i));
            let v = choose|v: int| 0 <= v < i && #[trigger] dep_ids(g, vi[v]).contains(vi[i]);
            assert(seen[v] == vi[v] && seen[i] == vi[i]);
            assert(dep_ids(g, seen[v]).contains(seen[i]));
        } else {
            assert(vi[0] == id);
            assert(cur != id);
            let (v, k) = choose|v: int, k: int|
                0 <= v < vi.len() && 0 <= k < dep_ids(g, vi[v]).len() && #[trigger] dep_ids(
                    g,
                    vi[v],
                )[k] == cur;
            assert(seen[v] == vi[v]);
            assert(dep_ids(g, seen[v])[k] == seen[i]);
            assert(dep_ids(g, seen[v]).contains(seen[i]));
        }
    }
}

/// The node at index `j` of a chain is a dependency of a node after it.
pub open spec fn needed_later(g: Seq<NodeView>, chain: Seq<NodeView>, j: int) -> bool {
    exists|j2: int| j < j2 < chain.len() && #[trigger] dep_ids(g, chain[j2].id).contains(chain[j].id)
}

/// In the reversed visit order, every id but the last is a dependency of
/// an id after it.
proof fn lemma_chain_discovered(g: Seq<NodeView>, vi: Seq<Seq<char>>, chain: Seq<NodeView>)
    requires
        discovered_in_order(g, vi),
        chain.len() == vi.len(),
        forall|j: int| 0 <= j < chain.len() ==> (#[trigger] chain[j]).id == vi[vi.len() - 1 - j],
    ensures
        forall|j: int| 0 <= j < chain.len() - 1 ==> #[trigger] needed_later(g, chain, j),
{
    assert forall|j: int| 0 <= j < chain.len() - 1 implies #[trigger] needed_later(g, chain, j) by {
        let i = vi.len() - 1 - j;
        assert(chain[j].id == vi[i]);
        assert(found_before(g, vi, i));
        let v = choose|v: int| 0 <= v < i && #[trigger] dep_ids(g, vi[v]).contains(vi[i]);
        let j2 = vi.len() - 1 - v;
        assert(chain[j2].id == vi[v]);
        assert(dep_ids(g, chain[j2].id).contains(chain[j].id));
    }
}

pub open spec fn distinct(s: Seq<Seq<char>>) -> bool {
    forall|i: int, j: int| 0 <= i < j < s.len() ==> #[trigger] s[i] != #[trigger] s[j]
}

proof fn lemma_stacked(deps: Seq<Seq<char>>, seen: Seq<Seq<char>>)
    ensures
        forall|i: int|
            #![trigger stacked(deps, seen)[i]]
            0 <= i < stacked(deps, seen).len() ==> exists|k: int|
                0 <= k < deps.len() && #[trigger] deps[k] == stacked(deps, seen)[i],
        forall|k: int|
            0 <= k < deps.len() ==> seen.contains(#[trigger] deps[k]) || stacked(
                deps,
                seen,
            ).contains(deps[k]),
    decreases deps.len(),
{
    if deps.len() > 0 {
        let init = deps.drop_last();
        let last = deps.last();
        lemma_stacked(init, seen);
        let c = cond_seq(!seen.contains(last), last);
        let s = stacked(deps, seen);
        assert(s == c + stacked(init, seen));
        assert forall|i: int| #![trigger s[i]] 0 <= i < s.len() implies exists|k: int|
            0 <= k < deps.len() && #[trigger] deps[k] == s[i] by {
            if i < c.len() {
                assert(deps[deps.len() - 1] == s[i]);
            } else {
                let k = choose|k: int|
                    0 <= k < init.len() && #[trigger] init[k] == stacked(init, seen)[i - c.len()];
                assert(deps[k] == s[i]);
            }
        }
        assert forall|k: int| 0 <= k < deps.len() implies seen.contains(#[trigger] deps[k])
            || s.contains(deps[k]) by {
            if k == deps.len() - 1 {
                if !seen.contains(last) {
                    assert(s[0] == last);
                }
            } else {
                assert(init[k] == deps[k]);
                if stacked(init, seen).contains(init[k]) {
                    let j = choose|j: int|
                        0 <= j < stacked(init, seen).len() && stacked(init, seen)[j] == init[k];
                    assert(s[c.len() + j] == deps[k]);
                }
            }
        }
    }
}

proof fn lemma_visit_reachable(g: Seq<NodeView>, visited: Seq<Seq<char>>, id: Seq<char>, cur: Seq<char>)
    requires
        visited_reachable(g, visited, id),
        pending_ok(g, visited, id, cur),
        is_node(g, cur),
    ensures
        reachable(g, id, cur),
{
    if cur == id {
        assert(reaches(g, id, cur, 0));
    } else {
        let (v, k) = choose|v: int, k: int|
            0 <= v < visited.len() && 0 <= k < dep_ids(g, visited[v]).len() && #[trigger] dep_ids(
                g,
                visited[v],
            )[k] == cur;
        assert(reachable(g, id, visited[v]));
        let n = choose|n: nat| #[trigger] reaches(g, id, visited[v], n);
        lemma_reaches_extend(g, id, visited[v], k, n);
        assert(reaches(g, id, cur, n + 1));
    }
}

fn contains_id(ids: &Vec<&str>, x: &str) -> (r: bool)
    ensures
        r == views(ids@).contains(x@),
{
    let mut i: usize = 0;
    while i < ids.len()
        invariant
            i <= ids@.len(),
            forall|j: int| 0 <= j < i ==> views(ids@)[j] != x@,
        decreases ids@.len() - i,
    {
        if str_eq(ids[i], x) {
            assert(views(ids@)[i as int] == x@);
            return true;
        }
        i += 1;
    }
    false
}

/// Stacks the unvisited dependencies, last declared first.
fn push_pending<'a>(stack: &mut Vec<&'a str>, deps: &Vec<CapabilityDependency>, visited: &Vec<&str>)
    ensures
        views(final(stack)@) == views(old(stack)@) + stacked(
            target_ids(dependency_views(deps@)),
            views(visited@),
        ),
{
    let ghost dv = target_ids(dependency_views(deps@));
    let ghost seen = views(visited@);
    let ghost start = views(stack@);
    let mut j = deps.len();
    assert(dv.take(j as int) =~= dv);
    assert(start + stacked(dv, seen) == start + stacked(dv.take(j as int), seen));
    while j > 0
        invariant
            j <= deps@.len(),
            dv == target_ids(dependency_views(deps@)),
            seen == views(visited@),
            views(stack@) + stacked(dv.take(j as int), seen) == start + stacked(dv, seen),
        decreases j,
    {
        let ghost before = views(stack@);
        let ghost t = dv.take(j as int);
        assert(t.drop_last() =~= dv.take(j - 1));
        assert(t.last() == deps@[j - 1].target_id@);
        let target = deps[j - 1].target_id;
        let c = !contains_id(visited, target);
        if c {
            stack.push(target);
        }
        assert(views(stack@) =~= before + cond_seq(c, target@));
        proof {
            lemma_concat_associative(before, cond_seq(c, target@), stacked(dv.take(j - 1), seen));
        }
        j -= 1;
    }
    assert(views(stack@) + stacked(dv.take(0), seen) =~= views(stack@));
}

fn declares_dependency(n: &CapabilityNode, id: &str) -> (r: bool)
    ensures
        r == depends_on_id(n@, id@),
{
    let mut k: usize = 0;
    while k < n.depends_on.len()
        invariant
            k <= n.depends_on@.len(),
            forall|j: int| 0 <= j < k ==> #[trigger] n@.depends_on[j].target_id != id@,
        decreases n.depends_on@.len() - k,
    {
        if str_eq(n.depends_on[k].target_id, id) {
            assert(n@.depends_on[k as int].target_id == id@);
            return true;
        }
        k += 1;
    }
    false
}

/// The dependencies and the dependents of the graph agree: the node that a
/// lookup of `a` finds is among the dependents of `b` exactly when `b` is
/// among the dependency ids of `a`.
pub proof fn lemma_dependents_match_dependencies(g: Seq<NodeView>, a: Seq<char>, b: Seq<char>)
    requires
        is_node(g, a),
    ensures
        dep_ids(g, a).contains(b) <==> g.filter(depends_on_pred(b)).contains(lookup(g, a)->0),
{
    lemma_node_index(g, a);
    let i = node_index(g, a)->0;
    let n = g[i];
    let ids = dep_ids(g, a);
    if ids.contains(b) {
        let k = choose|k: int| 0 <= k < ids.len() && ids[k] == b;
        assert(n.depends_on[k].target_id == b);
        assert(depends_on_pred(b)(g[i]));
        g.lemma_filter_contains(depends_on_pred(b), i);
    }
    if g.filter(depends_on_pred(b)).contains(n) {
        let j = choose|j: int| 0 <= j < g.filter(depends_on_pred(b)).len() && g.filter(depends_on_pred(b))[j] == n;
        g.lemma_filter_pred(depends_on_pred(b), j);
        assert(depends_on_id(n, b));
        let k = choose|k: int| 0 <= k < n.depends_on.len() && #[trigger] n.depends_on[k].target_id == b;
        assert(ids[k] == b);
    }
}

impl CapabilityGraph {
    /// Finds the node with capability id `id`.
    pub fn node(&self, id: &str) -> (r: Option<&CapabilityNode>)
        ensures
            opt_node_view(r) == lookup(self@, id@),
    {
        let ghost g = self@;
        let mut i: usize = 0;
        while i < self.nodes.len()
            invariant
                i <= self.nodes@.len(),
                g == node_views(self.nodes@),
                forall|j: int| 0 <= j < i ==> #[trigger] g[j].id != id@,
            decreases self.nodes@.len() - i,
        {
            assert(g[i as int] == self.nodes@[i as int]@);
            if str_eq(self.nodes[i].id, id) {
                proof {
                    lemma_node_index(g, id@);
                    assert(g[i as int].id == id@);
                    match node_index(g, id@) {
                        Some(k) => {
                            if k > i {
                                assert(g[i as int].id != id@);
                            }
                        },
                        None => {
                            assert(g[i as int].id != id@);
                        },
                    }
                    assert(node_index(g, id@) == Some(i as int));
                }
                return Some(&self.nodes[i]);
            }
            i += 1;
        }
        proof {
            lemma_node_index(g, id@);
        }
        None
    }

    /// The dependencies of `id`, in declaration order (none for an unknown id).
    pub fn dependencies_of(&self, id: &str) -> (r: Vec<&CapabilityDependency>)
        ensures
            dependency_ref_views(r@) == match lookup(self@, id@) {
                Some(n) => n.depends_on,
                None => seq![],
            },
    {
        let mut r: Vec<&CapabilityDependency> = Vec::new();
        match self.node(id) {
            Some(n) => {
                let mut i: usize = 0;
                while i < n.depends_on.len()
                    invariant
                        i <= n.depends_on@.len(),
                        dependency_ref_views(r@) == dependency_views(n.depends_on@).take(i as int),
                    decreases n.depends_on@.len() - i,
                {
                    let ghost before = dependency_ref_views(r@);
                    r.push(&n.depends_on[i]);
                    assert(dependency_ref_views(r@) =~= before.push(n.depends_on@[i as int]@));
                    assert(dependency_views(n.depends_on@).take(i + 1) =~= dependency_views(
                        n.depends_on@,
                    ).take(i as int).push(n.depends_on@[i as int]@));
                    i += 1;
                }
                assert(dependency_views(n.depends_on@).take(n.depends_on@.len() as int)
                    =~= dependency_views(n.depends_on@));
            },
            None => {},
        }
        r
    }

    /// The nodes that declare a dependency on `id`, in graph order.
    pub fn dependents_of(&self, id: &str) -> (r: Vec<&CapabilityNode>)
        ensures
            node_ref_views(r@) == self@.filter(depends_on_pred(id@)),
    {
        let ghost g = self@;
        let mut r: Vec<&CapabilityNode> = Vec::new();
        let mut i: usize = 0;
        while i < self.nodes.len()
            invariant
                i <= self.nodes@.len(),
                g == node_views(self.nodes@),
                node_ref_views(r@) == g.take(i as int).filter(depends_on_pred(id@)),
            decreases self.nodes@.len() - i,
        {
            let n = &self.nodes[i];
            let found = declares_dependency(n, id);
            assert(found == depends_on_id(n@, id@));
            let ghost prev = g.take(i as int);
            assert(g.take(i + 1) =~= prev.push(n@));
            proof {
                prev.lemma_filter_push(n@, depends_on_pred(id@));
            }
            if found {
                let ghost before = node_ref_views(r@);
                r.push(n);
                assert(node_ref_views(r@) =~= before.push(n@));
            }
            i += 1;
        }
        assert(g.take(g.len() as int) =~= g);
        r
    }
}

proof fn lemma_chain_prerequisites(id: Seq<char>, r: Seq<&CapabilityNode>)
    requires
        forall|k: int| 0 <= k < r.len() ==> reachable(known_nodes(), id, (#[trigger] r[k]).id@),
        forall|i: int, j: int| 0 <= i < j < r.len() ==> (#[trigger] r[i]).id@ != (#[trigger] r[j]).id@,
        r.len() > 0 ==> r.last().id@ == id,
        forall|j: int| 0 <= j < r.len() - 1 ==> #[trigger] needed_later(known_nodes(), node_ref_views(r), j),
    ensures
        prerequisites_first(known_nodes(), node_ref_views(r)),
{
    let c = node_ref_views(r);
    assert forall|k: int| 0 <= k < c.len() implies reachable(known_nodes(), id, (#[trigger] c[k]).id) by {
        assert(c[k].id == r[k].id@);
    }
    assert forall|i: int, j: int| 0 <= i < j < c.len() implies (#[trigger] c[i]).id != (#[trigger] c[j]).id by {
        assert(c[i].id == r[i].id@ && c[j].id == r[j].id@);
    }
    if c.len() > 0 {
        assert(c.last().id == r.last().id@);
    }
    lemma_known_chain_prerequisites_first(id, c);
}

impl CapabilityGraph {
    /// Walks the full dependency chain of `id`: every capability it needs,
    /// directly or not, each once, with `id` itself last and every other
    /// one a dependency of some capability after it. On the known graph the
    /// chain is in topological order: prerequisites first.
    pub fn dependency_chain(&self, id: &str) -> (r: Vec<&CapabilityNode>)
        ensures
            node_ref_views(r@) == chain_of(self@, id@),
            forall|k: int| 0 <= k < r@.len() ==> reachable(self@, id@, (#[trigger] r@[k]).id@),
            forall|x: Seq<char>|
                reachable(self@, id@, x) ==> exists|k: int|
                    0 <= k < r@.len() && (#[trigger] r@[k]).id@ == x,
            forall|i: int, j: int|
                0 <= i < j < r@.len() ==> (#[trigger] r@[i]).id@ != (#[trigger] r@[j]).id@,
            is_node(self@, id@) ==> r@.len() > 0 && r@.last().id@ == id@,
            !is_node(self@, id@) ==> r@.len() == 0,
            forall|j: int|
                0 <= j < r@.len() - 1 ==> #[trigger] needed_later(self@, node_ref_views(r@), j),
            self@ == known_nodes() ==> prerequisites_first(self@, node_ref_views(r@)),
    {
        let ghost g = self@;
        let mut visited: Vec<&str> = Vec::new();
        let mut stack: Vec<&str> = Vec::new();
        stack.push(id);
        assert(views(stack@) =~= seq![id@]);
        assert(views(visited@) =~= Seq::<Seq<char>>::empty());
        let ghost total = walk(g, views(stack@), views(visited@));
        while stack.len() > 0
            invariant
                g == self@,
                walk(g, views(stack@), views(visited@)) == total,
                total == walk(g, seq![id@], seq![]),
                distinct(views(visited@)),
                visited_reachable(g, views(visited@), id@),
                forall|i: int|
                    0 <= i < stack@.len() ==> pending_ok(g, views(visited@), id@, #[trigger] views(stack@)[i]),
                deps_accounted(g, views(visited@), views(stack@)),
                visited@.len() == 0 ==> (views(stack@) == seq![id@] || !is_node(g, id@)),
                visited@.len() > 0 ==> views(visited@)[0] == id@,
                discovered_in_order(g, views(visited@)),
            decreases unvisited(g, views(visited@)), stack@.len(),
        {
            let ghost st = views(stack@);
            let ghost vi = views(visited@);
            let current = stack.pop().unwrap();
            let ghost rest = views(stack@);
            assert(rest =~= st.drop_last());
            assert(current@ == st.last());
            assert(pending_ok(g, vi, id@, st[st.len() - 1]));
            if contains_id(&visited, current) {
                assert forall|v: int, k: int|
                    0 <= v < vi.len() && 0 <= k < dep_ids(g, vi[v]).len() implies vi.contains(
                    #[trigger] dep_ids(g, vi[v])[k],
                ) || rest.contains(dep_ids(g, vi[v])[k]) || !is_node(g, dep_ids(g, vi[v])[k]) by {
                    let t = dep_ids(g, vi[v])[k];
                    if st.contains(t) && !vi.contains(t) {
                        let i = choose|i: int| 0 <= i < st.len() && st[i] == t;
                        assert(rest[i] == t);
                    }
                }
                assert forall|i: int| 0 <= i < stack@.len() implies pending_ok(g, vi, id@, #[trigger] views(stack@)[i]) by {
                    assert(views(stack@)[i] == st[i]);
                }
            } else {
                match self.node(current) {
                    Some(node) => {
                        proof {
                            lemma_node_index(g, current@);
                        }
                        assert(node.id@ == current@);
                        visited.push(node.id);
                        let ghost seen = views(visited@);
                        assert(seen =~= vi.push(current@));
                        proof {
                            lemma_visit_reachable(g, vi, id@, current@);
                            lemma_unvisited_drops(g, vi, current@);
                        }
                        let ghost deps = dep_ids(g, current@);
                        assert(target_ids(dependency_views(node.depends_on@)) =~= deps);
                        push_pending(&mut stack, &node.depends_on, &visited);
                        let ghost pushed = stacked(deps, seen);
                        assert(views(stack@) == rest + pushed);
                        proof {
                            lemma_stacked(deps, seen);
                        }
                        assert(walk(g, st, vi) == walk(g, rest + pushed, seen));
                        assert forall|i: int, j: int| 0 <= i < j < seen.len() implies #[trigger] seen[i]
                            != #[trigger] seen[j] by {
                            if j == vi.len() {
                                assert(vi[i] == seen[i]);
                            } else {
                                assert(vi[i] == seen[i] && vi[j] == seen[j]);
                            }
                        }
                        proof {
                            lemma_discovered_push(g, vi, id@, current@);
                        }
                        assert forall|i: int| 0 <= i < seen.len() implies is_node(g, #[trigger] seen[i])
                            && reachable(g, id@, seen[i]) by {
                            if i < vi.len() {
                                assert(vi[i] == seen[i]);
                            }
                        }
                        assert forall|i: int| 0 <= i < stack@.len() implies pending_ok(g, seen, id@, #[trigger] views(stack@)[i]) by {
                            let s = views(stack@)[i];
                            if i < rest.len() {
                                assert(s == st[i]);
                                assert(pending_ok(g, vi, id@, st[i]));
                                if s != id@ {
                                    let (v, k) = choose|v: int, k: int|
                                        0 <= v < vi.len() && 0 <= k < dep_ids(g, vi[v]).len() && #[trigger] dep_ids(g, vi[v])[k] == s;
                                    assert(seen[v] == vi[v]);
                                    assert(dep_ids(g, seen[v])[k] == s);
                                }
                            } else {
                                assert(s == pushed[i - rest.len()]);
                                let k = choose|k: int| 0 <= k < deps.len() && #[trigger] deps[k] == pushed[i - rest.len()];
                                assert(seen[vi.len() as int] == current@);
                                assert(dep_ids(g, seen[vi.len() as int])[k] == s);
                            }
                        }
                        let ghost nst = views(stack@);
                        assert forall|v: int, k: int|
                            0 <= v < seen.len() && 0 <= k < dep_ids(g, seen[v]).len() implies seen.contains(
                            #[trigger] dep_ids(g, seen[v])[k],
                        ) || nst.contains(dep_ids(g, seen[v])[k]) || !is_node(g, dep_ids(g, seen[v])[k]) by {
                            let t = dep_ids(g, seen[v])[k];
                            if v < vi.len() {
                                assert(seen[v] == vi[v]);
                                assert(dep_ids(g, vi[v])[k] == t);
                                if vi.contains(t) {
                                    let i = choose|i: int| 0 <= i < vi.len() && vi[i] == t;
                                    assert(seen[i] == t);
                                } else if st.contains(t) {
                                    let i = choose|i: int| 0 <= i < st.len() && st[i] == t;
                                    if i == st.len() - 1 {
                                        assert(seen[vi.len() as int] == t);
                                    } else {
                                        assert(nst[i] == t);
                                    }
                                }
                            } else {
                                assert(seen[v] == current@);
                                assert(deps[k] == t);
                                if pushed.contains(t) {
                                    let i = choose|i: int| 0 <= i < pushed.len() && pushed[i] == t;
                                    assert(nst[rest.len() + i] == t);
                                }
                            }
                        }
                    },
                    None => {
                        assert forall|v: int, k: int|
                            0 <= v < vi.len() && 0 <= k < dep_ids(g, vi[v]).len() implies vi.contains(
                            #[trigger] dep_ids(g, vi[v])[k],
                        ) || rest.contains(dep_ids(g, vi[v])[k]) || !is_node(g, dep_ids(g, vi[v])[k]) by {
                            let t = dep_ids(g, vi[v])[k];
                            if st.contains(t) && !vi.contains(t) && t != current@ {
                                let i = choose|i: int| 0 <= i < st.len() && st[i] == t;
                                assert(rest[i] == t);
                            }
                        }
                        assert forall|i: int| 0 <= i < stack@.len() implies pending_ok(g, vi, id@, #[trigger] views(stack@)[i]) by {
                            assert(views(stack@)[i] == st[i]);
                        }
                    },
                }
            }
        }
        let ghost vi = views(visited@);
        assert(walk(g, views(stack@), vi) == vi);
        proof {
            assert forall|i: int, k: int|
                0 <= i < vi.len() && 0 <= k < dep_ids(g, vi[i]).len() && is_node(
                    g,
                    #[trigger] dep_ids(g, vi[i])[k],
                ) implies vi.contains(dep_ids(g, vi[i])[k]) by {
                assert(!views(stack@).contains(dep_ids(g, vi[i])[k]));
            }
            if is_node(g, id@) {
                assert(vi.len() > 0);
                assert(vi[0] == id@);
            }
        }
        let mut r: Vec<&CapabilityNode> = Vec::new();
        let mut i = visited.len();
        let ghost rev = vi.reverse();
        while i > 0
            invariant
                g == self@,
                vi == views(visited@),
                rev == vi.reverse(),
                i <= visited@.len(),
                visited_reachable(g, vi, id@),
                r@.len() == vi.len() - i,
                node_ref_views(r@) == lookup_all(g, rev.take(vi.len() - i)),
                forall|j: int| 0 <= j < r@.len() ==> (#[trigger] r@[j]).id@ == vi[vi.len() - 1 - j],
            decreases i,
        {
            i -= 1;
            let ghost m = vi.len() - 1 - i;
            assert(rev.take(m + 1).drop_last() =~= rev.take(m));
            assert(rev.take(m + 1).last() == vi[i as int]);
            assert(is_node(g, vi[i as int]));
            proof {
                lemma_node_index(g, vi[i as int]);
            }
            match self.node(visited[i]) {
                Some(n) => {
                    let ghost before = node_ref_views(r@);
                    r.push(n);
                    assert(node_ref_views(r@) =~= before.push(n@));
                },
                None => {},
            }
        }
        assert(rev.take(vi.len() as int) =~= rev);
        proof {
            assert forall|k: int| 0 <= k < r@.len() implies reachable(g, id@, (#[trigger] r@[k]).id@) by {
                assert(r@[k].id@ == vi[vi.len() - 1 - k]);
            }
            assert forall|x: Seq<char>| reachable(g, id@, x) implies exists|k: int|
                0 <= k < r@.len() && (#[trigger] r@[k]).id@ == x by {
                let n = choose|n: nat| #[trigger] reaches(g, id@, x, n);
                lemma_reaches_nodes(g, id@, x, n);
                lemma_closed_holds_reachable(g, vi, id@, x, n);
                let j = choose|j: int| 0 <= j < vi.len() && vi[j] == x;
                assert(r@[vi.len() - 1 - j].id@ == x);
            }
            assert forall|a: int, b: int| 0 <= a < b < r@.len() implies (#[trigger] r@[a]).id@
                != (#[trigger] r@[b]).id@ by {
                assert(r@[a].id@ == vi[vi.len() - 1 - a]);
                assert(r@[b].id@ == vi[vi.len() - 1 - b]);
            }
            if !is_node(g, id@) && vi.len() > 0 {
                assert(reachable(g, id@, vi[0]));
                let n = choose|n: nat| #[trigger] reaches(g, id@, vi[0], n);
                lemma_reaches_nodes(g, id@, vi[0], n);
            }
            if is_node(g, id@) {
                assert(r@[r@.len() - 1].id@ == vi[0]);
            }
            let chain = node_ref_views(r@);
            assert forall|j: int| 0 <= j < chain.len() implies (#[trigger] chain[j]).id == vi[vi.len()
                - 1 - j] by {
                assert(r@[j].id@ == vi[vi.len() - 1 - j]);
            }
            lemma_chain_discovered(g, vi, chain);
            if g == known_nodes() {
                lemma_chain_prerequisites(id@, r@);
            }
        }
        r
    }
}

// ============================================================================
//  The known capability graph
// ============================================================================

pub open spec fn dep_view(kind: DependencyKind, target_id: Seq<char>, reason: Seq<char>) -> DependencyView {
    DependencyView { target_id, kind, reason }
}

pub open spec fn node_view(
    id: Seq<char>,
    label: Seq<char>,
    category: CapabilityCategory,
    depends_on: Seq<DependencyView>,
) -> NodeView {
    NodeView { id, label, depends_on, category }
}

/// Configuration options: leaves without dependencies.
pub open spec fn config_nodes() -> Seq<NodeView> {
    seq![
        node_view(
            "config.MODULES"@,
            "Module Support"@,
            CapabilityCategory::Config,
            seq![],
        ),
        node_view(
            "config.MODULE_SIG"@,
            "Module Signing"@,
            CapabilityCategory::Config,
            seq![],
        ),
        node_view(
            "config.KALLSYMS"@,
            "kallsyms"@,
            CapabilityCategory::Config,
            seq![],
        ),
        node_view(
            "config.KALLSYMS_ALL"@,
            "kallsyms All Symbols"@,
            CapabilityCategory::Config,
            seq![],
        ),
        node_view(
            "config.DEBUG_INFO_BTF"@,
            "BTF Debug Info"@,
            CapabilityCategory::Config,
            seq![],
        ),
        node_view(
            "config.BPF"@,
            "BPF Support"@,
            CapabilityCategory::Config,
            seq![],
        ),
        node_view(
            "config.RUST"@,
            "Rust for Linux"@,
            CapabilityCategory::Config,
            seq![],
        ),
        node_view(
            "config.LIVEPATCH"@,
            "Livepatch Support"@,
            CapabilityCategory::Config,
            seq![],
        ),
        node_view(
            "config.FUNCTION_TRACER"@,
            "Function Tracer"@,
            CapabilityCategory::Config,
            seq![],
        ),
        node_view(
            "config.TRACEPOINTS"@,
            "Tracepoints"@,
            CapabilityCategory::Config,
            seq![],
        ),
        node_view(
            "config.KPROBES"@,
            "kprobes"@,
            CapabilityCategory::Config,
            seq![],
        ),
        node_view(
            "config.UPROBES"@,
            "uprobes"@,
            CapabilityCategory::Config,
            seq![],
        ),
    ]
}

/// Kernel infrastructure.
pub open spec fn infrastructure_nodes() -> Seq<NodeView> {
    seq![
        node_view(
            "symbols.kallsyms"@,
            "kallsyms Available"@,
            CapabilityCategory::Infrastructure,
            seq![
                dep_view(DependencyKind::Required, "config.KALLSYMS"@, "Needs CONFIG_KALLSYMS=y"@),
            ],
        ),
        node_view(
            "symbols.kallsyms_all"@,
            "kallsyms All Symbols"@,
            CapabilityCategory::Infrastructure,
            Seq::empty().push(
                dep_view(DependencyKind::Required, "config.KALLSYMS_ALL"@, "Needs CONFIG_KALLSYMS_ALL=y"@),
            ).push(
                dep_view(DependencyKind::Required, "config.KALLSYMS"@, "kallsyms must be enabled first"@),
            ),
        ),
        node_view(
            "kernel.modules"@,
            "Module Loader"@,
            CapabilityCategory::Infrastructure,
            seq![
                dep_view(DependencyKind::Required, "config.MODULES"@, "Needs CONFIG_MODULES=y"@),
            ],
        ),
        node_view(
            "btf.available"@,
            "BTF Available"@,
            CapabilityCategory::Infrastructure,
            seq![
                dep_view(DependencyKind::Required, "config.DEBUG_INFO_BTF"@, "Needs CONFIG_DEBUG_INFO_BTF=y"@),
            ],
        ),
        node_view(
            "bpf.available"@,
            "BPF Available"@,
            CapabilityCategory::Infrastructure,
            Seq::empty().push(
                dep_view(DependencyKind::Required, "config.BPF"@, "Needs CONFIG_BPF=y"@),
            ).push(
                dep_view(DependencyKind::Enhances, "btf.available"@, "BTF enables BPF CO-RE"@),
            ),
        ),
        node_view(
            "modules.signing"@,
            "Module Signing"@,
            CapabilityCategory::Infrastructure,
            Seq::empty().push(
                dep_view(DependencyKind::Required, "config.MODULE_SIG"@, "Needs CONFIG_MODULE_SIG=y"@),
            ).push(
                dep_view(DependencyKind::Required, "config.MODULES"@, "Modules must be enabled"@),
            ),
        ),
    ]
}

/// Tracing frameworks.
pub open spec fn tracing_nodes() -> Seq<NodeView> {
    seq![
        node_view(
            "tracing.ftrace"@,
            "Function Tracer"@,
            CapabilityCategory::Tracing,
            seq![
                dep_view(DependencyKind::Required, "config.FUNCTION_TRACER"@, "Needs CONFIG_FUNCTION_TRACER=y"@),
            ],
        ),
        node_view(
            "tracing.tracepoints"@,
            "Tracepoints"@,
            CapabilityCategory::Tracing,
            seq![
                dep_view(DependencyKind::Required, "config.TRACEPOINTS"@, "Needs CONFIG_TRACEPOINTS=y"@),
            ],
        ),
        node_view(
            "tracing.kprobes"@,
            "kprobes"@,
            CapabilityCategory::Tracing,
            seq![
                dep_view(DependencyKind::Required, "config.KPROBES"@, "Needs CONFIG_KPROBES=y"@),
            ],
        ),
        node_view(
            "tracing.kretprobes"@,
            "kretprobes"@,
            CapabilityCategory::Tracing,
            seq![
                dep_view(DependencyKind::Required, "config.KPROBES"@, "Needs CONFIG_KPROBES=y for kretprobe support"@),
            ],
        ),
        node_view(
            "tracing.uprobes"@,
            "uprobes"@,
            CapabilityCategory::Tracing,
            seq![
                dep_view(DependencyKind::Required, "config.UPROBES"@, "Needs CONFIG_UPROBES=y"@),
            ],
        ),
    ]
}

/// Security features.
pub open spec fn security_nodes() -> Seq<NodeView> {
    seq![
        node_view(
            "security.livepatch"@,
            "Livepatch"@,
            CapabilityCategory::Security,
            Seq::empty().push(
                dep_view(DependencyKind::Required, "config.LIVEPATCH"@, "Needs CONFIG_LIVEPATCH=y"@),
            ).push(
                dep_view(DependencyKind::Required, "config.MODULES"@, "Livepatch uses module infrastructure"@),
            ).push(
                dep_view(DependencyKind::Required, "tracing.ftrace"@, "Livepatch uses ftrace for function redirection"@),
            ).push(
                dep_view(DependencyKind::Optional, "symbols.kallsyms_all"@, "Full kallsyms improves patch reliability"@),
            ),
        ),
    ]
}

/// Capabilities of the zenvecha kernel module.
pub open spec fn kernel_module_nodes() -> Seq<NodeView> {
    seq![
        node_view(
            "kernel.module_loaded"@,
            "Zenvecha Module"@,
            CapabilityCategory::KernelModule,
            seq![
                dep_view(DependencyKind::Required, "config.MODULES"@, "Kernel module loader must be enabled"@),
            ],
        ),
        node_view(
            "kernel.symbols.total"@,
            "Symbol Discovery"@,
            CapabilityCategory::KernelModule,
            Seq::empty().push(
                dep_view(DependencyKind::Required, "kernel.module_loaded"@, "Requires Zenvecha kernel module"@),
            ).push(
                dep_view(DependencyKind::Required, "config.KALLSYMS"@, "Symbol iteration needs kallsyms"@),
            ),
        ),
        node_view(
            "kernel.btf.module"@,
            "BTF Discovery"@,
            CapabilityCategory::KernelModule,
            Seq::empty().push(
                dep_view(DependencyKind::Required, "kernel.module_loaded"@, "Requires Zenvecha kernel module"@),
            ).push(
                dep_view(DependencyKind::Required, "btf.available"@, "BTF vmlinux must be available"@),
            ),
        ),
        node_view(
            "kernel.tracing.ftrace"@,
            "ftrace Discovery"@,
            CapabilityCategory::KernelModule,
            Seq::empty().push(
                dep_view(DependencyKind::Required, "kernel.module_loaded"@, "Requires Zenvecha kernel module"@),
            ).push(
                dep_view(DependencyKind::Required, "tracing.ftrace"@, "ftrace infrastructure must be available"@),
            ),
        ),
        node_view(
            "kernel.tracing.kprobes"@,
            "kprobes Discovery"@,
            CapabilityCategory::KernelModule,
            Seq::empty().push(
                dep_view(DependencyKind::Required, "kernel.module_loaded"@, "Requires Zenvecha kernel module"@),
            ).push(
                dep_view(DependencyKind::Required, "tracing.kprobes"@, "kprobes infrastructure must be available"@),
            ),
        ),
    ]
}

/// Rust for Linux.
pub open spec fn rust_nodes() -> Seq<NodeView> {
    seq![
        node_view(
            "rust.available"@,
            "Rust for Linux Available"@,
            CapabilityCategory::Toolchain,
            seq![
                dep_view(DependencyKind::Required, "config.RUST"@, "Needs CONFIG_RUST=y"@),
            ],
        ),
        node_view(
            "rust.bindgen"@,
            "bindgen Available"@,
            CapabilityCategory::Toolchain,
            seq![
                dep_view(DependencyKind::Optional, "rust.available"@, "bindgen is most useful with Rust support"@),
            ],
        ),
    ]
}

/// Build environment.
pub open spec fn build_env_nodes() -> Seq<NodeView> {
    seq![
        node_view(
            "build.headers"@,
            "Kernel Headers"@,
            CapabilityCategory::BuildEnv,
            seq![],
        ),
        node_view(
            "build.toolchain.gcc"@,
            "C Compiler"@,
            CapabilityCategory::BuildEnv,
            seq![],
        ),
        node_view(
            "build.toolchain.rustc"@,
            "Rust Compiler"@,
            CapabilityCategory::BuildEnv,
            seq![
                dep_view(DependencyKind::Enhances, "rust.available"@, "Rust compiler enables Rust module builds"@),
            ],
        ),
    ]
}

/// The declared capabilities, in declaration order.
pub open spec fn known_nodes() -> Seq<NodeView> {
    config_nodes() + infrastructure_nodes() + tracing_nodes() + security_nodes()
        + kernel_module_nodes() + rust_nodes() + build_env_nodes()
}

/// A node without dependencies.
fn node(id: &'static str, label: &'static str, category: CapabilityCategory) -> (r: CapabilityNode)
    ensures
        r@ == node_view(id@, label@, category, seq![]),
{
    let r = CapabilityNode { id, label, depends_on: Vec::new(), category };
    assert(r@.depends_on =~= seq![]);
    r
}

impl CapabilityNode {
    /// The node with one more dependency, declared last.
    fn dep(self, kind: DependencyKind, target_id: &'static str, reason: &'static str) -> (r: Self)
        ensures
            r@.id == self@.id,
            r@.label == self@.label,
            r@.category == self@.category,
            r@.depends_on == self@.depends_on.push(dep_view(kind, target_id@, reason@)),
    {
        let ghost before = self@;
        let mut n = self;
        n.depends_on.push(CapabilityDependency { target_id, kind, reason });
        assert(n@.depends_on =~= before.depends_on.push(dep_view(kind, target_id@, reason@)));
        n
    }

    /// The node with one more enhancing dependency.
    fn enhanced_by(self, target_id: &'static str, reason: &'static str) -> (r: Self)
        ensures
            r@.id == self@.id,
            r@.label == self@.label,
            r@.category == self@.category,
            r@.depends_on == self@.depends_on.push(
                dep_view(DependencyKind::Enhances, target_id@, reason@),
            ),
    {
        self.dep(DependencyKind::Enhances, target_id, reason)
    }
}

fn push_config_nodes(nodes: &mut Vec<CapabilityNode>)
    ensures
        node_views(final(nodes)@) == node_views(old(nodes)@) + config_nodes(),
{
    let ghost start = node_views(nodes@);
    nodes.push(node("config.MODULES", "Module Support", CapabilityCategory::Config));
    nodes.push(node("config.MODULE_SIG", "Module Signing", CapabilityCategory::Config));
    nodes.push(node("config.KALLSYMS", "kallsyms", CapabilityCategory::Config));
    nodes.push(node("config.KALLSYMS_ALL", "kallsyms All Symbols", CapabilityCategory::Config));
    nodes.push(node("config.DEBUG_INFO_BTF", "BTF Debug Info", CapabilityCategory::Config));
    nodes.push(node("config.BPF", "BPF Support", CapabilityCategory::Config));
    nodes.push(node("config.RUST", "Rust for Linux", CapabilityCategory::Config));
    nodes.push(node("config.LIVEPATCH", "Livepatch Support", CapabilityCategory::Config));
    nodes.push(node("config.FUNCTION_TRACER", "Function Tracer", CapabilityCategory::Config));
    nodes.push(node("config.TRACEPOINTS", "Tracepoints", CapabilityCategory::Config));
    nodes.push(node("config.KPROBES", "kprobes", CapabilityCategory::Config));
    nodes.push(node("config.UPROBES", "uprobes", CapabilityCategory::Config));
    assert(node_views(nodes@) =~~= start + config_nodes());
}

fn push_infrastructure_nodes(nodes: &mut Vec<CapabilityNode>)
    ensures
        node_views(final(nodes)@) == node_views(old(nodes)@) + infrastructure_nodes(),
{
    let ghost start = node_views(nodes@);
    nodes.push(node("symbols.kallsyms", "kallsyms Available", CapabilityCategory::Infrastructure).dep(DependencyKind::Required, "config.KALLSYMS", "Needs CONFIG_KALLSYMS=y"));
    nodes.push(node("symbols.kallsyms_all", "kallsyms All Symbols", CapabilityCategory::Infrastructure).dep(DependencyKind::Required, "config.KALLSYMS_ALL", "Needs CONFIG_KALLSYMS_ALL=y").dep(DependencyKind::Required, "config.KALLSYMS", "kallsyms must be enabled first"));
    nodes.push(node("kernel.modules", "Module Loader", CapabilityCategory::Infrastructure).dep(DependencyKind::Required, "config.MODULES", "Needs CONFIG_MODULES=y"));
    nodes.push(node("btf.available", "BTF Available", CapabilityCategory::Infrastructure).dep(DependencyKind::Required, "config.DEBUG_INFO_BTF", "Needs CONFIG_DEBUG_INFO_BTF=y"));
    nodes.push(node("bpf.available", "BPF Available", CapabilityCategory::Infrastructure).dep(DependencyKind::Required, "config.BPF", "Needs CONFIG_BPF=y").enhanced_by("btf.available", "BTF enables BPF CO-RE"));
    nodes.push(node("modules.signing", "Module Signing", CapabilityCategory::Infrastructure).dep(DependencyKind::Required, "config.MODULE_SIG", "Needs CONFIG_MODULE_SIG=y").dep(DependencyKind::Required, "config.MODULES", "Modules must be enabled"));
    assert(node_views(nodes@) =~~= start + infrastructure_nodes());
}

fn push_tracing_nodes(nodes: &mut Vec<CapabilityNode>)
    ensures
        node_views(final(nodes)@) == node_views(old(nodes)@) + tracing_nodes(),
{
    let ghost start = node_views(nodes@);
    nodes.push(node("tracing.ftrace", "Function Tracer", CapabilityCategory::Tracing).dep(DependencyKind::Required, "config.FUNCTION_TRACER", "Needs CONFIG_FUNCTION_TRACER=y"));
    nodes.push(node("tracing.tracepoints", "Tracepoints", CapabilityCategory::Tracing).dep(DependencyKind::Required, "config.TRACEPOINTS", "Needs CONFIG_TRACEPOINTS=y"));
    nodes.push(node("tracing.kprobes", "kprobes", CapabilityCategory::Tracing).dep(DependencyKind::Required, "config.KPROBES", "Needs CONFIG_KPROBES=y"));
    nodes.push(node("tracing.kretprobes", "kretprobes", CapabilityCategory::Tracing).dep(DependencyKind::Required, "config.KPROBES", "Needs CONFIG_KPROBES=y for kretprobe support"));
    nodes.push(node("tracing.uprobes", "uprobes", CapabilityCategory::Tracing).dep(DependencyKind::Required, "config.UPROBES", "Needs CONFIG_UPROBES=y"));
    assert(node_views(nodes@) =~~= start + tracing_nodes());
}

fn push_security_nodes(nodes: &mut Vec<CapabilityNode>)
    ensures
        node_views(final(nodes)@) == node_views(old(nodes)@) + security_nodes(),
{
    let ghost start = node_views(nodes@);
    nodes.push(node("security.livepatch", "Livepatch", CapabilityCategory::Security).dep(DependencyKind::Required, "config.LIVEPATCH", "Needs CONFIG_LIVEPATCH=y").dep(DependencyKind::Required, "config.MODULES", "Livepatch uses module infrastructure").dep(DependencyKind::Required, "tracing.ftrace", "Livepatch uses ftrace for function redirection").dep(DependencyKind::Optional, "symbols.kallsyms_all", "Full kallsyms improves patch reliability"));
    assert(node_views(nodes@) =~~= start + security_nodes());
}

fn push_kernel_module_nodes(nodes: &mut Vec<CapabilityNode>)
    ensures
        node_views(final(nodes)@) == node_views(old(nodes)@) + kernel_module_nodes(),
{
    let ghost start = node_views(nodes@);
    nodes.push(node("kernel.module_loaded", "Zenvecha Module", CapabilityCategory::KernelModule).dep(DependencyKind::Required, "config.MODULES", "Kernel module loader must be enabled"));
    nodes.push(node("kernel.symbols.total", "Symbol Discovery", CapabilityCategory::KernelModule).dep(DependencyKind::Required, "kernel.module_loaded", "Requires Zenvecha kernel module").dep(DependencyKind::Required, "config.KALLSYMS", "Symbol iteration needs kallsyms"));
    nodes.push(node("kernel.btf.module", "BTF Discovery", CapabilityCategory::KernelModule).dep(DependencyKind::Required, "kernel.module_loaded", "Requires Zenvecha kernel module").dep(DependencyKind::Required, "btf.available", "BTF vmlinux must be available"));
    nodes.push(node("kernel.tracing.ftrace", "ftrace Discovery", CapabilityCategory::KernelModule).dep(DependencyKind::Required, "kernel.module_loaded", "Requires Zenvecha kernel module").dep(DependencyKind::Required, "tracing.ftrace", "ftrace infrastructure must be available"));
    nodes.push(node("kernel.tracing.kprobes", "kprobes Discovery", CapabilityCategory::KernelModule).dep(DependencyKind::Required, "kernel.module_loaded", "Requires Zenvecha kernel module").dep(DependencyKind::Required, "tracing.kprobes", "kprobes infrastructure must be available"));
    assert(node_views(nodes@) =~~= start + kernel_module_nodes());
}

fn push_rust_nodes(nodes: &mut Vec<CapabilityNode>)
    ensures
        node_views(final(nodes)@) == node_views(old(nodes)@) + rust_nodes(),
{
    let ghost start = node_views(nodes@);
    nodes.push(node("rust.available", "Rust for Linux Available", CapabilityCategory::Toolchain).dep(DependencyKind::Required, "config.RUST", "Needs CONFIG_RUST=y"));
    nodes.push(node("rust.bindgen", "bindgen Available", CapabilityCategory::Toolchain).dep(DependencyKind::Optional, "rust.available", "bindgen is most useful with Rust support"));
    assert(node_views(nodes@) =~~= start + rust_nodes());
}

fn push_build_env_nodes(nodes: &mut Vec<CapabilityNode>)
    ensures
        node_views(final(nodes)@) == node_views(old(nodes)@) + build_env_nodes(),
{
    let ghost start = node_views(nodes@);
    nodes.push(node("build.headers", "Kernel Headers", CapabilityCategory::BuildEnv));
    nodes.push(node("build.toolchain.gcc", "C Compiler", CapabilityCategory::BuildEnv));
    nodes.push(node("build.toolchain.rustc", "Rust Compiler", CapabilityCategory::BuildEnv).enhanced_by("rust.available", "Rust compiler enables Rust module builds"));
    assert(node_views(nodes@) =~~= start + build_env_nodes());
}

/// Declares every known capability and its dependencies.
fn known_graph() -> (r: Vec<CapabilityNode>)
    ensures
        node_views(r@) == known_nodes(),
{
    let mut nodes: Vec<CapabilityNode> = Vec::new();
    push_config_nodes(&mut nodes);
    assert(node_views(nodes@) =~= config_nodes());
    push_infrastructure_nodes(&mut nodes);
    push_tracing_nodes(&mut nodes);
    push_security_nodes(&mut nodes);
    push_kernel_module_nodes(&mut nodes);
    push_rust_nodes(&mut nodes);
    push_build_env_nodes(&mut nodes);
    nodes
}

impl CapabilityGraph {
    /// The known capability graph with all declared dependencies.
    pub fn known() -> (g: Self)
        ensures
            g@ == known_nodes(),
    {
        CapabilityGraph { nodes: known_graph() }
    }

    /// All nodes of the graph.
    pub fn all_nodes(&self) -> (r: &[CapabilityNode])
        ensures
            node_views(r@) == self@,
    {
        self.nodes.as_slice()
    }

    /// Number of nodes in the graph.
    pub fn len(&self) -> (r: usize)
        ensures
            r == self@.len(),
    {
        self.nodes.len()
    }

    /// Whether the graph has no nodes.
    pub fn is_empty(&self) -> (r: bool)
        ensures
            r == (self@.len() == 0),
    {
        self.nodes.len() == 0
    }
}

} // verus!
