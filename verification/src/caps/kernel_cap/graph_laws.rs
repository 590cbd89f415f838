//! Facts of the known capability graph: how many nodes it has, that their
//! ids are distinct, that every dependency names a node declared earlier
//! (so the graph has no cycle), and that configuration options are leaves.
use crate::caps::kernel_cap::graph::{
    dep_ids, depends_on_pred, is_node, known_nodes, node_index, lemma_dependents_match_dependencies,
    lemma_node_index, lookup, needed_later, reachable, reaches, CapabilityCategory, NodeView,
};
use vstd::prelude::*;

verus! {

/// The ids of the known graph, in declaration order.
pub open spec fn known_ids() -> Seq<Seq<char>> {
    seq![
        "config.MODULES"@,
        "config.MODULE_SIG"@,
        "config.KALLSYMS"@,
        "config.KALLSYMS_ALL"@,
        "config.DEBUG_INFO_BTF"@,
        "config.BPF"@,
        "config.RUST"@,
        "config.LIVEPATCH"@,
        "config.FUNCTION_TRACER"@,
        "config.TRACEPOINTS"@,
        "config.KPROBES"@,
        "config.UPROBES"@,
        "symbols.kallsyms"@,
        "symbols.kallsyms_all"@,
        "kernel.modules"@,
        "btf.available"@,
        "bpf.available"@,
        "modules.signing"@,
        "tracing.ftrace"@,
        "tracing.tracepoints"@,
        "tracing.kprobes"@,
        "tracing.kretprobes"@,
        "tracing.uprobes"@,
        "security.livepatch"@,
        "kernel.module_loaded"@,
        "kernel.symbols.total"@,
        "kernel.btf.module"@,
        "kernel.tracing.ftrace"@,
        "kernel.tracing.kprobes"@,
        "rust.available"@,
        "rust.bindgen"@,
        "build.headers"@,
        "build.toolchain.gcc"@,
        "build.toolchain.rustc"@,
    ]
}

proof fn lemma_known_ids()
    ensures
        known_nodes().len() == 34,
        known_ids().len() == 34,
        forall|i: int| 0 <= i < 34 ==> #[trigger] known_nodes()[i].id == known_ids()[i],
{
}

proof fn lemma_known_ids_distinct()
    ensures
        forall|i: int, j: int| 0 <= i < j < 34 ==> #[trigger] known_ids()[i] != #[trigger] known_ids()[j],
{
    reveal_strlit("config.MODULES");
    reveal_strlit("config.MODULE_SIG");
    reveal_strlit("config.KALLSYMS");
    reveal_strlit("config.KALLSYMS_ALL");
    reveal_strlit("config.DEBUG_INFO_BTF");
    reveal_strlit("config.BPF");
    reveal_strlit("config.RUST");
    reveal_strlit("config.LIVEPATCH");
    reveal_strlit("config.FUNCTION_TRACER");
    reveal_strlit("config.TRACEPOINTS");
    reveal_strlit("config.KPROBES");
    reveal_strlit("config.UPROBES");
    reveal_strlit("symbols.kallsyms");
    reveal_strlit("symbols.kallsyms_all");
    reveal_strlit("kernel.modules");
    reveal_strlit("btf.available");
    reveal_strlit("bpf.available");
    reveal_strlit("modules.signing");
    reveal_strlit("tracing.ftrace");
    reveal_strlit("tracing.tracepoints");
    reveal_strlit("tracing.kprobes");
    reveal_strlit("tracing.kretprobes");
    reveal_strlit("tracing.uprobes");
    reveal_strlit("security.livepatch");
    reveal_strlit("kernel.module_loaded");
    reveal_strlit("kernel.symbols.total");
    reveal_strlit("kernel.btf.module");
    reveal_strlit("kernel.tracing.ftrace");
    reveal_strlit("kernel.tracing.kprobes");
    reveal_strlit("rust.available");
    reveal_strlit("rust.bindgen");
    reveal_strlit("build.headers");
    reveal_strlit("build.toolchain.gcc");
    reveal_strlit("build.toolchain.rustc");
    assert("config.MODULES"@.len() == 14 && "config.MODULES"@[0] == 'c' && "config.MODULES"@[7] == 'M');
    assert("config.MODULE_SIG"@.len() == 17 && "config.MODULE_SIG"@[0] == 'c');
    assert("config.KALLSYMS"@.len() == 15 && "config.KALLSYMS"@[0] == 'c');
    assert("config.KALLSYMS_ALL"@.len() == 19 && "config.KALLSYMS_ALL"@[0] == 'c');
    assert("config.DEBUG_INFO_BTF"@.len() == 21 && "config.DEBUG_INFO_BTF"@[0] == 'c');
    assert("config.BPF"@.len() == 10);
    assert("config.RUST"@.len() == 11);
    assert("config.LIVEPATCH"@.len() == 16 && "config.LIVEPATCH"@[0] == 'c');
    assert("config.FUNCTION_TRACER"@.len() == 22 && "config.FUNCTION_TRACER"@[0] == 'c');
    assert("config.TRACEPOINTS"@.len() == 18 && "config.TRACEPOINTS"@[0] == 'c');
    assert("config.KPROBES"@.len() == 14 && "config.KPROBES"@[0] == 'c' && "config.KPROBES"@[7] == 'K');
    assert("config.UPROBES"@.len() == 14 && "config.UPROBES"@[0] == 'c' && "config.UPROBES"@[7] == 'U');
    assert("symbols.kallsyms"@.len() == 16 && "symbols.kallsyms"@[0] == 's');
    assert("symbols.kallsyms_all"@.len() == 20 && "symbols.kallsyms_all"@[0] == 's');
    assert("kernel.modules"@.len() == 14 && "kernel.modules"@[0] == 'k');
    assert("btf.available"@.len() == 13 && "btf.available"@[1] == 't');
    assert("bpf.available"@.len() == 13 && "bpf.available"@[1] == 'p');
    assert("modules.signing"@.len() == 15 && "modules.signing"@[0] == 'm');
    assert("tracing.ftrace"@.len() == 14 && "tracing.ftrace"@[0] == 't');
    assert("tracing.tracepoints"@.len() == 19 && "tracing.tracepoints"@[0] == 't');
    assert("tracing.kprobes"@.len() == 15 && "tracing.kprobes"@[0] == 't' && "tracing.kprobes"@[8] == 'k');
    assert("tracing.kretprobes"@.len() == 18 && "tracing.kretprobes"@[0] == 't');
    assert("tracing.uprobes"@.len() == 15 && "tracing.uprobes"@[0] == 't' && "tracing.uprobes"@[8] == 'u');
    assert("security.livepatch"@.len() == 18 && "security.livepatch"@[0] == 's');
    assert("kernel.module_loaded"@.len() == 20 && "kernel.module_loaded"@[0] == 'k' && "kernel.module_loaded"@[7] == 'm');
    assert("kernel.symbols.total"@.len() == 20 && "kernel.symbols.total"@[0] == 'k' && "kernel.symbols.total"@[7] == 's');
    assert("kernel.btf.module"@.len() == 17 && "kernel.btf.module"@[0] == 'k');
    assert("kernel.tracing.ftrace"@.len() == 21 && "kernel.tracing.ftrace"@[0] == 'k');
    assert("kernel.tracing.kprobes"@.len() == 22 && "kernel.tracing.kprobes"@[0] == 'k');
    assert("rust.available"@.len() == 14 && "rust.available"@[0] == 'r');
    assert("rust.bindgen"@.len() == 12);
    assert("build.headers"@.len() == 13 && "build.headers"@[1] == 'u');
    assert("build.toolchain.gcc"@.len() == 19 && "build.toolchain.gcc"@[0] == 'b');
    assert("build.toolchain.rustc"@.len() == 21 && "build.toolchain.rustc"@[0] == 'b');
}

/// The ids of `g` are pairwise distinct.
pub open spec fn ids_distinct(g: Seq<NodeView>) -> bool {
    forall|i: int, j: int| 0 <= i < j < g.len() ==> #[trigger] g[i].id != #[trigger] g[j].id
}

/// Every dependency of the node at index `i` names a node declared before it.
pub open spec fn deps_declared_before(g: Seq<NodeView>, i: int) -> bool {
    forall|k: int|
        #![trigger g[i].depends_on[k]]
        0 <= k < g[i].depends_on.len() ==> exists|j: int|
            0 <= j < i && #[trigger] g[j].id == g[i].depends_on[k].target_id
}

/// Every node's dependencies are declared before it.
pub open spec fn declared_in_dependency_order(g: Seq<NodeView>) -> bool {
    forall|i: int| 0 <= i < g.len() ==> #[trigger] deps_declared_before(g, i)
}

/// The known graph is well formed: 34 nodes with distinct ids, every
/// dependency names a node declared before the one that needs it, and
/// configuration options have no dependencies.
pub proof fn lemma_known_graph_well_formed()
    ensures
        known_nodes().len() == 34,
        ids_distinct(known_nodes()),
        declared_in_dependency_order(known_nodes()),
        forall|i: int|
            0 <= i < known_nodes().len() && #[trigger] known_nodes()[i].category == CapabilityCategory::Config
                ==> known_nodes()[i].depends_on.len() == 0,
{
    let g = known_nodes();
    lemma_known_ids();
    lemma_known_ids_distinct();
    assert forall|i: int, j: int| 0 <= i < j < g.len() implies #[trigger] g[i].id != #[trigger] g[j].id by {
        assert(g[i].id == known_ids()[i] && g[j].id == known_ids()[j]);
    }
    assert forall|i: int| 0 <= i < g.len() implies #[trigger] deps_declared_before(g, i) by {
        if i == 12 {
            assert(g[2].id == g[12].depends_on[0].target_id);
        } else if i == 13 {
            assert(g[3].id == g[13].depends_on[0].target_id); assert(g[2].id == g[13].depends_on[1].target_id);
        } else if i == 14 {
            assert(g[0].id == g[14].depends_on[0].target_id);
        } else if i == 15 {
            assert(g[4].id == g[15].depends_on[0].target_id);
        } else if i == 16 {
            assert(g[5].id == g[16].depends_on[0].target_id); assert(g[15].id == g[16].depends_on[1].target_id);
        } else if i == 17 {
            assert(g[1].id == g[17].depends_on[0].target_id); assert(g[0].id == g[17].depends_on[1].target_id);
        } else if i == 18 {
            assert(g[8].id == g[18].depends_on[0].target_id);
        } else if i == 19 {
            assert(g[9].id == g[19].depends_on[0].target_id);
        } else if i == 20 {
            assert(g[10].id == g[20].depends_on[0].target_id);
        } else if i == 21 {
            assert(g[10].id == g[21].depends_on[0].target_id);
        } else if i == 22 {
            assert(g[11].id == g[22].depends_on[0].target_id);
        } else if i == 23 {
            assert(g[7].id == g[23].depends_on[0].target_id); assert(g[0].id == g[23].depends_on[1].target_id); assert(g[18].id == g[23].depends_on[2].target_id); assert(g[13].id == g[23].depends_on[3].target_id);
        } else if i == 24 {
            assert(g[0].id == g[24].depends_on[0].target_id);
        } else if i == 25 {
            assert(g[24].id == g[25].depends_on[0].target_id); assert(g[2].id == g[25].depends_on[1].target_id);
        } else if i == 26 {
            assert(g[24].id == g[26].depends_on[0].target_id); assert(g[15].id == g[26].depends_on[1].target_id);
        } else if i == 27 {
            assert(g[24].id == g[27].depends_on[0].target_id); assert(g[18].id == g[27].depends_on[1].target_id);
        } else if i == 28 {
            assert(g[24].id == g[28].depends_on[0].target_id); assert(g[20].id == g[28].depends_on[1].target_id);
        } else if i == 29 {
            assert(g[6].id == g[29].depends_on[0].target_id);
        } else if i == 30 {
            assert(g[29].id == g[30].depends_on[0].target_id);
        } else if i == 33 {
            assert(g[29].id == g[33].depends_on[0].target_id);
        } else {
            assert(g[i].depends_on.len() == 0);
        }
    }
}

/// In a graph with distinct ids, a lookup of the id at index `i` finds
/// index `i`.
pub proof fn lemma_distinct_lookup(g: Seq<NodeView>, i: int)
    requires
        ids_distinct(g),
        0 <= i < g.len(),
    ensures
        node_index(g, g[i].id) == Some(i),
        lookup(g, g[i].id) == Some(g[i]),
{
    lemma_node_index(g, g[i].id);
    match node_index(g, g[i].id) {
        Some(m) => {
            if m < i {
                assert(g[i].id != g[i].id);
            } else if m > i {
                assert(g[i].id != g[m].id);
            }
        },
        None => {
            assert(g[i].id != g[i].id);
        },
    }
}

/// Following a dependency leads to a node declared strictly earlier.
proof fn lemma_dependency_declared_earlier(g: Seq<NodeView>, a: Seq<char>, k: int)
    requires
        ids_distinct(g),
        declared_in_dependency_order(g),
        is_node(g, a),
        0 <= k < dep_ids(g, a).len(),
    ensures
        is_node(g, dep_ids(g, a)[k]),
        node_index(g, dep_ids(g, a)[k])->0 < node_index(g, a)->0,
{
    lemma_node_index(g, a);
    let ia = node_index(g, a)->0;
    assert(deps_declared_before(g, ia));
    let d = dep_ids(g, a)[k];
    assert(d == g[ia].depends_on[k].target_id);
    let j = choose|j: int| 0 <= j < ia && #[trigger] g[j].id == g[ia].depends_on[k].target_id;
    lemma_distinct_lookup(g, j);
}

proof fn lemma_reaches_declared_earlier(g: Seq<NodeView>, a: Seq<char>, b: Seq<char>, n: nat)
    requires
        ids_distinct(g),
        declared_in_dependency_order(g),
        reaches(g, a, b, n),
    ensures
        is_node(g, a),
        is_node(g, b),
        node_index(g, b)->0 <= node_index(g, a)->0,
    decreases n,
{
    if n > 0 {
        if reaches(g, a, b, (n - 1) as nat) {
            lemma_reaches_declared_earlier(g, a, b, (n - 1) as nat);
        } else {
            let k = choose|k: int|
                0 <= k < dep_ids(g, a).len() && reaches(g, #[trigger] dep_ids(g, a)[k], b, (n - 1) as nat);
            lemma_reaches_declared_earlier(g, dep_ids(g, a)[k], b, (n - 1) as nat);
            lemma_dependency_declared_earlier(g, a, k);
        }
    }
}

/// The known graph has no cycle: nothing a capability depends on leads
/// back to it.
pub proof fn lemma_known_graph_acyclic(a: Seq<char>, k: int)
    requires
        is_node(known_nodes(), a),
        0 <= k < dep_ids(known_nodes(), a).len(),
    ensures
        !reachable(known_nodes(), dep_ids(known_nodes(), a)[k], a),
{
    let g = known_nodes();
    lemma_known_graph_well_formed();
    let d = dep_ids(g, a)[k];
    lemma_dependency_declared_earlier(g, a, k);
    if reachable(g, d, a) {
        let n = choose|n: nat| #[trigger] reaches(g, d, a, n);
        lemma_reaches_declared_earlier(g, d, a, n);
    }
}

/// In the known graph, every node is among the dependents of `x` exactly
/// when `x` is among its dependency ids.
pub proof fn lemma_known_dependents_agree(i: int, x: Seq<char>)
    requires
        0 <= i < known_nodes().len(),
    ensures
        dep_ids(known_nodes(), known_nodes()[i].id).contains(x) <==> known_nodes().filter(
            depends_on_pred(x),
        ).contains(known_nodes()[i]),
{
    let g = known_nodes();
    lemma_known_graph_well_formed();
    lemma_distinct_lookup(g, i);
    lemma_dependents_match_dependencies(g, g[i].id, x);
}


/// The index of the node that dependency `k` of node `i` of the known
/// graph names (-1 where there is none).
spec fn dep_index(i: int, k: int) -> int {
    if i == 12 {
        2
    } else if i == 13 {
        if k == 0 { 3 } else { 2 }
    } else if i == 14 {
        0
    } else if i == 15 {
        4
    } else if i == 16 {
        if k == 0 { 5 } else { 15 }
    } else if i == 17 {
        if k == 0 { 1 } else { 0 }
    } else if i == 18 {
        8
    } else if i == 19 {
        9
    } else if i == 20 {
        10
    } else if i == 21 {
        10
    } else if i == 22 {
        11
    } else if i == 23 {
        if k == 0 { 7 } else { if k == 1 { 0 } else { if k == 2 { 18 } else { 13 } } }
    } else if i == 24 {
        0
    } else if i == 25 {
        if k == 0 { 24 } else { 2 }
    } else if i == 26 {
        if k == 0 { 24 } else { 15 }
    } else if i == 27 {
        if k == 0 { 24 } else { 18 }
    } else if i == 28 {
        if k == 0 { 24 } else { 20 }
    } else if i == 29 {
        6
    } else if i == 30 {
        29
    } else if i == 33 {
        29
    } else {
        -1
    }
}

/// The number of dependencies of node `i` of the known graph.
spec fn dep_count(i: int) -> int {
    if i == 12 {
        1
    } else if i == 13 {
        2
    } else if i == 14 {
        1
    } else if i == 15 {
        1
    } else if i == 16 {
        2
    } else if i == 17 {
        2
    } else if i == 18 {
        1
    } else if i == 19 {
        1
    } else if i == 20 {
        1
    } else if i == 21 {
        1
    } else if i == 22 {
        1
    } else if i == 23 {
        4
    } else if i == 24 {
        1
    } else if i == 25 {
        2
    } else if i == 26 {
        2
    } else if i == 27 {
        2
    } else if i == 28 {
        2
    } else if i == 29 {
        1
    } else if i == 30 {
        1
    } else if i == 33 {
        1
    } else {
        0
    }
}

/// Node `r` of the known graph reaches node `x` (itself included).
spec fn reaches_index(x: int, r: int) -> bool {
    if x == 0 {
        r == 0 || r == 14 || r == 17 || r == 23 || r == 24 || r == 25 || r == 26 || r == 27 || r == 28
    } else if x == 1 {
        r == 1 || r == 17
    } else if x == 2 {
        r == 2 || r == 12 || r == 13 || r == 23 || r == 25
    } else if x == 3 {
        r == 3 || r == 13 || r == 23
    } else if x == 4 {
        r == 4 || r == 15 || r == 16 || r == 26
    } else if x == 5 {
        r == 5 || r == 16
    } else if x == 6 {
        r == 6 || r == 29 || r == 30 || r == 33
    } else if x == 7 {
        r == 7 || r == 23
    } else if x == 8 {
        r == 8 || r == 18 || r == 23 || r == 27
    } else if x == 9 {
        r == 9 || r == 19
    } else if x == 10 {
        r == 10 || r == 20 || r == 21 || r == 28
    } else if x == 11 {
        r == 11 || r == 22
    } else if x == 12 {
        r == 12
    } else if x == 13 {
        r == 13 || r == 23
    } else if x == 14 {
        r == 14
    } else if x == 15 {
        r == 15 || r == 16 || r == 26
    } else if x == 16 {
        r == 16
    } else if x == 17 {
        r == 17
    } else if x == 18 {
        r == 18 || r == 23 || r == 27
    } else if x == 19 {
        r == 19
    } else if x == 20 {
        r == 20 || r == 28
    } else if x == 21 {
        r == 21
    } else if x == 22 {
        r == 22
    } else if x == 23 {
        r == 23
    } else if x == 24 {
        r == 24 || r == 25 || r == 26 || r == 27 || r == 28
    } else if x == 25 {
        r == 25
    } else if x == 26 {
        r == 26
    } else if x == 27 {
        r == 27
    } else if x == 28 {
        r == 28
    } else if x == 29 {
        r == 29 || r == 30 || r == 33
    } else if x == 30 {
        r == 30
    } else if x == 31 {
        r == 31
    } else if x == 32 {
        r == 32
    } else if x == 33 {
        r == 33
    } else {
        false
    }
}

proof fn lemma_dep_index()
    ensures
        forall|i: int| 0 <= i < 34 ==> #[trigger] known_nodes()[i].depends_on.len() == dep_count(i),
        forall|i: int, k: int|
            0 <= i < 34 && 0 <= k < dep_count(i) ==> 0 <= #[trigger] dep_index(i, k) < i
                && known_nodes()[dep_index(i, k)].id == known_nodes()[i].depends_on[k].target_id,
{
    let g = known_nodes();
    lemma_known_ids();
    assert forall|i: int| 0 <= i < 34 implies #[trigger] g[i].depends_on.len() == dep_count(i)
        && forall|k: int|
        0 <= k < dep_count(i) ==> 0 <= #[trigger] dep_index(i, k) < i && g[dep_index(i, k)].id
            == g[i].depends_on[k].target_id by {
        if i == 12 {
            assert(g[i].depends_on.len() == 1);
            assert(g[2].id == g[12].depends_on[0].target_id);
        } else if i == 13 {
            assert(g[i].depends_on.len() == 2);
            assert(g[3].id == g[13].depends_on[0].target_id); assert(g[2].id == g[13].depends_on[1].target_id);
        } else if i == 14 {
            assert(g[i].depends_on.len() == 1);
            assert(g[0].id == g[14].depends_on[0].target_id);
        } else if i == 15 {
            assert(g[i].depends_on.len() == 1);
            assert(g[4].id == g[15].depends_on[0].target_id);
        } else if i == 16 {
            assert(g[i].depends_on.len() == 2);
            assert(g[5].id == g[16].depends_on[0].target_id); assert(g[15].id == g[16].depends_on[1].target_id);
        } else if i == 17 {
            assert(g[i].depends_on.len() == 2);
            assert(g[1].id == g[17].depends_on[0].target_id); assert(g[0].id == g[17].depends_on[1].target_id);
        } else if i == 18 {
            assert(g[i].depends_on.len() == 1);
            assert(g[8].id == g[18].depends_on[0].target_id);
        } else if i == 19 {
            assert(g[i].depends_on.len() == 1);
            assert(g[9].id == g[19].depends_on[0].target_id);
        } else if i == 20 {
            assert(g[i].depends_on.len() == 1);
            assert(g[10].id == g[20].depends_on[0].target_id);
        } else if i == 21 {
            assert(g[i].depends_on.len() == 1);
            assert(g[10].id == g[21].depends_on[0].target_id);
        } else if i == 22 {
            assert(g[i].depends_on.len() == 1);
            assert(g[11].id == g[22].depends_on[0].target_id);
        } else if i == 23 {
            assert(g[i].depends_on.len() == 4);
            assert(g[7].id == g[23].depends_on[0].target_id); assert(g[0].id == g[23].depends_on[1].target_id); assert(g[18].id == g[23].depends_on[2].target_id); assert(g[13].id == g[23].depends_on[3].target_id);
        } else if i == 24 {
            assert(g[i].depends_on.len() == 1);
            assert(g[0].id == g[24].depends_on[0].target_id);
        } else if i == 25 {
            assert(g[i].depends_on.len() == 2);
            assert(g[24].id == g[25].depends_on[0].target_id); assert(g[2].id == g[25].depends_on[1].target_id);
        } else if i == 26 {
            assert(g[i].depends_on.len() == 2);
            assert(g[24].id == g[26].depends_on[0].target_id); assert(g[15].id == g[26].depends_on[1].target_id);
        } else if i == 27 {
            assert(g[i].depends_on.len() == 2);
            assert(g[24].id == g[27].depends_on[0].target_id); assert(g[18].id == g[27].depends_on[1].target_id);
        } else if i == 28 {
            assert(g[i].depends_on.len() == 2);
            assert(g[24].id == g[28].depends_on[0].target_id); assert(g[20].id == g[28].depends_on[1].target_id);
        } else if i == 29 {
            assert(g[i].depends_on.len() == 1);
            assert(g[6].id == g[29].depends_on[0].target_id);
        } else if i == 30 {
            assert(g[i].depends_on.len() == 1);
            assert(g[29].id == g[30].depends_on[0].target_id);
        } else if i == 33 {
            assert(g[i].depends_on.len() == 1);
            assert(g[29].id == g[33].depends_on[0].target_id);
        } else {
            assert(g[i].depends_on.len() == 0);
        }
    }
}

/// Whoever reaches a dependency of a node reaches the node's dependents too:
/// the table of who reaches whom is closed under dependencies.
proof fn lemma_reaches_index_closed()
    ensures
        forall|x: int, i: int, k: int|
            0 <= x < 34 && 0 <= i < 34 && 0 <= k < dep_count(i) && #[trigger] reaches_index(
                x,
                dep_index(i, k),
            ) ==> reaches_index(x, i),
{
}

/// Two distinct nodes that share a dependency are never both reached from
/// one node.
proof fn lemma_shared_dependency_unreached()
    ensures
        forall|r: int, a: int, b: int, k: int, k2: int|
            0 <= r < 34 && 0 <= a < 34 && 0 <= b < 34 && 0 <= k < dep_count(a) && 0 <= k2 < dep_count(b)
                && #[trigger] reaches_index(a, r) && #[trigger] reaches_index(b, r) && #[trigger] dep_index(a, k)
                == #[trigger] dep_index(b, k2) ==> a == b,
{
}


/// A node of the known graph sits at the index a lookup of its id finds.
proof fn lemma_known_index(a: Seq<char>)
    requires
        is_node(known_nodes(), a),
    ensures
        0 <= node_index(known_nodes(), a)->0 < 34,
        known_nodes()[node_index(known_nodes(), a)->0].id == a,
{
    lemma_known_graph_well_formed();
    lemma_node_index(known_nodes(), a);
}

/// What `reaches` follows in the known graph, the table of who reaches
/// whom records.
proof fn lemma_reach_index(a: Seq<char>, b: Seq<char>, n: nat)
    requires
        reaches(known_nodes(), a, b, n),
    ensures
        is_node(known_nodes(), a),
        is_node(known_nodes(), b),
        reaches_index(node_index(known_nodes(), b)->0, node_index(known_nodes(), a)->0),
    decreases n,
{
    let g = known_nodes();
    lemma_known_graph_well_formed();
    if n == 0 {
        lemma_known_index(a);
    } else if reaches(g, a, b, (n - 1) as nat) {
        lemma_reach_index(a, b, (n - 1) as nat);
    } else {
        let k = choose|k: int|
            0 <= k < dep_ids(g, a).len() && reaches(g, #[trigger] dep_ids(g, a)[k], b, (n - 1) as nat);
        let d = dep_ids(g, a)[k];
        lemma_reach_index(d, b, (n - 1) as nat);
        lemma_known_index(a);
        let ia = node_index(g, a)->0;
        lemma_distinct_lookup(g, ia);
        lemma_dep_index();
        lemma_reaches_index_closed();
        assert(k < dep_count(ia));
        let di = dep_index(ia, k);
        assert(g[di].id == d);
        lemma_distinct_lookup(g, di);
        assert(reaches_index(node_index(g, b)->0, di));
    }
}

/// Every capability of the chain `c` comes before the capabilities that
/// depend on it.
pub open spec fn prerequisites_first(g: Seq<NodeView>, c: Seq<NodeView>) -> bool {
    forall|i: int, j: int|
        0 <= i < j < c.len() ==> !(#[trigger] dep_ids(g, c[i].id).contains(#[trigger] c[j].id))
}

/// In the known graph, a dependency chain of `id` (its nodes all reached
/// from `id`, each once, `id` last, each other one a dependency of a later
/// one) lists every capability before the capabilities that depend on it.
pub proof fn lemma_known_chain_prerequisites_first(id: Seq<char>, c: Seq<NodeView>)
    requires
        forall|k: int| 0 <= k < c.len() ==> reachable(known_nodes(), id, (#[trigger] c[k]).id),
        forall|i: int, j: int| 0 <= i < j < c.len() ==> (#[trigger] c[i]).id != (#[trigger] c[j]).id,
        c.len() > 0 ==> c.last().id == id,
        forall|j: int| 0 <= j < c.len() - 1 ==> #[trigger] needed_later(known_nodes(), c, j),
    ensures
        prerequisites_first(known_nodes(), c),
{
    let g = known_nodes();
    lemma_known_graph_well_formed();
    lemma_dep_index();
    lemma_shared_dependency_unreached();
    assert forall|i: int, j: int| 0 <= i < j < c.len() implies !(#[trigger] dep_ids(g, c[i].id).contains(
        #[trigger] c[j].id,
    )) by {
        if dep_ids(g, c[i].id).contains(c[j].id) {
            let a = c[i].id;
            let k = choose|k: int| 0 <= k < dep_ids(g, a).len() && dep_ids(g, a)[k] == c[j].id;
            assert(reachable(g, id, c[i].id));
            let n = choose|n: nat| #[trigger] reaches(g, id, a, n);
            lemma_reach_index(id, a, n);
            if j == c.len() - 1 {
                assert(c[j].id == id);
                lemma_known_graph_acyclic(a, k);
            } else {
                assert(needed_later(g, c, j));
                let j2 = choose|j2: int| j < j2 < c.len() && #[trigger] dep_ids(g, c[j2].id).contains(c[j].id);
                let b = c[j2].id;
                let k2 = choose|k2: int| 0 <= k2 < dep_ids(g, b).len() && dep_ids(g, b)[k2] == c[j].id;
                assert(reachable(g, id, b));
                let n2 = choose|n2: nat| #[trigger] reaches(g, id, b, n2);
                lemma_reach_index(id, b, n2);
                lemma_known_index(a);
                lemma_known_index(b);
                lemma_known_index(id);
                let ia = node_index(g, a)->0;
                let ib = node_index(g, b)->0;
                let ir = node_index(g, id)->0;
                assert(k < dep_count(ia) && k2 < dep_count(ib));
                let da = dep_index(ia, k);
                let db = dep_index(ib, k2);
                assert(g[da].id == c[j].id && g[db].id == c[j].id);
                if da != db {
                    if da < db {
                        assert(g[da].id != g[db].id);
                    } else {
                        assert(g[db].id != g[da].id);
                    }
                }
                assert(reaches_index(ia, ir) && reaches_index(ib, ir));
                assert(ia == ib);
                assert(c[i].id != c[j2].id);
            }
        }
    }
}

} // verus!
