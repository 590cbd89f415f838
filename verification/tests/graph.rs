use lib::caps::kernel_cap::graph::{CapabilityCategory, CapabilityGraph, DependencyKind};

#[test]
fn test_graph_construction() {
    let g = CapabilityGraph::known();
    assert!(g.len() > 10, "graph should have multiple nodes");
}

#[test]
fn test_livepatch_dependencies() {
    let g = CapabilityGraph::known();
    let deps = g.dependencies_of("security.livepatch");
    let dep_ids: Vec<&str> = deps.iter().map(|d| d.target_id).collect();

    assert!(
        dep_ids.contains(&"config.LIVEPATCH"),
        "livepatch must depend on CONFIG_LIVEPATCH"
    );
    assert!(
        dep_ids.contains(&"config.MODULES"),
        "livepatch must depend on module infrastructure"
    );
    assert!(
        dep_ids.contains(&"tracing.ftrace"),
        "livepatch must depend on ftrace"
    );
}

#[test]
fn test_dependents_of_modules() {
    let g = CapabilityGraph::known();
    let dependents = g.dependents_of("config.MODULES");

    assert!(
        !dependents.is_empty(),
        "many capabilities should depend on modules"
    );

    let dep_ids: Vec<&str> = dependents.iter().map(|n| n.id).collect();
    assert!(
        dep_ids.contains(&"kernel.modules"),
        "module loader depends on CONFIG_MODULES"
    );
}

#[test]
fn test_dependency_chain() {
    let g = CapabilityGraph::known();
    let chain = g.dependency_chain("kernel.tracing.ftrace");

    let ids: Vec<&str> = chain.iter().map(|n| n.id).collect();
    assert!(
        ids.contains(&"config.FUNCTION_TRACER"),
        "chain missing ftrace config"
    );
    assert!(
        ids.contains(&"tracing.ftrace"),
        "chain missing ftrace infra"
    );
    assert!(
        ids.contains(&"kernel.tracing.ftrace"),
        "chain missing kernel module probe"
    );
}

#[test]
fn test_btf_dependency_chain() {
    let g = CapabilityGraph::known();
    let chain = g.dependency_chain("kernel.btf.module");

    let ids: Vec<&str> = chain.iter().map(|n| n.id).collect();
    assert!(
        ids.contains(&"config.DEBUG_INFO_BTF"),
        "BTF requires CONFIG_DEBUG_INFO_BTF"
    );
    assert!(ids.contains(&"btf.available"), "BTF module needs BTF infra");
    assert!(
        ids.contains(&"kernel.btf.module"),
        "BTF module probe itself"
    );
}

#[test]
fn graph_has_every_declared_capability() {
    let g = CapabilityGraph::known();
    assert_eq!(g.len(), 34);
    assert!(!g.is_empty());
    assert_eq!(g.all_nodes().len(), 34);
    assert_eq!(g.all_nodes()[0].id, "config.MODULES");
    assert_eq!(g.all_nodes()[33].id, "build.toolchain.rustc");
}

#[test]
fn node_lookup_finds_by_id() {
    let g = CapabilityGraph::known();
    let n = g.node("btf.available").unwrap();
    assert_eq!(n.label, "BTF Available");
    assert_eq!(n.category, CapabilityCategory::Infrastructure);
    assert_eq!(n.depends_on.len(), 1);
    assert!(g.node("no.such.capability").is_none());
}

#[test]
fn dependencies_keep_declaration_order_and_kind() {
    let g = CapabilityGraph::known();
    let deps = g.dependencies_of("security.livepatch");
    let ids: Vec<&str> = deps.iter().map(|d| d.target_id).collect();
    assert_eq!(
        ids,
        vec!["config.LIVEPATCH", "config.MODULES", "tracing.ftrace", "symbols.kallsyms_all"]
    );
    assert_eq!(deps[3].kind, DependencyKind::Optional);
    assert_eq!(deps[3].kind.label(), "optional");
    assert!(g.dependencies_of("unknown").is_empty());
    assert!(g.dependencies_of("config.MODULES").is_empty());
}

#[test]
fn dependents_in_graph_order() {
    let g = CapabilityGraph::known();
    let ids: Vec<&str> = g.dependents_of("config.MODULES").iter().map(|n| n.id).collect();
    assert_eq!(
        ids,
        vec!["kernel.modules", "modules.signing", "security.livepatch", "kernel.module_loaded"]
    );
    assert!(g.dependents_of("unknown").is_empty());
}

#[test]
fn chain_is_prerequisites_first_with_target_last() {
    let g = CapabilityGraph::known();
    let ids: Vec<&str> = g.dependency_chain("kernel.tracing.ftrace").iter().map(|n| n.id).collect();
    assert_eq!(
        ids,
        vec![
            "config.FUNCTION_TRACER",
            "tracing.ftrace",
            "config.MODULES",
            "kernel.module_loaded",
            "kernel.tracing.ftrace"
        ]
    );
    let ids: Vec<&str> = g.dependency_chain("security.livepatch").iter().map(|n| n.id).collect();
    assert_eq!(
        ids,
        vec![
            "config.KALLSYMS",
            "config.KALLSYMS_ALL",
            "symbols.kallsyms_all",
            "config.FUNCTION_TRACER",
            "tracing.ftrace",
            "config.MODULES",
            "config.LIVEPATCH",
            "security.livepatch"
        ]
    );
}

#[test]
fn chain_of_unknown_capability_is_empty() {
    let g = CapabilityGraph::known();
    assert!(g.dependency_chain("no.such.capability").is_empty());
    let leaf: Vec<&str> = g.dependency_chain("config.BPF").iter().map(|n| n.id).collect();
    assert_eq!(leaf, vec!["config.BPF"]);
}

#[test]
fn every_chain_lists_prerequisites_before_dependents() {
    let g = CapabilityGraph::known();
    for node in g.all_nodes() {
        let chain = g.dependency_chain(node.id);
        let ids: Vec<&str> = chain.iter().map(|n| n.id).collect();
        assert_eq!(*ids.last().unwrap(), node.id);
        for (pos, n) in chain.iter().enumerate() {
            for d in &n.depends_on {
                if let Some(dpos) = ids.iter().position(|x| *x == d.target_id) {
                    assert!(dpos < pos, "{} before {}", d.target_id, n.id);
                }
            }
        }
        let mut sorted = ids.clone();
        sorted.sort();
        sorted.dedup();
        assert_eq!(sorted.len(), ids.len());
    }
}

#[test]
fn category_and_kind_labels() {
    assert_eq!(CapabilityCategory::BuildEnv.label(), "build_env");
    assert_eq!(CapabilityCategory::KernelModule.label(), "kernel_module");
    assert_eq!(DependencyKind::Enhances.label(), "enhances");
    assert_eq!(DependencyKind::Required.label(), "required");
}

#[test]
fn dependents_agree_with_dependencies() {
    let g = CapabilityGraph::known();
    for n in g.all_nodes() {
        for d in g.dependencies_of(n.id) {
            assert!(g.dependents_of(d.target_id).iter().any(|m| m.id == n.id));
        }
        for other in g.all_nodes() {
            let listed = g.dependents_of(other.id).iter().any(|m| m.id == n.id);
            let declared = g.dependencies_of(n.id).iter().any(|d| d.target_id == other.id);
            assert_eq!(listed, declared, "{} / {}", n.id, other.id);
        }
    }
}

#[test]
fn known_graph_is_well_formed() {
    let g = CapabilityGraph::known();
    let nodes = g.all_nodes();
    assert_eq!(nodes.len(), 34);
    for (i, n) in nodes.iter().enumerate() {
        assert!(nodes[..i].iter().all(|m| m.id != n.id), "{} repeated", n.id);
        for d in &n.depends_on {
            assert!(nodes[..i].iter().any(|m| m.id == d.target_id), "{} -> {}", n.id, d.target_id);
        }
        if n.category == CapabilityCategory::Config {
            assert!(n.depends_on.is_empty());
        }
    }
}
