use k8s_discovery::sanitize_segment;
use k8s_discovery::DiscoveryError;
use k8s_discovery::DiscoveryNamespaces;
use k8s_discovery::Item;
use k8s_discovery::K8sDiscovery;
use k8s_discovery::ListPlan;
use k8s_discovery::ResourceDescriptor;
use k8s_discovery::ResourceScope;
use k8s_discovery::GATEWAY_CAPACITY;

fn descriptor(group: &str, version: &str, kind: &str, scope: ResourceScope) -> ResourceDescriptor {
    let api_version = if group.is_empty() {
        version.to_string()
    } else {
        format!("{}/{}", group, version)
    };
    ResourceDescriptor {
        group: group.to_string(),
        version: version.to_string(),
        api_version,
        kind: kind.to_string(),
        plural: format!("{}s", kind.to_lowercase()),
        scope,
    }
}

fn item(name: Option<&str>, namespace: Option<&str>, uid: Option<&str>) -> Item {
    Item {
        name: name.map(|s| s.to_string()),
        namespace: namespace.map(|s| s.to_string()),
        uid: uid.map(|s| s.to_string()),
        has_managed_fields: true,
    }
}

fn config(
    namespaces: DiscoveryNamespaces,
    include_global: bool,
    ignore: Vec<&str>,
    formatter: &str,
) -> K8sDiscovery {
    K8sDiscovery::new(
        namespaces,
        include_global,
        ignore.into_iter().map(|s| s.to_string()).collect(),
        formatter.to_string(),
    )
}

#[test]
fn unlistable_kind_is_skipped() {
    let cfg = config(DiscoveryNamespaces::All, true, vec![], "{name}.yaml");
    let cluster = descriptor("", "v1", "Node", ResourceScope::Cluster);
    let namespaced = descriptor("", "v1", "ConfigMap", ResourceScope::Namespaced);
    assert!(matches!(cfg.plan_listing(&cluster, false), ListPlan::Skip));
    assert!(matches!(cfg.plan_listing(&namespaced, false), ListPlan::Skip));
}

#[test]
fn cluster_scoped_kind_listed_iff_included() {
    let node = descriptor("", "v1", "Node", ResourceScope::Cluster);
    let with = config(DiscoveryNamespaces::All, true, vec![], "{name}.yaml");
    let without = config(DiscoveryNamespaces::All, false, vec![], "{name}.yaml");
    assert!(matches!(with.plan_listing(&node, true), ListPlan::Cluster));
    assert!(matches!(without.plan_listing(&node, true), ListPlan::Skip));
}

#[test]
fn all_namespaces_gives_one_unrestricted_call() {
    let cfg = config(DiscoveryNamespaces::All, true, vec![], "{name}.yaml");
    let cm = descriptor("", "v1", "ConfigMap", ResourceScope::Namespaced);
    assert!(matches!(cfg.plan_listing(&cm, true), ListPlan::AllNamespaces));
}

#[test]
fn explicit_namespaces_are_listed_each() {
    let cfg = config(
        DiscoveryNamespaces::Explicit(vec!["alpha".to_string(), "beta".to_string()]),
        true,
        vec![],
        "{name}.yaml",
    );
    let cm = descriptor("", "v1", "ConfigMap", ResourceScope::Namespaced);
    match cfg.plan_listing(&cm, true) {
        ListPlan::EachNamespace(ns) => assert_eq!(ns, vec!["alpha".to_string(), "beta".to_string()]),
        _ => panic!("expected a per-namespace plan"),
    }
}

#[test]
fn explicit_empty_selection_lists_nothing() {
    let cfg = config(DiscoveryNamespaces::Explicit(vec![]), true, vec![], "{name}.yaml");
    let cm = descriptor("", "v1", "ConfigMap", ResourceScope::Namespaced);
    match cfg.plan_listing(&cm, true) {
        ListPlan::EachNamespace(ns) => assert!(ns.is_empty()),
        _ => panic!("expected a per-namespace plan"),
    }
}

#[test]
fn one_ignore_key_suppresses_whole_kind() {
    let cfg = config(DiscoveryNamespaces::All, true, vec!["apps/replicaset"], "{name}.yaml");
    let rs = descriptor("apps", "v1", "ReplicaSet", ResourceScope::Namespaced);
    let deploy = descriptor("apps", "v1", "Deployment", ResourceScope::Namespaced);
    assert!(cfg.should_ignore(&rs));
    assert!(!cfg.should_ignore(&deploy));
}

#[test]
fn ignore_key_forms_each_match() {
    let rs = descriptor("apps", "v1", "ReplicaSet", ResourceScope::Namespaced);
    let natural = config(DiscoveryNamespaces::All, true, vec!["apps/ReplicaSet"], "x");
    let api_version = config(DiscoveryNamespaces::All, true, vec!["apps/v1/replicaset"], "x");
    let bare = config(DiscoveryNamespaces::All, true, vec!["replicaset"], "x");
    let unrelated = config(DiscoveryNamespaces::All, true, vec!["event", "v1/endpoints"], "x");
    assert!(natural.should_ignore(&rs));
    assert!(api_version.should_ignore(&rs));
    assert!(bare.should_ignore(&rs));
    assert!(!unrelated.should_ignore(&rs));
}

#[test]
fn bare_key_matches_core_group_kind() {
    let cfg = config(DiscoveryNamespaces::All, true, vec!["event"], "x");
    let ev = descriptor("", "v1", "Event", ResourceScope::Namespaced);
    assert!(cfg.should_ignore(&ev));
}

#[test]
fn path_resolution_repeats_exactly() {
    let cfg = config(
        DiscoveryNamespaces::All,
        true,
        vec![],
        "{group}/{v}/{namespace}/{kind_l}/{name}.yaml",
    );
    let cm = descriptor("apps", "v1", "Deployment", ResourceScope::Namespaced);
    let it = item(Some("web"), Some("prod"), Some("u-1"));
    let first = cfg.format_file_name(&it, &cm);
    let second = cfg.format_file_name(&it, &cm);
    assert_eq!(first, second);
    assert_eq!(first, "apps/v1/prod/deployment/web.yaml");
}

#[test]
fn sanitize_replaces_each_disallowed_character() {
    assert_eq!(sanitize_segment("a/b?c*d"), "a_b_c_d");
}

#[test]
fn sanitize_keeps_allowed_characters() {
    assert_eq!(sanitize_segment("Pod-1.yaml"), "Pod-1.yaml");
    assert_eq!(sanitize_segment("A_z+9"), "A_z+9");
}

#[test]
fn missing_name_and_uid_gets_fresh_placeholder() {
    let cfg = config(DiscoveryNamespaces::All, true, vec![], "{name}");
    let node = descriptor("", "v1", "Node", ResourceScope::Cluster);
    let it = item(None, None, None);
    let first = cfg.format_file_name(&it, &node);
    let second = cfg.format_file_name(&it, &node);
    assert_eq!(first.len(), 16);
    assert!(first.chars().all(|c| c.is_ascii_alphanumeric()));
    assert_eq!(second.len(), 16);
    assert!(second.chars().all(|c| c.is_ascii_alphanumeric()));
    assert_ne!(first, second);
}

#[test]
fn missing_name_falls_back_to_uid() {
    let cfg = config(DiscoveryNamespaces::All, true, vec![], "{name}.yaml");
    let node = descriptor("", "v1", "Node", ResourceScope::Cluster);
    let it = item(None, None, Some("0662e40f-9c4e-4c98-a61b-b9bb0cf6e4e2"));
    assert_eq!(
        cfg.format_file_name(&it, &node),
        "0662e40f-9c4e-4c98-a61b-b9bb0cf6e4e2.yaml"
    );
}

#[test]
fn namespaced_item_end_to_end_path() {
    let cfg = config(
        DiscoveryNamespaces::All,
        true,
        vec![],
        "{namespace}/{kind_l}/{name}.yaml",
    );
    let cm = descriptor("", "v1", "ConfigMap", ResourceScope::Namespaced);
    let it = item(Some("coredns"), Some("kube-system"), Some("u-42"));
    assert_eq!(cfg.format_file_name(&it, &cm), "kube-system/configmap/coredns.yaml");
    let clean = cfg.sanitize_item(&it, &cm);
    assert!(!clean.has_managed_fields);
    assert_eq!(clean.name.as_deref(), Some("coredns"));
    assert_eq!(clean.namespace.as_deref(), Some("kube-system"));
    assert_eq!(clean.uid.as_deref(), Some("u-42"));
    assert!(it.has_managed_fields);
}

#[test]
fn cluster_item_uses_cluster_marker() {
    let cfg = config(
        DiscoveryNamespaces::All,
        true,
        vec![],
        "{namespace}/{kind_l}/{name}.yaml",
    );
    let node = descriptor("", "v1", "Node", ResourceScope::Cluster);
    let it = item(Some("node-1"), None, Some("u-7"));
    assert_eq!(cfg.format_file_name(&it, &node), "_cluster/node/node-1.yaml");
}

#[test]
fn kind_placeholder_keeps_natural_casing() {
    let cfg = config(DiscoveryNamespaces::All, true, vec![], "{kind}/{name}");
    let cm = descriptor("", "v1", "ConfigMap", ResourceScope::Namespaced);
    let it = item(Some("a"), Some("ns"), None);
    assert_eq!(cfg.format_file_name(&it, &cm), "ConfigMap/a");
}

#[test]
fn untrusted_directory_segments_are_sanitized() {
    let cfg = config(DiscoveryNamespaces::All, true, vec![], "{namespace}/{name}");
    let cm = descriptor("", "v1", "ConfigMap", ResourceScope::Namespaced);
    let it = item(Some("c?d"), Some("a?b"), None);
    assert_eq!(cfg.format_file_name(&it, &cm), "a_b/c_d");
}

#[test]
fn separator_in_name_cannot_escape_into_directory() {
    let cfg = config(DiscoveryNamespaces::All, true, vec![], "{name}");
    let node = descriptor("", "v1", "Node", ResourceScope::Cluster);
    let it = item(Some("a/b?c*d"), None, None);
    assert_eq!(cfg.format_file_name(&it, &node), "a_b_c_d");
}

#[test]
fn operator_template_segments_pass_through() {
    let cfg = config(DiscoveryNamespaces::All, true, vec![], "raw dir/{name}");
    let node = descriptor("", "v1", "Node", ResourceScope::Cluster);
    let it = item(Some("a"), None, None);
    assert_eq!(cfg.format_file_name(&it, &node), "raw dir/a");
}

#[test]
fn filter_drops_whole_batch_of_ignored_kind() {
    let cfg = config(DiscoveryNamespaces::All, true, vec!["apps/replicaset"], "{name}.yaml");
    let rs = descriptor("apps", "v1", "ReplicaSet", ResourceScope::Namespaced);
    let batch = vec![item(Some("web-1"), Some("prod"), None), item(Some("web-2"), Some("prod"), None)];
    let kept = cfg.filter_items(batch, &rs);
    assert!(kept.is_empty());
}

#[test]
fn filter_keeps_batch_of_surviving_kind_in_order() {
    let cfg = config(DiscoveryNamespaces::All, true, vec!["apps/replicaset"], "{name}.yaml");
    let deploy = descriptor("apps", "v1", "Deployment", ResourceScope::Namespaced);
    let batch = vec![item(Some("web-1"), Some("prod"), None), item(Some("web-2"), Some("prod"), None)];
    let kept = cfg.filter_items(batch, &deploy);
    assert_eq!(kept.len(), 2);
    assert_eq!(kept[0].name.as_deref(), Some("web-1"));
    assert_eq!(kept[1].name.as_deref(), Some("web-2"));
}

#[test]
fn untemplated_name_gets_dummy_base() {
    let cfg = config(DiscoveryNamespaces::All, true, vec![], "");
    let cm = descriptor("", "v1", "ConfigMap", ResourceScope::Namespaced);
    let it = item(Some("a"), Some("ns"), None);
    assert_eq!(cfg.format_file_name(&it, &cm), "_.yaml");
}

#[test]
fn fatal_and_per_item_errors_are_classified() {
    assert!(DiscoveryError::DiscoveryFailure("surface query failed".to_string()).is_fatal());
    assert!(DiscoveryError::ListFailure("list call failed".to_string()).is_fatal());
    assert!(DiscoveryError::ChannelClosed.is_fatal());
    assert!(!DiscoveryError::SerializationFailure("bad document".to_string()).is_fatal());
    assert!(!DiscoveryError::PersistenceFailure("write failed".to_string()).is_fatal());
}

#[test]
fn gateway_holds_one_item() {
    assert_eq!(GATEWAY_CAPACITY, 1);
}
