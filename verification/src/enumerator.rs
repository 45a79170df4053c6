//! The discovery enumerator's decisions: which listing call to make for each
//! discovered resource kind, and which kinds the ignore rules suppress. The
//! surrounding shell performs the client calls these decisions ask for.

use vstd::prelude::*;

use crate::model::DiscoveryNamespaces;
use crate::model::K8sDiscovery;
use crate::model::ListPlan;
use crate::model::ResourceDescriptor;
use crate::model::ResourceScope;
use crate::text::lower_of;
use crate::text::str_eq_str;
use crate::text::to_lowercase;

verus! {

/// Whether some rule in `rules` equals `key` exactly.
pub open spec fn contains_str(rules: Seq<String>, key: Seq<char>) -> bool {
    exists|i: int| 0 <= i < rules.len() && #[trigger] rules[i]@ == key
}

/// First ignore key of a kind: `<group>/<kind>`, the kind in its natural
/// casing.
pub open spec fn ignore_key_group_kind(res: ResourceDescriptor) -> Seq<char> {
    res.group@ + "/"@ + res.kind@
}

/// Second ignore key of a kind: `<apiVersion>/<kind-lowercase>`.
pub open spec fn ignore_key_api_version(res: ResourceDescriptor) -> Seq<char> {
    res.api_version@ + "/"@ + lower_of(res.kind@)
}

/// Third ignore key of a kind: `<group>/<kind-lowercase>`.
pub open spec fn ignore_key_group_lower(res: ResourceDescriptor) -> Seq<char> {
    res.group@ + "/"@ + lower_of(res.kind@)
}

/// Fourth ignore key of a kind: the bare `<kind-lowercase>`.
pub open spec fn ignore_key_bare(res: ResourceDescriptor) -> Seq<char> {
    lower_of(res.kind@)
}

/// An item of kind `res` is suppressed exactly when one of its four derived
/// keys occurs in the rules. Matching is exact string equality.
pub open spec fn suppressed(rules: Seq<String>, res: ResourceDescriptor) -> bool {
    ||| contains_str(rules, ignore_key_group_kind(res))
    ||| contains_str(rules, ignore_key_api_version(res))
    ||| contains_str(rules, ignore_key_group_lower(res))
    ||| contains_str(rules, ignore_key_bare(res))
}

/// The listing action owed for a kind of scope `scope` under configuration
/// `cfg`, given whether the kind supports listing: this predicate relates the
/// plan `p` to the inputs, case by case and exhaustively.
pub open spec fn plan_ok(
    cfg: K8sDiscovery,
    scope: ResourceScope,
    supports_list: bool,
    p: ListPlan,
) -> bool {
    &&& (p is Skip <==> (!supports_list || (scope is Cluster
        && !cfg.include_global_resources)))
    &&& (p is Cluster <==> (supports_list && scope is Cluster && cfg.include_global_resources))
    &&& (p is AllNamespaces <==> (supports_list && scope is Namespaced
        && cfg.namespaces is All))
    &&& (p is EachNamespace <==> (supports_list && scope is Namespaced
        && cfg.namespaces is Explicit))
    &&& (cfg.namespaces matches DiscoveryNamespaces::Explicit(ns) ==> (p matches
        ListPlan::EachNamespace(v) ==> v@ == ns@))
}

fn contains_key(rules: &Vec<String>, key: &str) -> (b: bool)
    ensures
        b == contains_str(rules@, key@),
{
    let n = rules.len();
    let mut i: usize = 0;
    while i < n
        invariant
            i <= n,
            n == rules@.len(),
            forall|j: int| 0 <= j < i ==> #[trigger] rules@[j]@ != key@,
        decreases n - i,
    {
        if str_eq_str(rules[i].as_str(), key) {
            return true;
        }
        i = i + 1;
    }
    false
}

fn join_slash(a: &str, b: &str) -> (r: String)
    ensures
        r@ == a@ + "/"@ + b@,
{
    let mut s = String::from_str(a);
    s.append("/");
    s.append(b);
    s
}

impl K8sDiscovery {
    /// A configuration for one discovery run, assembled once at startup.
    pub fn new(
        namespaces: DiscoveryNamespaces,
        include_global_resources: bool,
        ignore_resources: Vec<String>,
        formatter: String,
    ) -> (d: K8sDiscovery)
        ensures
            d.namespaces == namespaces,
            d.include_global_resources == include_global_resources,
            d.ignore_resources == ignore_resources,
            d.formatter == formatter,
    {
        K8sDiscovery { namespaces, include_global_resources, ignore_resources, formatter }
    }

    /// The listing action for one discovered kind: skip it when it cannot be
    /// listed or when it is cluster-scoped and cluster-scoped kinds are
    /// excluded; otherwise one cluster-wide call, one unrestricted call, or
    /// one call per selected namespace, according to scope and namespace
    /// selection.
    pub fn plan_listing(&self, res: &ResourceDescriptor, supports_list: bool) -> (p: ListPlan)
        ensures
            plan_ok(*self, res.scope, supports_list, p),
    {
        if !supports_list {
            return ListPlan::Skip;
        }
        if res.scope == ResourceScope::Cluster {
            if self.include_global_resources {
                ListPlan::Cluster
            } else {
                ListPlan::Skip
            }
        } else {
            match &self.namespaces {
                DiscoveryNamespaces::All => ListPlan::AllNamespaces,
                DiscoveryNamespaces::Explicit(ns) => {
                    let n = ns.len();
                    let mut copy: Vec<String> = Vec::new();
                    let mut i: usize = 0;
                    while i < n
                        invariant
                            i <= n,
                            n == ns@.len(),
                            copy@ =~= ns@.take(i as int),
                        decreases n - i,
                    {
                        copy.push(ns[i].clone());
                        proof {
                            assert(copy@ =~= ns@.take(i + 1));
                        }
                        i = i + 1;
                    }
                    proof {
                        assert(ns@.take(n as int) =~= ns@);
                    }
                    ListPlan::EachNamespace(copy)
                },
            }
        }
    }

    /// Whether items of kind `res` are suppressed by the configured ignore
    /// rules: true exactly when one of the four derived keys occurs among
    /// them.
    pub fn should_ignore(&self, res: &ResourceDescriptor) -> (b: bool)
        ensures
            b == suppressed(self.ignore_resources@, *res),
    {
        let kind_l = to_lowercase(res.kind.as_str());
        let key_group_kind = join_slash(res.group.as_str(), res.kind.as_str());
        let key_api_version = join_slash(res.api_version.as_str(), kind_l.as_str());
        let key_group_lower = join_slash(res.group.as_str(), kind_l.as_str());
        contains_key(&self.ignore_resources, key_group_kind.as_str()) || contains_key(
            &self.ignore_resources,
            key_api_version.as_str(),
        ) || contains_key(&self.ignore_resources, key_group_lower.as_str()) || contains_key(
            &self.ignore_resources,
            kind_l.as_str(),
        )
    }
    /// The filter step applied to one listed batch before emission: an item
    /// survives exactly when none of the four derived keys of its kind
    /// occurs in the ignore rules — one matching key, whichever of the four
    /// forms it takes, suppresses the whole batch; otherwise every item is
    /// kept, in order.
    pub fn filter_items<T>(&self, items: Vec<T>, res: &ResourceDescriptor) -> (kept: Vec<T>)
        ensures
            suppressed(self.ignore_resources@, *res) ==> kept@ == Seq::<T>::empty(),
            !suppressed(self.ignore_resources@, *res) ==> kept@ == items@,
    {
        if self.should_ignore(res) {
            Vec::new()
        } else {
            items
        }
    }
}

/// A kind that does not support listing is never listed: whatever the rest of
/// the configuration says, its plan is to skip it.
pub proof fn lemma_unlistable_never_listed(
    cfg: K8sDiscovery,
    scope: ResourceScope,
    p: ListPlan,
)
    requires
        plan_ok(cfg, scope, false, p),
    ensures
        p is Skip,
{
}

/// Cluster-scoped kinds are listed exactly when cluster-scoped resources are
/// included: with the flag set the plan is the one cluster-wide call, without
/// it the kind is skipped and contributes zero items.
pub proof fn lemma_cluster_scope_gate(cfg: K8sDiscovery, p: ListPlan)
    requires
        plan_ok(cfg, ResourceScope::Cluster, true, p),
    ensures
        cfg.include_global_resources <==> p is Cluster,
        !cfg.include_global_resources <==> p is Skip,
{
}

/// For namespace-scoped kinds the namespace selection decides the calls: `All`
/// gives the one unrestricted call, and an explicit selection gives exactly
/// the named namespaces, so that an empty selection yields zero listing calls
/// and therefore zero namespaced items.
pub proof fn lemma_namespace_selection(cfg: K8sDiscovery, p: ListPlan)
    requires
        plan_ok(cfg, ResourceScope::Namespaced, true, p),
    ensures
        cfg.namespaces is All ==> p is AllNamespaces,
        cfg.namespaces matches DiscoveryNamespaces::Explicit(ns) ==> (p matches
            ListPlan::EachNamespace(v) && v@ == ns@),
        cfg.namespaces matches DiscoveryNamespaces::Explicit(ns) && ns@.len() == 0 ==> (p matches
            ListPlan::EachNamespace(v) && v@.len() == 0),
{
}

/// One matching key suffices for suppression: whichever of the four derived
/// forms occurs in the rules, the item is suppressed; it survives only when
/// none of them occurs.
pub proof fn lemma_single_key_suppresses(rules: Seq<String>, res: ResourceDescriptor)
    ensures
        contains_str(rules, ignore_key_group_kind(res)) ==> suppressed(rules, res),
        contains_str(rules, ignore_key_api_version(res)) ==> suppressed(rules, res),
        contains_str(rules, ignore_key_group_lower(res)) ==> suppressed(rules, res),
        contains_str(rules, ignore_key_bare(res)) ==> suppressed(rules, res),
        !suppressed(rules, res) <==> (!contains_str(rules, ignore_key_group_kind(res))
            && !contains_str(rules, ignore_key_api_version(res)) && !contains_str(
            rules,
            ignore_key_group_lower(res),
        ) && !contains_str(rules, ignore_key_bare(res))),
{
}

} // verus!

