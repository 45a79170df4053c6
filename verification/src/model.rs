//! The data model of a discovery run: resource descriptors, items, namespace
//! selection, listing plans, and the error taxonomy.

use vstd::prelude::*;

verus! {

/// Capacity of the producer/consumer handoff channel. One unconsumed item at
/// a time: the enumerator blocks until the consumer drains it.
pub const GATEWAY_CAPACITY: usize = 1;

/// Whether a resource kind's instances belong to a namespace or exist
/// cluster-wide.
#[derive(Clone, Copy, PartialEq, Eq, Structural, Debug)]
pub enum ResourceScope {
    Cluster,
    Namespaced,
}

/// Identifies one resource kind of the API surface. Produced once per
/// discovered kind and shared read-only by all items of that kind.
#[derive(Clone, Debug)]
pub struct ResourceDescriptor {
    /// Resource group; empty for the core group.
    pub group: String,
    /// Group version.
    pub version: String,
    /// `apiVersion` of the resource: the version alone for the core group,
    /// `group/version` otherwise.
    pub api_version: String,
    /// Singular PascalCase name of the kind.
    pub kind: String,
    /// Plural name of the kind.
    pub plural: String,
    /// Scope of the kind's instances.
    pub scope: ResourceScope,
}

/// What the core reads of one instance of a resource kind: its identifying
/// metadata and whether server-managed bookkeeping fields are present. The
/// arbitrary remainder of the document stays with the caller.
#[derive(Clone, Debug)]
pub struct Item {
    /// The instance's name, when the server reports one.
    pub name: Option<String>,
    /// The instance's namespace; absent for cluster-scoped instances.
    pub namespace: Option<String>,
    /// The instance's unique id, when the server reports one.
    pub uid: Option<String>,
    /// Whether the instance still carries server-managed field metadata.
    pub has_managed_fields: bool,
}

/// The unit of transfer through the gateway: one instance paired with the
/// descriptor of its kind.
pub type DiscoveryItem = (Item, ResourceDescriptor);

/// Which namespaces a discovery run lists namespace-scoped kinds in.
#[derive(Clone, Debug)]
pub enum DiscoveryNamespaces {
    /// List across all namespaces with a single call per kind.
    All,
    /// List each named namespace separately. An empty list yields zero
    /// namespaced items, which is distinct from `All`.
    Explicit(Vec<String>),
}

/// The listing action the enumerator takes for one discovered resource kind.
#[derive(Clone, Debug)]
pub enum ListPlan {
    /// Do not list this kind at all.
    Skip,
    /// Issue one list call across the whole cluster.
    Cluster,
    /// Issue one list call with no namespace restriction.
    AllNamespaces,
    /// Issue one list call per named namespace, in order.
    EachNamespace(Vec<String>),
}

/// The error taxonomy of a discovery run.
#[derive(Clone, Debug)]
pub enum DiscoveryError {
    /// The initial API-surface query failed.
    DiscoveryFailure(String),
    /// A per-kind or per-namespace list call failed.
    ListFailure(String),
    /// The consumer became unavailable while the producer still had items.
    ChannelClosed,
    /// An item could not be rendered to its persisted form.
    SerializationFailure(String),
    /// Writing an item's output failed.
    PersistenceFailure(String),
}

impl DiscoveryError {
    /// Whether this error terminates the whole run. Discovery, listing and
    /// channel failures are fatal; serialization and persistence failures are
    /// reported per item and the run continues.
    pub fn is_fatal(&self) -> (b: bool)
        ensures
            b == (self is DiscoveryFailure || self is ListFailure || self is ChannelClosed),
    {
        match self {
            DiscoveryError::DiscoveryFailure(_) => true,
            DiscoveryError::ListFailure(_) => true,
            DiscoveryError::ChannelClosed => true,
            DiscoveryError::SerializationFailure(_) => false,
            DiscoveryError::PersistenceFailure(_) => false,
        }
    }
}

/// The immutable configuration of one discovery run, shared by the enumerator
/// and the consumer.
pub struct K8sDiscovery {
    /// Which namespaces namespace-scoped kinds are listed in.
    pub namespaces: DiscoveryNamespaces,
    /// Whether cluster-scoped kinds are listed at all.
    pub include_global_resources: bool,
    /// Exact-match ignore keys; an item whose kind derives any of them is
    /// suppressed before emission.
    pub ignore_resources: Vec<String>,
    /// The file-name template, with the placeholders `{kind}`, `{kind_l}`,
    /// `{v}`, `{group}`, `{namespace}` and `{name}`.
    pub formatter: String,
}

} // verus!
