//! The export formatter: resolve the configured file-name template for one
//! item, sanitize the resulting base name, and strip server-managed metadata
//! from items before they are persisted.

use vstd::prelude::*;

use crate::model::Item;
use crate::model::K8sDiscovery;
use crate::model::ResourceDescriptor;
use crate::text::finalize_path;
use crate::text::finalize_path_string;
use crate::text::lower_of;
use crate::text::replace_all;
use crate::text::replace_seq;
use crate::text::sanitize_segment;
use crate::text::sanitize_seq;
use crate::text::to_lowercase;

verus! {

/// A character of the alphanumeric set `0-9`, `A-Z`, `a-z`.
pub open spec fn is_alnum_char(c: char) -> bool {
    ('0' <= c && c <= '9') || ('A' <= c && c <= 'Z') || ('a' <= c && c <= 'z')
}

/// A freshly generated name placeholder: exactly 16 characters, all
/// alphanumeric.
pub open spec fn is_alnum16(s: Seq<char>) -> bool {
    s.len() == 16 && (forall|i: int| 0 <= i < s.len() ==> is_alnum_char(#[trigger] s[i]))
}

/// The name substituted for `{name}`: the item's name, else its unique id,
/// else the fresh placeholder `fresh`.
pub open spec fn effective_name(item: Item, fresh: Seq<char>) -> Seq<char> {
    match item.name {
        Option::Some(n) => n@,
        Option::None => match item.uid {
            Option::Some(u) => u@,
            Option::None => fresh,
        },
    }
}

/// The value substituted for `{namespace}`: the item's namespace, or the
/// literal cluster-scope marker when it has none.
pub open spec fn effective_namespace(item: Item) -> Seq<char> {
    match item.namespace {
        Option::Some(ns) => ns@,
        Option::None => "_cluster"@,
    }
}

/// The template with its six placeholders substituted, one after the other,
/// in this fixed order. The values substituted for `{namespace}` and
/// `{name}` come from per-item free text the server controls, so they are
/// sanitized before substitution: no character of them — in particular no
/// path separator — can form path structure, wherever the template places
/// them. The other four placeholders are resolved from the discovered API
/// surface and substituted as they are.
pub open spec fn substituted(
    fmt: Seq<char>,
    res: ResourceDescriptor,
    item: Item,
    fresh: Seq<char>,
) -> Seq<char> {
    replace_seq(
        replace_seq(
            replace_seq(
                replace_seq(
                    replace_seq(replace_seq(fmt, "{kind}"@, res.kind@), "{kind_l}"@, lower_of(res.kind@)),
                    "{v}"@,
                    res.version@,
                ),
                "{group}"@,
                res.group@,
            ),
            "{namespace}"@,
            sanitize_seq(effective_namespace(item)),
        ),
        "{name}"@,
        sanitize_seq(effective_name(item, fresh)),
    )
}

/// The relative path resolved for one item under configuration `cfg`: the
/// substituted template with its final segment sanitized.
pub open spec fn file_path_spec(
    cfg: K8sDiscovery,
    res: ResourceDescriptor,
    item: Item,
    fresh: Seq<char>,
) -> Seq<char> {
    finalize_path(substituted(cfg.formatter@, res, item, fresh))
}

/// Relies on rand's `Alphanumeric` distribution: `sample_string` returns a
/// string of exactly the requested number of characters, each drawn from
/// `A-Z`, `a-z`, `0-9`.
#[verifier::external_body]
fn fresh_alnum16() -> (r: String)
    ensures
        is_alnum16(r@),
{
    rand::distr::SampleString::sample_string(&rand::distr::Alphanumeric, &mut rand::rng(), 16)
}

impl K8sDiscovery {
    /// The relative output path for one item: the configured template with
    /// `{kind}`, `{kind_l}`, `{v}`, `{group}`, `{namespace}` and `{name}`
    /// substituted, and the final path segment sanitized. An item without a
    /// name falls back to its unique id, and without either to a fresh
    /// 16-character alphanumeric placeholder; an absent namespace becomes the
    /// literal cluster-scope marker.
    ///
    /// The namespace and the name are per-item free text, so they are
    /// sanitized before substitution: whatever segments the template places
    /// them in, no character of them — in particular no path separator —
    /// survives outside the allowed set. The template's own literal
    /// separators and its operator-written directory segments pass through
    /// unchanged.
    pub fn format_file_name(&self, item: &Item, res: &ResourceDescriptor) -> (r: String)
        ensures
            exists|fresh: Seq<char>|
                #[trigger] is_alnum16(fresh) && r@ == file_path_spec(*self, *res, *item, fresh),
            item.name is Some || item.uid is Some ==> r@ == file_path_spec(
                *self,
                *res,
                *item,
                Seq::<char>::empty(),
            ),
    {
        let ghost fixed: bool = item.name is Some || item.uid is Some;
        let ghost mut fresh: Seq<char> = Seq::<char>::empty();
        let name_val: String = if let Option::Some(n) = &item.name {
            n.clone()
        } else if let Option::Some(u) = &item.uid {
            u.clone()
        } else {
            let f = fresh_alnum16();
            proof {
                fresh = f@;
            }
            f
        };
        let ns_val: &str = if let Option::Some(ns) = &item.namespace {
            ns.as_str()
        } else {
            "_cluster"
        };
        let kind_l = to_lowercase(res.kind.as_str());
        proof {
            reveal_strlit("{kind}");
            reveal_strlit("{kind_l}");
            reveal_strlit("{v}");
            reveal_strlit("{group}");
            reveal_strlit("{namespace}");
            reveal_strlit("{name}");
        }
        let t1 = replace_all(self.formatter.as_str(), "{kind}", res.kind.as_str());
        let t2 = replace_all(t1.as_str(), "{kind_l}", kind_l.as_str());
        let t3 = replace_all(t2.as_str(), "{v}", res.version.as_str());
        let t4 = replace_all(t3.as_str(), "{group}", res.group.as_str());
        let ns_clean = sanitize_segment(ns_val);
        let name_clean = sanitize_segment(name_val.as_str());
        let t5 = replace_all(t4.as_str(), "{namespace}", ns_clean.as_str());
        let t6 = replace_all(t5.as_str(), "{name}", name_clean.as_str());
        let r = finalize_path_string(t6.as_str());
        proof {
            assert(name_val@ == effective_name(*item, fresh));
            assert(r@ == file_path_spec(*self, *res, *item, fresh));
            if fixed {
                let w = Seq::<char>::new(16, |i: int| 'a');
                assert(is_alnum16(w));
                assert(effective_name(*item, w) == effective_name(*item, fresh));
                assert(effective_name(*item, Seq::<char>::empty()) == effective_name(
                    *item,
                    fresh,
                ));
                assert(r@ == file_path_spec(*self, *res, *item, w));
            } else {
                assert(is_alnum16(fresh));
            }
        }
        r
    }

    /// A copy of `item` with the server-managed field metadata stripped and
    /// everything the core reads left untouched. The given item itself is not
    /// modified.
    #[allow(unused_variables)]
    pub fn sanitize_item(&self, item: &Item, res: &ResourceDescriptor) -> (r: Item)
        ensures
            r.name == item.name,
            r.namespace == item.namespace,
            r.uid == item.uid,
            !r.has_managed_fields,
    {
        Item {
            name: clone_opt_string(&item.name),
            namespace: clone_opt_string(&item.namespace),
            uid: clone_opt_string(&item.uid),
            has_managed_fields: false,
        }
    }
}

/// Path resolution is deterministic for an item that carries a name or a
/// unique id: the resolved path is a function of the template, the item and
/// the descriptor alone, whatever fresh placeholders two calls may draw, so
/// repeated calls yield the same path.
pub proof fn lemma_path_resolution_deterministic(
    cfg: K8sDiscovery,
    res: ResourceDescriptor,
    item: Item,
    fresh1: Seq<char>,
    fresh2: Seq<char>,
)
    requires
        item.name is Some || item.uid is Some,
    ensures
        file_path_spec(cfg, res, item, fresh1) == file_path_spec(cfg, res, item, fresh2),
{
    assert(effective_name(item, fresh1) == effective_name(item, fresh2));
}

fn clone_opt_string(o: &Option<String>) -> (r: Option<String>)
    ensures
        r == *o,
{
    match o {
        Option::Some(s) => Option::Some(s.clone()),
        Option::None => Option::None,
    }
}

} // verus!
