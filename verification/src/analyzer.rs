//! The plan-to-model analyzer: walks the configuration's resource
//! declarations in order, joins each against the computed change under the
//! same address, and builds the normalized module tree.

use vstd::prelude::*;

use crate::json::value_clone;
use crate::model::Change;
use crate::model::ChangeAction;
use crate::model::ChangeView;
use crate::model::Module;
use crate::model::ModuleView;
use crate::model::Resource;
use crate::model::ResourceView;
use crate::model::classify_spec;
use crate::model::default_change;
use crate::model::str_views;
use crate::terraform::tfplan::ResourceChange;
use crate::terraform::tfplan::ResourceChangeView;
use crate::terraform::tfplan::TfPlan;
use crate::terraform::tfplan::TfPlanView;

verus! {

/// The change entry recorded for an address: the latest entry wins when the
/// same address occurs more than once.
pub open spec fn find_change(changes: Seq<ResourceChangeView>, addr: Seq<char>) -> Option<
    ResourceChangeView,
>
    decreases changes.len(),
{
    if changes.len() == 0 {
        None
    } else if changes.last().address == addr {
        Some(changes.last())
    } else {
        find_change(changes.drop_last(), addr)
    }
}

/// The normalized change of a resource, given the change entry found for its
/// address: the entry's payloads and classified actions, or the default
/// change when there is no entry.
pub open spec fn analyzed_change(entry: Option<ResourceChangeView>) -> ChangeView {
    match entry {
        None => default_change(),
        Some(c) => ChangeView {
            before: c.change.before,
            after: c.change.after,
            action: classify_spec(c.change.actions),
        },
    }
}

/// The normalized model of a plan: a root module listing the configuration's
/// root-module resources in declaration order, each joined by address
/// against the plan's change list. Nested configuration modules are not
/// descended into.
pub open spec fn analyze_spec(p: TfPlanView) -> ModuleView {
    ModuleView {
        id: "root"@,
        resources: Seq::new(
            p.configuration.root_module.resources.len(),
            |i: int| ResourceView {
                id: p.configuration.root_module.resources[i].address,
                change: analyzed_change(
                    find_change(
                        p.resource_changes,
                        p.configuration.root_module.resources[i].address,
                    ),
                ),
            },
        ),
        modules: Seq::empty(),
    }
}

/// Finds the change entry for an address, scanning so that the latest entry
/// under the address wins.
fn lookup_change<'a>(changes: &'a Vec<ResourceChange>, addr: &String) -> (r: Option<
    &'a ResourceChange,
>)
    ensures
        match r {
            Some(c) => find_change(
                Seq::new(changes@.len(), |i: int| changes@[i]@),
                addr@,
            ) == Some(c@),
            None => find_change(Seq::new(changes@.len(), |i: int| changes@[i]@), addr@) is None,
        },
{
    let ghost all = Seq::new(changes@.len(), |i: int| changes@[i]@);
    let mut i: usize = changes.len();
    proof {
        assert(all.take(i as int) =~= all);
    }
    while i > 0
        invariant
            i <= changes@.len(),
            all == Seq::new(changes@.len(), |k: int| changes@[k]@),
            find_change(all, addr@) == find_change(all.take(i as int), addr@),
        decreases i,
    {
        i = i - 1;
        if crate::strutil::str_eq(changes[i].address().as_str(), addr.as_str()) {
            proof {
                assert(all.take(i + 1 as int).last() == changes@[i as int]@);
                assert(find_change(all.take(i + 1 as int), addr@) == Some(changes@[i as int]@));
            }
            return Some(&changes[i]);
        }
        proof {
            assert(all.take(i + 1 as int).last() == changes@[i as int]@);
            assert(all.take(i + 1 as int).drop_last() =~= all.take(i as int));
        }
    }
    proof {
        assert(all.take(0) =~= Seq::<ResourceChangeView>::empty());
    }
    None
}

/// Builds the normalized module for a plan: the root module's resources in
/// configuration order, each with the change found under its address, or the
/// default change when none is recorded.
pub fn analyze(plan: &TfPlan) -> (m: Module)
    ensures
        m@ == analyze_spec(plan@),
{
    let mut root = Module::new("root");
    let configuration = plan.configuration();
    let resources = configuration.root_module().resources();
    let changes = plan.resource_changes();
    let ghost changes_view = plan@.resource_changes;
    proof {
        assert(changes_view =~= Seq::new(changes@.len(), |i: int| changes@[i]@));
    }
    let n = resources.len();
    let mut i: usize = 0;
    while i < n
        invariant
            i <= n,
            n == plan@.configuration.root_module.resources.len(),
            resources@.len() == n,
            forall|j: int|
                0 <= j < n ==> resources@[j]@ == plan@.configuration.root_module.resources[j],
            changes@.len() == changes_view.len(),
            forall|j: int| 0 <= j < changes_view.len() ==> changes@[j]@ == changes_view[j],
            changes_view == Seq::new(changes@.len(), |k: int| changes@[k]@),
            changes_view == plan@.resource_changes,
            root@.id == "root"@,
            root@.modules == Seq::<ModuleView>::empty(),
            root@.resources.len() == i,
            forall|j: int| 0 <= j < i ==> root@.resources[j] == analyze_spec(plan@).resources[j],
        decreases n - i,
    {
        let resource = &resources[i];
        let mut output = Resource::new(resource.address().as_str());
        match lookup_change(changes, resource.address()) {
            Some(entry) => {
                let mut change = Change::default();
                change.set_before(value_clone(entry.change().before()));
                change.set_after(value_clone(entry.change().after()));
                let tokens = entry.change().actions();
                let mut token_refs: Vec<&str> = Vec::new();
                let tn = tokens.len();
                let mut t: usize = 0;
                while t < tn
                    invariant
                        t <= tn,
                        tn == tokens@.len(),
                        token_refs@.len() == t,
                        forall|k: int| 0 <= k < t ==> token_refs@[k]@ == tokens@[k]@,
                    decreases tn - t,
                {
                    token_refs.push(tokens[t].as_str());
                    t = t + 1;
                }
                proof {
                    assert(str_views(token_refs@) =~= crate::terraform::tfplan::string_views(
                        tokens@,
                    ));
                }
                change.set_action(ChangeAction::from_actions(token_refs.as_slice()));
                output.set_change(change);
                proof {
                    assert(output@.change =~= analyzed_change(
                        find_change(plan@.resource_changes, resource@.address),
                    ));
                }
            },
            None => {
                proof {
                    assert(output@.change =~= analyzed_change(
                        find_change(plan@.resource_changes, resource@.address),
                    ));
                }
            },
        }
        root.push_resource(output);
        proof {
            assert(root@.resources[i as int] =~= analyze_spec(plan@).resources[i as int]);
        }
        i = i + 1;
    }
    proof {
        assert(root@.resources =~= analyze_spec(plan@).resources);
        assert(root@ =~= analyze_spec(plan@));
    }
    root
}

// What holds of every analyzed plan.

/// A plan whose configuration declares no resources analyzes to a module
/// with an empty resource list, whatever its change list holds.
pub proof fn lemma_empty_configuration(p: TfPlanView)
    requires
        p.configuration.root_module.resources.len() == 0,
    ensures
        analyze_spec(p).resources =~= Seq::<ResourceView>::empty(),
{
}

/// A configuration resource whose address has no entry in the change list
/// comes out with the default change: no payloads and no operation.
pub proof fn lemma_unmatched_resource_defaults(p: TfPlanView, i: int)
    requires
        0 <= i < p.configuration.root_module.resources.len(),
        find_change(p.resource_changes, p.configuration.root_module.resources[i].address)
            is None,
    ensures
        analyze_spec(p).resources[i].change == default_change(),
{
}

/// The analyzed module lists exactly the configuration's resources, under
/// their addresses, in declaration order — however the change list is
/// ordered.
pub proof fn lemma_order_preserved(p: TfPlanView)
    ensures
        analyze_spec(p).resources.len() == p.configuration.root_module.resources.len(),
        forall|i: int|
            0 <= i < p.configuration.root_module.resources.len() ==> analyze_spec(
                p,
            ).resources[i].id == p.configuration.root_module.resources[i].address,
{
}

/// Addresses are unique across a plan's change list (a change cannot exist
/// twice for one resource), and under that invariant the join finds exactly
/// the entry that carries the address.
pub proof fn lemma_unique_address_lookup(changes: Seq<ResourceChangeView>, k: int)
    requires
        0 <= k < changes.len(),
        forall|a: int, b: int|
            0 <= a < b < changes.len() ==> changes[a].address != changes[b].address,
    ensures
        find_change(changes, changes[k].address) == Some(changes[k]),
    decreases changes.len(),
{
    if k < changes.len() - 1 {
        lemma_unique_address_lookup(changes.drop_last(), k);
    }
}

/// Any change entry whose address matches a configuration resource hands its
/// payloads through verbatim and its classified action onto that resource,
/// under the plan invariant that addresses are unique in the change list.
pub proof fn lemma_entry_payloads_copied(p: TfPlanView, i: int, k: int)
    requires
        0 <= i < p.configuration.root_module.resources.len(),
        0 <= k < p.resource_changes.len(),
        p.resource_changes[k].address == p.configuration.root_module.resources[i].address,
        forall|a: int, b: int|
            0 <= a < b < p.resource_changes.len() ==> p.resource_changes[a].address
                != p.resource_changes[b].address,
    ensures
        analyze_spec(p).resources[i].change.before == p.resource_changes[k].change.before,
        analyze_spec(p).resources[i].change.after == p.resource_changes[k].change.after,
        analyze_spec(p).resources[i].change.action == classify_spec(
            p.resource_changes[k].change.actions,
        ),
{
    lemma_unique_address_lookup(p.resource_changes, k);
}

/// A change entry found in the join always hands its payloads through
/// verbatim, whatever its action tokens classify to.
pub proof fn lemma_matched_resource_payloads(p: TfPlanView, i: int, c: ResourceChangeView)
    requires
        0 <= i < p.configuration.root_module.resources.len(),
        find_change(p.resource_changes, p.configuration.root_module.resources[i].address)
            == Some(c),
    ensures
        analyze_spec(p).resources[i].change.before == c.change.before,
        analyze_spec(p).resources[i].change.after == c.change.after,
        analyze_spec(p).resources[i].change.action == classify_spec(c.change.actions),
{
}

} // verus!
