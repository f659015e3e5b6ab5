//! The normalized model: a tree of modules holding resources, each with its
//! pending change.

use vstd::prelude::*;

use crate::json::Jv;
use crate::json::obj_has;
use crate::json::obj_has_str;
use crate::json::obj_str;
use crate::json::jmodel;
use crate::json::parsed_json;
use crate::json::value_clone;
use crate::json::value_object;
use crate::json::value_string;
use crate::json::value_null;
use crate::strutil::str_eq;
use vstd::string::StringExecFns;

verus! {

broadcast use vstd::std_specs::vec::group_vec_axioms, vstd::map::group_map_axioms;

/// The discrete effect of applying a change to a resource.
#[derive(Clone, Copy, Debug, PartialEq, Eq, Structural)]
pub enum ChangeAction {
    Noop,
    Create,
    Delete,
    Update,
    Replace,
}

/// The classification of an ordered sequence of action tokens.
///
/// The two-token delete/create pairs (in either order) mean the resource is
/// replaced; the three single recognized tokens map to their own kind; every
/// other sequence, the empty one and unrecognized future vocabularies
/// included, degrades to `Noop` so that an unfamiliar plan still analyzes.
pub open spec fn classify_spec(a: Seq<Seq<char>>) -> ChangeAction {
    if a.len() == 2 && ((a[0] == "delete"@ && a[1] == "create"@) || (a[0] == "create"@
        && a[1] == "delete"@)) {
        ChangeAction::Replace
    } else if a.len() == 1 && a[0] == "create"@ {
        ChangeAction::Create
    } else if a.len() == 1 && a[0] == "delete"@ {
        ChangeAction::Delete
    } else if a.len() == 1 && a[0] == "update"@ {
        ChangeAction::Update
    } else {
        ChangeAction::Noop
    }
}

/// The views of a sequence of string slices.
pub open spec fn str_views(s: Seq<&str>) -> Seq<Seq<char>> {
    Seq::new(s.len(), |i: int| s[i]@)
}

impl ChangeAction {
    /// Maps a raw ordered action-token sequence to one change kind.
    pub fn from_actions(actions: &[&str]) -> (r: ChangeAction)
        ensures
            r == classify_spec(str_views(actions@)),
    {
        if actions.len() == 1 {
            if str_eq(actions[0], "create") {
                ChangeAction::Create
            } else if str_eq(actions[0], "delete") {
                ChangeAction::Delete
            } else if str_eq(actions[0], "update") {
                ChangeAction::Update
            } else {
                ChangeAction::Noop
            }
        } else if actions.len() == 2 {
            let del_then_create = str_eq(actions[0], "delete") && str_eq(actions[1], "create");
            let create_then_del = str_eq(actions[0], "create") && str_eq(actions[1], "delete");
            if del_then_create || create_then_del {
                ChangeAction::Replace
            } else {
                ChangeAction::Noop
            }
        } else {
            ChangeAction::Noop
        }
    }
}

/// Every classification the classifier can yield, stated once for all
/// sequences: `Replace`, `Create`, `Delete` and `Update` each come from
/// exactly the listed token sequences, and everything else is `Noop`.
pub proof fn lemma_classify_exact(a: Seq<Seq<char>>)
    ensures
        classify_spec(a) == ChangeAction::Replace <==> (a =~= seq!["delete"@, "create"@] || a
            =~= seq!["create"@, "delete"@]),
        classify_spec(a) == ChangeAction::Create <==> a =~= seq!["create"@],
        classify_spec(a) == ChangeAction::Delete <==> a =~= seq!["delete"@],
        classify_spec(a) == ChangeAction::Update <==> a =~= seq!["update"@],
        classify_spec(a) == ChangeAction::Noop <==> !(a =~= seq!["delete"@, "create"@] || a
            =~= seq!["create"@, "delete"@] || a =~= seq!["create"@] || a =~= seq!["delete"@] || a
            =~= seq!["update"@]),
{
    reveal_strlit("create");
    reveal_strlit("delete");
    reveal_strlit("update");
    assert("create"@[0] == 'c' && "delete"@[0] == 'd' && "update"@[0] == 'u');
}

/// The abstract value of a [`Change`].
#[verifier::ext_equal]
pub struct ChangeView {
    pub before: Jv,
    pub after: Jv,
    pub action: ChangeAction,
}

/// The pending change of one resource: the attribute state before and after
/// applying it, and its discrete kind.
pub struct Change {
    before: serde_json::Value,
    after: serde_json::Value,
    action: ChangeAction,
}

impl View for Change {
    type V = ChangeView;

    closed spec fn view(&self) -> ChangeView {
        ChangeView { before: jmodel(self.before), after: jmodel(self.after), action: self.action }
    }
}

/// The default change: nothing known before or after, and no operation.
pub open spec fn default_change() -> ChangeView {
    ChangeView { before: Jv::JNull, after: Jv::JNull, action: ChangeAction::Noop }
}

impl Change {
    pub fn before(&self) -> (r: &serde_json::Value)
        ensures
            jmodel(*r) == self@.before,
    {
        &self.before
    }

    pub fn after(&self) -> (r: &serde_json::Value)
        ensures
            jmodel(*r) == self@.after,
    {
        &self.after
    }

    pub fn action(&self) -> (r: &ChangeAction)
        ensures
            *r == self@.action,
    {
        &self.action
    }

    pub fn set_before(&mut self, v: serde_json::Value)
        ensures
            final(self)@ == (ChangeView { before: jmodel(v), ..old(self)@ }),
    {
        self.before = v;
    }

    pub fn set_after(&mut self, v: serde_json::Value)
        ensures
            final(self)@ == (ChangeView { after: jmodel(v), ..old(self)@ }),
    {
        self.after = v;
    }

    pub fn set_action(&mut self, a: ChangeAction)
        ensures
            final(self)@ == (ChangeView { action: a, ..old(self)@ }),
    {
        self.action = a;
    }
}

impl Default for Change {
    fn default() -> (r: Self)
        ensures
            r@ == default_change(),
    {
        Change { before: value_null(), after: value_null(), action: ChangeAction::Noop }
    }
}

/// The abstract value of a [`Resource`].
#[verifier::ext_equal]
pub struct ResourceView {
    pub id: Seq<char>,
    pub change: ChangeView,
}

/// One normalized resource: its plan-unique address and its pending change.
pub struct Resource {
    id: String,
    change: Change,
}

impl View for Resource {
    type V = ResourceView;

    closed spec fn view(&self) -> ResourceView {
        ResourceView { id: self.id@, change: self.change@ }
    }
}

impl Resource {
    /// A fresh resource under the given address, with the default change.
    pub fn new(id: &str) -> (r: Self)
        ensures
            r@ == (ResourceView { id: id@, change: default_change() }),
    {
        Resource { id: String::from_str(id), change: Change::default() }
    }

    pub fn id(&self) -> (r: &String)
        ensures
            r@ == self@.id,
    {
        &self.id
    }

    pub fn change(&self) -> (r: &Change)
        ensures
            r@ == self@.change,
    {
        &self.change
    }

    /// Replaces the resource's change.
    pub fn set_change(&mut self, c: Change)
        ensures
            final(self)@ == (ResourceView { change: c@, ..old(self)@ }),
    {
        self.change = c;
    }
}

/// The abstract value of a [`Module`].
#[verifier::ext_equal]
pub struct ModuleView {
    pub id: Seq<char>,
    pub resources: Seq<ResourceView>,
    pub modules: Seq<ModuleView>,
}

/// A normalized grouping of resources, mirroring the configuration's module
/// tree. Nested modules are kept in the shape for forward extension, though
/// the analyzer only ever fills the root today.
pub struct Module {
    id: String,
    resources: Vec<Resource>,
    modules: Vec<Module>,
}

/// The abstract value of a module tree.
pub closed spec fn module_view(m: Module) -> ModuleView
    decreases m,
{
    ModuleView {
        id: m.id@,
        resources: Seq::new(m.resources@.len(), |i: int| m.resources@[i]@),
        modules: modules_view(m.modules@),
    }
}

/// The abstract values of a list of module trees.
pub closed spec fn modules_view(ms: Seq<Module>) -> Seq<ModuleView>
    decreases ms,
{
    if ms.len() == 0 {
        Seq::empty()
    } else {
        seq![module_view(ms[0])] + modules_view(ms.drop_first())
    }
}

/// A module list's abstract value is the abstract value of each module.
pub proof fn lemma_modules_view(ms: Seq<Module>)
    ensures
        modules_view(ms).len() == ms.len(),
        forall|i: int| 0 <= i < ms.len() ==> modules_view(ms)[i] == module_view(ms[i]),
    decreases ms.len(),
{
    if ms.len() > 0 {
        lemma_modules_view(ms.drop_first());
    }
}

impl View for Module {
    type V = ModuleView;

    closed spec fn view(&self) -> ModuleView {
        module_view(*self)
    }
}

impl Module {
    /// A fresh module under the given identifier, with no resources and no
    /// nested modules.
    pub fn new(id: &str) -> (r: Self)
        ensures
            r@ == (ModuleView { id: id@, resources: Seq::<ResourceView>::empty(), modules: Seq::<
                ModuleView,
            >::empty() }),
    {
        let r = Module { id: String::from_str(id), resources: Vec::new(), modules: Vec::new() };
        proof {
            assert(r@.resources =~= Seq::<ResourceView>::empty());
            assert(r@.modules =~= Seq::<ModuleView>::empty());
        }
        r
    }

    pub fn id(&self) -> (r: &String)
        ensures
            r@ == self@.id,
    {
        &self.id
    }

    pub fn resources(&self) -> (r: &Vec<Resource>)
        ensures
            r@.len() == self@.resources.len(),
            forall|i: int| 0 <= i < r@.len() ==> r@[i]@ == self@.resources[i],
    {
        &self.resources
    }

    /// Appends a resource at the end of the module's resource list.
    pub fn push_resource(&mut self, r: Resource)
        ensures
            final(self)@ == (ModuleView {
                resources: old(self)@.resources.push(r@),
                ..old(self)@
            }),
    {
        self.resources.push(r);
        proof {
            assert(self@.resources =~= old(self)@.resources.push(r@));
            assert(self@.modules =~= old(self)@.modules);
        }
    }
}

impl Default for Module {
    /// The default module is the empty root module.
    fn default() -> (r: Self)
        ensures
            r@ == (ModuleView { id: "root"@, resources: Seq::<ResourceView>::empty(), modules: Seq::<
                ModuleView,
            >::empty() }),
    {
        Module::new("root")
    }
}

// The serialized form of the model: a JSON tree with the fields `id`,
// `resources` (each with `id` and `change`; a change with `before`, `after`
// and `action` as one of the five action names) and `modules`. Reading the
// form back tolerates omitted collections and omitted change fields, which
// take their defaults, and ignores unknown fields.

/// Why a serialized model was refused.
#[derive(Debug)]
pub enum ModelReadError {
    /// The text is not a valid JSON document.
    Syntax,
    /// A required field is missing or has the wrong shape; carries the
    /// field's path through the document (empty when the refused value is
    /// the record itself).
    Structure { field: String },
}

/// Prefixes a structure error's field path with the record field it lies
/// under; an empty path names the record itself. Other errors pass through.
fn read_err_in_field(outer: &str, e: ModelReadError) -> (r: ModelReadError)
    ensures
        e is Structure ==> r is Structure,
        !(e is Structure) ==> r == e,
{
    match e {
        ModelReadError::Structure { field } => {
            if field.as_str().unicode_len() == 0 {
                ModelReadError::Structure { field: String::from_str(outer) }
            } else {
                ModelReadError::Structure {
                    field: crate::strutil::nested_field(outer, field.as_str()),
                }
            }
        },
        other => other,
    }
}

/// Prefixes a structure error's field path with the collection element it
/// lies in. Other errors pass through.
fn read_err_at_index(outer: &str, index: usize, e: ModelReadError) -> (r: ModelReadError)
    ensures
        e is Structure ==> r is Structure,
        !(e is Structure) ==> r == e,
{
    match e {
        ModelReadError::Structure { field } => ModelReadError::Structure {
            field: crate::strutil::indexed_field(outer, index, field.as_str()),
        },
        other => other,
    }
}

/// The serialized name of a change action.
pub open spec fn action_name(a: ChangeAction) -> Seq<char> {
    match a {
        ChangeAction::Noop => "Noop"@,
        ChangeAction::Create => "Create"@,
        ChangeAction::Delete => "Delete"@,
        ChangeAction::Update => "Update"@,
        ChangeAction::Replace => "Replace"@,
    }
}

/// The serialized form of a change.
pub open spec fn change_jv(c: ChangeView) -> Jv {
    Jv::JObj {
        fields: Map::empty().insert("before"@, c.before).insert("after"@, c.after).insert(
            "action"@,
            (Jv::JStr { s: action_name(c.action) }),
        ),
    }
}

/// The serialized form of a resource.
pub open spec fn resource_jv(r: ResourceView) -> Jv {
    Jv::JObj {
        fields: Map::empty().insert("id"@, (Jv::JStr { s: r.id })).insert(
            "change"@,
            change_jv(r.change),
        ),
    }
}

/// The serialized form of a module tree.
pub open spec fn module_jv(m: ModuleView) -> Jv
    decreases m,
{
    Jv::JObj {
        fields: Map::empty().insert("id"@, (Jv::JStr { s: m.id })).insert(
            "resources"@,
            (Jv::JArr { items: Seq::new(m.resources.len(), |i: int| resource_jv(m.resources[i])) }),
        ).insert("modules"@, (Jv::JArr { items: modules_jv(m.modules) })),
    }
}

/// The serialized forms of a list of module trees.
pub open spec fn modules_jv(ms: Seq<ModuleView>) -> Seq<Jv>
    decreases ms,
{
    if ms.len() == 0 {
        Seq::empty()
    } else {
        seq![module_jv(ms[0])] + modules_jv(ms.drop_first())
    }
}

/// Whether a JSON value is one of the five action names.
pub open spec fn action_wf_jv(j: Jv) -> bool {
    j is JStr && (j->s == "Noop"@ || j->s == "Create"@ || j->s == "Delete"@ || j->s == "Update"@
        || j->s == "Replace"@)
}

/// The action a JSON string names.
pub open spec fn action_of_jv(j: Jv) -> ChangeAction {
    if j->s == "Create"@ {
        ChangeAction::Create
    } else if j->s == "Delete"@ {
        ChangeAction::Delete
    } else if j->s == "Update"@ {
        ChangeAction::Update
    } else if j->s == "Replace"@ {
        ChangeAction::Replace
    } else {
        ChangeAction::Noop
    }
}

/// Whether a JSON value reads back as a change: an object whose `action`,
/// when present, names an action; `before` and `after` may hold anything and
/// default to null when absent.
pub open spec fn change_wf_jv(j: Jv) -> bool {
    j is JObj && (obj_has(j, "action"@) ==> action_wf_jv(j->fields["action"@]))
}

pub open spec fn change_of_jv(j: Jv) -> ChangeView {
    ChangeView {
        before: if obj_has(j, "before"@) {
            j->fields["before"@]
        } else {
            Jv::JNull
        },
        after: if obj_has(j, "after"@) {
            j->fields["after"@]
        } else {
            Jv::JNull
        },
        action: if obj_has(j, "action"@) {
            action_of_jv(j->fields["action"@])
        } else {
            ChangeAction::Noop
        },
    }
}

/// Whether a JSON value reads back as a resource: a required `id` string and
/// an optional well-formed `change`.
pub open spec fn resource_wf_jv(j: Jv) -> bool {
    obj_has_str(j, "id"@) && (obj_has(j, "change"@) ==> change_wf_jv(j->fields["change"@]))
}

pub open spec fn resource_of_jv(j: Jv) -> ResourceView {
    ResourceView {
        id: obj_str(j, "id"@),
        change: if obj_has(j, "change"@) {
            change_of_jv(j->fields["change"@])
        } else {
            default_change()
        },
    }
}

/// Whether a JSON value reads back as a module tree: a required `id` string,
/// an optional array of well-formed resources, and an optional array of
/// well-formed nested modules.
pub open spec fn module_wf_jv(j: Jv) -> bool
    decreases j,
{
    &&& obj_has_str(j, "id"@)
    &&& (obj_has(j, "resources"@) ==> j->fields["resources"@] is JArr && forall|i: int|
        0 <= i < j->fields["resources"@]->items.len() ==> resource_wf_jv(
            #[trigger] j->fields["resources"@]->items[i],
        ))
    &&& (obj_has(j, "modules"@) ==> j->fields["modules"@] is JArr && forall|i: int|
        0 <= i < j->fields["modules"@]->items.len() ==> module_wf_jv(
            #[trigger] j->fields["modules"@]->items[i],
        ))
}


/// The module view with nothing in it.
pub open spec fn empty_module_view() -> ModuleView {
    ModuleView { id: Seq::empty(), resources: Seq::empty(), modules: Seq::empty() }
}

pub open spec fn module_of_jv(j: Jv) -> ModuleView
    decreases j,
{
    ModuleView {
        id: obj_str(j, "id"@),
        resources: if obj_has(j, "resources"@) {
            Seq::new(
                j->fields["resources"@]->items.len(),
                |i: int| resource_of_jv(j->fields["resources"@]->items[i]),
            )
        } else {
            Seq::empty()
        },
        modules: if obj_has(j, "modules"@) && j->fields["modules"@] is JArr {
            Seq::new(
                j->fields["modules"@]->items.len(),
                |i: int|
                    if 0 <= i < j->fields["modules"@]->items.len() {
                        module_of_jv(j->fields["modules"@]->items[i])
                    } else {
                        empty_module_view()
                    },
            )
        } else {
            Seq::empty()
        },
    }
}

/// The serialized forms of each module in a list are the list's serialized
/// forms, element for element.
pub proof fn lemma_modules_jv(ms: Seq<ModuleView>)
    ensures
        modules_jv(ms).len() == ms.len(),
        forall|i: int| 0 <= i < ms.len() ==> modules_jv(ms)[i] == module_jv(ms[i]),
    decreases ms.len(),
{
    if ms.len() > 0 {
        lemma_modules_jv(ms.drop_first());
    }
}

/// The serialized name of an action.
fn action_string(a: &ChangeAction) -> (r: String)
    ensures
        r@ == action_name(*a),
{
    match a {
        ChangeAction::Noop => String::from_str("Noop"),
        ChangeAction::Create => String::from_str("Create"),
        ChangeAction::Delete => String::from_str("Delete"),
        ChangeAction::Update => String::from_str("Update"),
        ChangeAction::Replace => String::from_str("Replace"),
    }
}

/// The action a serialized name denotes, or a structure error for any other
/// text.
fn action_from_str(s: &str) -> (r: Result<ChangeAction, ModelReadError>)
    ensures
        r is Ok <==> action_wf_jv((Jv::JStr { s: s@ })),
        r matches Ok(a) ==> a == action_of_jv((Jv::JStr { s: s@ })),
        r matches Err(e) ==> e is Structure,
{
    proof {
        reveal_strlit("Noop");
        reveal_strlit("Create");
        reveal_strlit("Delete");
        reveal_strlit("Update");
        reveal_strlit("Replace");
    }
    if str_eq(s, "Create") {
        Ok(ChangeAction::Create)
    } else if str_eq(s, "Delete") {
        Ok(ChangeAction::Delete)
    } else if str_eq(s, "Update") {
        Ok(ChangeAction::Update)
    } else if str_eq(s, "Replace") {
        Ok(ChangeAction::Replace)
    } else if str_eq(s, "Noop") {
        Ok(ChangeAction::Noop)
    } else {
        Err(ModelReadError::Structure { field: String::from_str("action") })
    }
}

impl Change {
    /// The serialized JSON tree of this change.
    pub fn to_json_value(&self) -> (r: serde_json::Value)
        ensures
            jmodel(r) == change_jv(self@),
    {
        let mut pairs: Vec<(String, serde_json::Value)> = Vec::new();
        pairs.push((String::from_str("before"), value_clone(&self.before)));
        pairs.push((String::from_str("after"), value_clone(&self.after)));
        pairs.push((String::from_str("action"), value_string(action_string(&self.action))));
        let ghost ps = pairs@;
        let r = value_object(pairs);
        proof {
            reveal_with_fuel(crate::json::pairs_map, 4);
            assert(ps.drop_last().drop_last().drop_last() =~= Seq::<(
                String,
                serde_json::Value,
            )>::empty());
            assert(ps.drop_last().drop_last().last() == ps[0]);
            assert(ps.drop_last().last() == ps[1]);
            assert(jmodel(r) =~= change_jv(self@));
        }
        r
    }

    /// Reads a change back from its serialized JSON tree: an object whose
    /// `before`, `after` and `action` each default when absent, with other
    /// fields ignored.
    pub fn from_json_value(v: &serde_json::Value) -> (r: Result<Change, ModelReadError>)
        ensures
            r is Ok <==> change_wf_jv(jmodel(*v)),
            r matches Ok(c) ==> c@ == change_of_jv(jmodel(*v)),
            r matches Err(e) ==> e is Structure,
    {
        if !crate::json::value_is_object(v) {
            return Err(ModelReadError::Structure { field: String::new() });
        }
        let before = match crate::json::value_get(v, "before") {
            Some(x) => value_clone(x),
            None => value_null(),
        };
        let after = match crate::json::value_get(v, "after") {
            Some(x) => value_clone(x),
            None => value_null(),
        };
        let action = match crate::json::value_get(v, "action") {
            Some(x) => match crate::json::value_as_str(x) {
                Some(s) => action_from_str(s)?,
                None => {
                    return Err(ModelReadError::Structure { field: String::from_str("action") });
                },
            },
            None => ChangeAction::Noop,
        };
        let c = Change { before, after, action };
        proof {
            assert(c@ =~= change_of_jv(jmodel(*v)));
        }
        Ok(c)
    }
}

impl Resource {
    /// The serialized JSON tree of this resource.
    pub fn to_json_value(&self) -> (r: serde_json::Value)
        ensures
            jmodel(r) == resource_jv(self@),
    {
        let mut pairs: Vec<(String, serde_json::Value)> = Vec::new();
        pairs.push((String::from_str("id"), value_string(self.id.clone())));
        pairs.push((String::from_str("change"), self.change.to_json_value()));
        let ghost ps = pairs@;
        let r = value_object(pairs);
        proof {
            reveal_with_fuel(crate::json::pairs_map, 3);
            assert(ps.drop_last().drop_last() =~= Seq::<(String, serde_json::Value)>::empty());
            assert(ps.drop_last().last() == ps[0]);
            assert(jmodel(r) =~= resource_jv(self@));
        }
        r
    }

    /// Reads a resource back from its serialized JSON tree: a required `id`
    /// string and an optional change, defaulted when absent.
    pub fn from_json_value(v: &serde_json::Value) -> (r: Result<Resource, ModelReadError>)
        ensures
            r is Ok <==> resource_wf_jv(jmodel(*v)),
            r matches Ok(x) ==> x@ == resource_of_jv(jmodel(*v)),
            r matches Err(e) ==> e is Structure,
    {
        let id = match crate::json::value_get(v, "id") {
            Some(x) => match crate::json::value_as_str(x) {
                Some(s) => s.to_owned(),
                None => {
                    return Err(ModelReadError::Structure { field: String::from_str("id") });
                },
            },
            None => {
                return Err(ModelReadError::Structure { field: String::from_str("id") });
            },
        };
        let change = match crate::json::value_get(v, "change") {
            Some(x) => match Change::from_json_value(x) {
                Ok(c) => c,
                Err(e) => {
                    return Err(read_err_in_field("change", e));
                },
            },
            None => Change::default(),
        };
        let x = Resource { id, change };
        proof {
            assert(x@ =~= resource_of_jv(jmodel(*v)));
        }
        Ok(x)
    }
}

impl Module {
    /// The serialized JSON tree of this module: its id, its resources and its
    /// nested modules, each serialized in order.
    pub fn to_json_value(&self) -> (r: serde_json::Value)
        ensures
            jmodel(r) == module_jv(self@),
        decreases *self,
    {
        let mut resource_values: Vec<serde_json::Value> = Vec::new();
        let n = self.resources.len();
        let mut i: usize = 0;
        while i < n
            invariant
                i <= n,
                n == self.resources@.len(),
                resource_values@.len() == i,
                forall|k: int|
                    0 <= k < i ==> jmodel(resource_values@[k]) == resource_jv(
                        self.resources@[k]@,
                    ),
            decreases n - i,
        {
            resource_values.push(self.resources[i].to_json_value());
            i = i + 1;
        }
        let mut module_values: Vec<serde_json::Value> = Vec::new();
        let mn = self.modules.len();
        let mut k: usize = 0;
        while k < mn
            invariant
                k <= mn,
                mn == self.modules@.len(),
                module_values@.len() == k,
                forall|t: int|
                    0 <= t < k ==> jmodel(module_values@[t]) == module_jv(module_view(
                        self.modules@[t],
                    )),
            decreases mn - k,
        {
            module_values.push(self.modules[k].to_json_value());
            k = k + 1;
        }
        let ghost rvs = resource_values@;
        let ghost mvs = module_values@;
        let mut pairs: Vec<(String, serde_json::Value)> = Vec::new();
        pairs.push((String::from_str("id"), value_string(self.id.clone())));
        pairs.push((String::from_str("resources"), crate::json::value_array(resource_values)));
        pairs.push((String::from_str("modules"), crate::json::value_array(module_values)));
        let ghost ps = pairs@;
        let r = value_object(pairs);
        proof {
            reveal_with_fuel(crate::json::pairs_map, 4);
            assert(ps.drop_last().drop_last().drop_last() =~= Seq::<(
                String,
                serde_json::Value,
            )>::empty());
            assert(ps.drop_last().drop_last().last() == ps[0]);
            assert(ps.drop_last().last() == ps[1]);
            lemma_modules_jv(self@.modules);
            lemma_modules_view(self.modules@);
            assert(crate::json::jmodels(rvs) =~= Seq::new(
                self@.resources.len(),
                |t: int| resource_jv(self@.resources[t]),
            ));
            assert(crate::json::jmodels(mvs) =~= modules_jv(self@.modules));
            assert(jmodel(r) =~= module_jv(self@));
        }
        r
    }

    /// Reads a module tree back from its serialized JSON tree: a required
    /// `id` string and the two collections, each defaulting to empty when
    /// absent.
    pub fn from_json_value(v: &serde_json::Value) -> (r: Result<Module, ModelReadError>)
        ensures
            r is Ok <==> module_wf_jv(jmodel(*v)),
            r matches Ok(m) ==> m@ == module_of_jv(jmodel(*v)),
            r matches Err(e) ==> e is Structure,
        decreases jmodel(*v),
    {
        let id = match crate::json::value_get(v, "id") {
            Some(x) => match crate::json::value_as_str(x) {
                Some(s) => s.to_owned(),
                None => {
                    return Err(ModelReadError::Structure { field: String::from_str("id") });
                },
            },
            None => {
                return Err(ModelReadError::Structure { field: String::from_str("id") });
            },
        };
        let mut resources: Vec<Resource> = Vec::new();
        match crate::json::value_get(v, "resources") {
            None => {},
            Some(x) => match crate::json::value_as_array(x) {
                None => {
                    return Err(ModelReadError::Structure { field: String::from_str("resources") });
                },
                Some(arr) => {
                    let n = arr.len();
                    let mut i: usize = 0;
                    while i < n
                        invariant
                            i <= n,
                            n == arr@.len(),
                            jmodel(*x) == (Jv::JArr { items: crate::json::jmodels(arr@) }),
                            obj_has(jmodel(*v), "resources"@),
                            jmodel(*v)->fields["resources"@] == jmodel(*x),
                            resources@.len() == i,
                            forall|t: int| 0 <= t < i ==> resource_wf_jv(jmodel(arr@[t])),
                            forall|t: int|
                                0 <= t < i ==> resources@[t]@ == resource_of_jv(jmodel(arr@[t])),
                        decreases n - i,
                    {
                        let c = match Resource::from_json_value(&arr[i]) {
                            Ok(c) => c,
                            Err(e) => {
                                proof {
                                    assert(jmodel(*v)->fields["resources"@]->items[i as int]
                                        == jmodel(arr@[i as int]));
                                    assert(!module_wf_jv(jmodel(*v)));
                                }
                                return Err(read_err_at_index("resources", i, e));
                            },
                        };
                        resources.push(c);
                        i = i + 1;
                    }
                },
            },
        }
        let mut modules: Vec<Module> = Vec::new();
        match crate::json::value_get(v, "modules") {
            None => {},
            Some(x) => match crate::json::value_as_array(x) {
                None => {
                    return Err(ModelReadError::Structure { field: String::from_str("modules") });
                },
                Some(arr) => {
                    let n = arr.len();
                    let mut i: usize = 0;
                    while i < n
                        invariant
                            i <= n,
                            n == arr@.len(),
                            jmodel(*x) == (Jv::JArr { items: crate::json::jmodels(arr@) }),
                            obj_has(jmodel(*v), "modules"@),
                            jmodel(*v)->fields["modules"@] == jmodel(*x),
                            modules@.len() == i,
                            forall|t: int| 0 <= t < i ==> module_wf_jv(jmodel(arr@[t])),
                            forall|t: int|
                                0 <= t < i ==> module_view(modules@[t]) == module_of_jv(
                                    jmodel(arr@[t]),
                                ),
                        decreases n - i,
                    {
                        proof {
                            assert(jmodel(*v)->fields["modules"@]->items[i as int] == jmodel(
                                arr@[i as int],
                            ));
                        }
                        let c = match Module::from_json_value(&arr[i]) {
                            Ok(c) => c,
                            Err(e) => {
                                proof {
                                    assert(!module_wf_jv(jmodel(*v)));
                                }
                                return Err(read_err_at_index("modules", i, e));
                            },
                        };
                        modules.push(c);
                        i = i + 1;
                    }
                },
            },
        }
        let m = Module { id, resources, modules };
        proof {
            lemma_modules_view(m.modules@);
            assert(m@.resources =~= module_of_jv(jmodel(*v)).resources);
            assert(m@.modules =~= module_of_jv(jmodel(*v)).modules);
            assert(m@ =~= module_of_jv(jmodel(*v)));
        }
        Ok(m)
    }

    /// Serializes the module tree as JSON text. The text, whenever it parses
    /// at all, parses back to the serialized tree, so reading it returns an
    /// equal module. Parse success itself is capped by the reader's
    /// recursion limit on extremely deep payloads.
    pub fn to_json(&self) -> (r: String)
        ensures
            parsed_json(r@) is Some ==> parsed_json(r@) == Some(module_jv(self@)),
    {
        let v = self.to_json_value();
        match crate::json::value_to_text(&v) {
            Ok(s) => s,
            Err(_) => String::new(),
        }
    }

    /// Reads a module tree from JSON text.
    pub fn from_json(s: &str) -> (r: Result<Module, ModelReadError>)
        ensures
            match r {
                Ok(m) => parsed_json(s@) matches Some(j) && module_wf_jv(j) && m@ == module_of_jv(
                    j,
                ),
                Err(ModelReadError::Syntax) => parsed_json(s@) is None,
                Err(ModelReadError::Structure { .. }) => parsed_json(s@) matches Some(j)
                    && !module_wf_jv(j),
            },
    {
        let v = match crate::json::parse_json_text(s) {
            Ok(v) => v,
            Err(_) => {
                return Err(ModelReadError::Syntax);
            },
        };
        Module::from_json_value(&v)
    }
}

/// Round trip of a change through its serialized form.
proof fn lemma_change_round_trip(c: ChangeView)
    ensures
        change_wf_jv(change_jv(c)),
        change_of_jv(change_jv(c)) == c,
{
    reveal_strlit("before");
    reveal_strlit("after");
    reveal_strlit("action");
    reveal_strlit("Noop");
    reveal_strlit("Create");
    reveal_strlit("Delete");
    reveal_strlit("Update");
    reveal_strlit("Replace");
    assert("before"@[0] == 'b' && "action"@[0] == 'a');
    assert("after"@[1] == 'f' && "action"@[1] == 'c');
    assert("Noop"@[0] == 'N' && "Create"@[0] == 'C' && "Delete"@[0] == 'D' && "Update"@[0] == 'U'
        && "Replace"@[0] == 'R');
    assert(change_of_jv(change_jv(c)) =~= c);
}

/// Round trip of a resource through its serialized form.
proof fn lemma_resource_round_trip(r: ResourceView)
    ensures
        resource_wf_jv(resource_jv(r)),
        resource_of_jv(resource_jv(r)) == r,
{
    reveal_strlit("id");
    reveal_strlit("change");
    assert("id"@[0] == 'i' && "change"@[0] == 'c');
    lemma_change_round_trip(r.change);
    assert(resource_of_jv(resource_jv(r)) =~= r);
}

/// The round-trip law: serializing any module tree and reading the
/// serialized tree back yields the same module, field for field.
pub proof fn lemma_module_round_trip(m: ModuleView)
    ensures
        module_wf_jv(module_jv(m)),
        module_of_jv(module_jv(m)) == m,
    decreases m,
{
    reveal_strlit("id");
    reveal_strlit("resources");
    reveal_strlit("modules");
    assert("id"@[0] == 'i' && "resources"@[0] == 'r' && "modules"@[0] == 'm');
    let j = module_jv(m);
    lemma_modules_jv(m.modules);
    assert forall|i: int| 0 <= i < m.resources.len() implies resource_wf_jv(
        #[trigger] j->fields["resources"@]->items[i],
    ) && resource_of_jv(j->fields["resources"@]->items[i]) == m.resources[i] by {
        lemma_resource_round_trip(m.resources[i]);
    }
    assert forall|i: int| 0 <= i < m.modules.len() implies module_wf_jv(
        #[trigger] j->fields["modules"@]->items[i],
    ) && module_of_jv(j->fields["modules"@]->items[i]) == m.modules[i] by {
        lemma_module_round_trip(m.modules[i]);
    }
    assert(module_wf_jv(j));
    assert(module_of_jv(j).resources =~= m.resources);
    assert(module_of_jv(j).modules =~= m.modules);
    assert(module_of_jv(j) =~= m);
}

} // verus!
