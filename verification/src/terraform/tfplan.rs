//! The typed representation of the planning tool's plan document, and the
//! verified reader that builds it from a parsed JSON tree.
//!
//! The document's versioning contract: unrecognized fields are ignored, so a
//! minor-version bump still reads; a major version other than `1` is
//! rejected outright before the rest of the document is looked at. Required
//! fields that are missing or of the wrong shape are structure errors; the
//! optional resource collections default to empty when absent.

use vstd::prelude::*;
use vstd::string::StrSliceExecFns;
use vstd::string::StringExecFns;

use crate::json::Jv;
use crate::json::obj_has;
use crate::json::obj_has_str;
use crate::json::obj_str;
use crate::json::jmodel;
use crate::json::parsed_json;
use crate::json::parse_json_text;
use crate::json::value_clone;
use crate::json::value_get;
use crate::json::value_as_array;
use crate::json::value_as_str;

verus! {

/// Why a plan document was refused.
#[derive(Debug)]
pub enum PlanError {
    /// The text is not a valid JSON document.
    Syntax,
    /// The document declares a major `format_version` other than `1`.
    UnsupportedVersion,
    /// A required field is missing or has the wrong shape; carries the
    /// field's path through the document (empty when the refused value is
    /// the record itself).
    Structure { field: String },
}

/// The views of a sequence of owned strings.
pub open spec fn string_views(s: Seq<String>) -> Seq<Seq<char>> {
    Seq::new(s.len(), |i: int| s[i]@)
}

/// Whether the declared format version has the supported major version `1`:
/// the part before the first dot is exactly `1`.
pub open spec fn supported_major(s: Seq<char>) -> bool {
    s.len() > 0 && s[0] == '1' && (s.len() == 1 || s[1] == '.')
}

/// The abstract value of a [`Change`].
#[verifier::ext_equal]
pub struct ChangeDetailView {
    pub actions: Seq<Seq<char>>,
    pub before: Jv,
    pub after: Jv,
    pub after_unknown: Jv,
    pub before_sensitive: Jv,
    pub after_sensitive: Jv,
}

/// The change planned for one resource instance: the ordered action tokens
/// and the opaque value payloads around them.
pub struct Change {
    actions: Vec<String>,
    before: serde_json::Value,
    after: serde_json::Value,
    after_unknown: serde_json::Value,
    before_sensitive: serde_json::Value,
    after_sensitive: serde_json::Value,
}

impl View for Change {
    type V = ChangeDetailView;

    closed spec fn view(&self) -> ChangeDetailView {
        ChangeDetailView {
            actions: string_views(self.actions@),
            before: jmodel(self.before),
            after: jmodel(self.after),
            after_unknown: jmodel(self.after_unknown),
            before_sensitive: jmodel(self.before_sensitive),
            after_sensitive: jmodel(self.after_sensitive),
        }
    }
}

impl Change {
    pub fn actions(&self) -> (r: &Vec<String>)
        ensures
            string_views(r@) == self@.actions,
    {
        &self.actions
    }

    pub fn before(&self) -> (r: &serde_json::Value)
        ensures
            jmodel(*r) == self@.before,
    {
        &self.before
    }

    pub fn after(&self) -> (r: &serde_json::Value)
        ensures
            jmodel(*r) == self@.after,
    {
        &self.after
    }

    pub fn after_unknown(&self) -> (r: &serde_json::Value)
        ensures
            jmodel(*r) == self@.after_unknown,
    {
        &self.after_unknown
    }

    pub fn before_sensitive(&self) -> (r: &serde_json::Value)
        ensures
            jmodel(*r) == self@.before_sensitive,
    {
        &self.before_sensitive
    }

    pub fn after_sensitive(&self) -> (r: &serde_json::Value)
        ensures
            jmodel(*r) == self@.after_sensitive,
    {
        &self.after_sensitive
    }
}

/// The abstract value of a [`ResourceChange`].
#[verifier::ext_equal]
pub struct ResourceChangeView {
    pub address: Seq<char>,
    pub mode: Seq<char>,
    pub resource_type: Seq<char>,
    pub name: Seq<char>,
    pub provider_name: Seq<char>,
    pub change: ChangeDetailView,
}

/// One entry of the plan's change list, keyed by resource address.
pub struct ResourceChange {
    address: String,
    mode: String,
    resource_type: String,
    name: String,
    provider_name: String,
    change: Change,
}

impl View for ResourceChange {
    type V = ResourceChangeView;

    closed spec fn view(&self) -> ResourceChangeView {
        ResourceChangeView {
            address: self.address@,
            mode: self.mode@,
            resource_type: self.resource_type@,
            name: self.name@,
            provider_name: self.provider_name@,
            change: self.change@,
        }
    }
}

impl ResourceChange {
    pub fn address(&self) -> (r: &String)
        ensures
            r@ == self@.address,
    {
        &self.address
    }

    pub fn resource_type(&self) -> (r: &String)
        ensures
            r@ == self@.resource_type,
    {
        &self.resource_type
    }

    pub fn name(&self) -> (r: &String)
        ensures
            r@ == self@.name,
    {
        &self.name
    }

    pub fn provider_name(&self) -> (r: &String)
        ensures
            r@ == self@.provider_name,
    {
        &self.provider_name
    }

    pub fn change(&self) -> (r: &Change)
        ensures
            r@ == self@.change,
    {
        &self.change
    }
}

/// The abstract value of a [`ValueResource`].
#[verifier::ext_equal]
pub struct ValueResourceView {
    pub address: Seq<char>,
    pub mode: Seq<char>,
    pub resource_type: Seq<char>,
    pub name: Seq<char>,
    pub provider_name: Seq<char>,
    pub values: Jv,
    pub sensitive_values: Jv,
}

/// One resource of the planned-values tree, with its best-known final
/// attribute values.
pub struct ValueResource {
    address: String,
    mode: String,
    resource_type: String,
    name: String,
    provider_name: String,
    values: serde_json::Value,
    sensitive_values: serde_json::Value,
}

impl View for ValueResource {
    type V = ValueResourceView;

    closed spec fn view(&self) -> ValueResourceView {
        ValueResourceView {
            address: self.address@,
            mode: self.mode@,
            resource_type: self.resource_type@,
            name: self.name@,
            provider_name: self.provider_name@,
            values: jmodel(self.values),
            sensitive_values: jmodel(self.sensitive_values),
        }
    }
}

impl ValueResource {
    pub fn address(&self) -> (r: &String)
        ensures
            r@ == self@.address,
    {
        &self.address
    }

    pub fn resource_type(&self) -> (r: &String)
        ensures
            r@ == self@.resource_type,
    {
        &self.resource_type
    }

    pub fn name(&self) -> (r: &String)
        ensures
            r@ == self@.name,
    {
        &self.name
    }

    pub fn provider_name(&self) -> (r: &String)
        ensures
            r@ == self@.provider_name,
    {
        &self.provider_name
    }

    pub fn values(&self) -> (r: &serde_json::Value)
        ensures
            jmodel(*r) == self@.values,
    {
        &self.values
    }

    pub fn sensitive_values(&self) -> (r: &serde_json::Value)
        ensures
            jmodel(*r) == self@.sensitive_values,
    {
        &self.sensitive_values
    }
}

/// The abstract value of a [`ConfigurationResource`].
#[verifier::ext_equal]
pub struct ConfigurationResourceView {
    pub address: Seq<char>,
    pub mode: Seq<char>,
    pub resource_type: Seq<char>,
    pub name: Seq<char>,
    pub provider_config_key: Seq<char>,
    pub expressions: Jv,
}

/// One resource declaration of the configuration tree.
pub struct ConfigurationResource {
    address: String,
    mode: String,
    resource_type: String,
    name: String,
    provider_config_key: String,
    expressions: serde_json::Value,
}

impl View for ConfigurationResource {
    type V = ConfigurationResourceView;

    closed spec fn view(&self) -> ConfigurationResourceView {
        ConfigurationResourceView {
            address: self.address@,
            mode: self.mode@,
            resource_type: self.resource_type@,
            name: self.name@,
            provider_config_key: self.provider_config_key@,
            expressions: jmodel(self.expressions),
        }
    }
}

impl ConfigurationResource {
    pub fn address(&self) -> (r: &String)
        ensures
            r@ == self@.address,
    {
        &self.address
    }

    pub fn resource_type(&self) -> (r: &String)
        ensures
            r@ == self@.resource_type,
    {
        &self.resource_type
    }

    pub fn name(&self) -> (r: &String)
        ensures
            r@ == self@.name,
    {
        &self.name
    }

    pub fn provider_config_key(&self) -> (r: &String)
        ensures
            r@ == self@.provider_config_key,
    {
        &self.provider_config_key
    }

    pub fn expressions(&self) -> (r: &serde_json::Value)
        ensures
            jmodel(*r) == self@.expressions,
    {
        &self.expressions
    }
}

/// The abstract value of a [`Module`].
#[verifier::ext_equal]
pub struct PlanModuleView<RV> {
    pub resources: Seq<RV>,
}

/// One module of a plan tree: its resource records.
pub struct Module<R> {
    resources: Vec<R>,
}

impl<R: View> View for Module<R> {
    type V = PlanModuleView<R::V>;

    closed spec fn view(&self) -> PlanModuleView<R::V> {
        PlanModuleView { resources: Seq::new(self.resources@.len(), |i: int| self.resources@[i]@) }
    }
}

impl<R: View> Module<R> {
    pub fn resources(&self) -> (r: &Vec<R>)
        ensures
            r@.len() == self@.resources.len(),
            forall|i: int| 0 <= i < r@.len() ==> r@[i]@ == self@.resources[i],
    {
        &self.resources
    }
}

/// The abstract value of a [`Root`].
#[verifier::ext_equal]
pub struct RootView<RV> {
    pub root_module: PlanModuleView<RV>,
}

/// A plan tree rooted at a single root module.
pub struct Root<R> {
    root_module: Module<R>,
}

impl<R: View> View for Root<R> {
    type V = RootView<R::V>;

    closed spec fn view(&self) -> RootView<R::V> {
        RootView { root_module: self.root_module@ }
    }
}

impl<R: View> Root<R> {
    pub fn root_module(&self) -> (r: &Module<R>)
        ensures
            r@ == self@.root_module,
    {
        &self.root_module
    }
}

/// The abstract value of a [`TfPlan`].
#[verifier::ext_equal]
pub struct TfPlanView {
    pub format_version: Seq<char>,
    pub terraform_version: Seq<char>,
    pub configuration: RootView<ConfigurationResourceView>,
    pub planned_values: RootView<ValueResourceView>,
    pub resource_changes: Seq<ResourceChangeView>,
}

/// A whole plan: its version strings, the configuration being applied, the
/// best-known planned values, and the computed per-resource changes.
pub struct TfPlan {
    format_version: String,
    terraform_version: String,
    configuration: Root<ConfigurationResource>,
    planned_values: Root<ValueResource>,
    resource_changes: Vec<ResourceChange>,
}

impl View for TfPlan {
    type V = TfPlanView;

    closed spec fn view(&self) -> TfPlanView {
        TfPlanView {
            format_version: self.format_version@,
            terraform_version: self.terraform_version@,
            configuration: self.configuration@,
            planned_values: self.planned_values@,
            resource_changes: Seq::new(
                self.resource_changes@.len(),
                |i: int| self.resource_changes@[i]@,
            ),
        }
    }
}

impl TfPlan {
    pub fn planned_values(&self) -> (r: &Root<ValueResource>)
        ensures
            r@ == self@.planned_values,
    {
        &self.planned_values
    }

    pub fn configuration(&self) -> (r: &Root<ConfigurationResource>)
        ensures
            r@ == self@.configuration,
    {
        &self.configuration
    }

    pub fn resource_changes(&self) -> (r: &Vec<ResourceChange>)
        ensures
            r@.len() == self@.resource_changes.len(),
            forall|i: int| 0 <= i < r@.len() ==> r@[i]@ == self@.resource_changes[i],
    {
        &self.resource_changes
    }
}

// What each record requires of the JSON tree, and what it reads from it.

/// A configuration resource record: five required strings and a required
/// opaque expression payload.
pub open spec fn config_resource_wf(j: Jv) -> bool {
    obj_has_str(j, "address"@) && obj_has_str(j, "mode"@) && obj_has_str(j, "type"@)
        && obj_has_str(j, "name"@) && obj_has_str(j, "provider_config_key"@) && obj_has(
        j,
        "expressions"@,
    )
}

pub open spec fn config_resource_of(j: Jv) -> ConfigurationResourceView {
    ConfigurationResourceView {
        address: obj_str(j, "address"@),
        mode: obj_str(j, "mode"@),
        resource_type: obj_str(j, "type"@),
        name: obj_str(j, "name"@),
        provider_config_key: obj_str(j, "provider_config_key"@),
        expressions: j->fields["expressions"@],
    }
}

/// A value resource record: five required strings and the two required
/// opaque value payloads.
pub open spec fn value_resource_wf(j: Jv) -> bool {
    obj_has_str(j, "address"@) && obj_has_str(j, "mode"@) && obj_has_str(j, "type"@)
        && obj_has_str(j, "name"@) && obj_has_str(j, "provider_name"@) && obj_has(j, "values"@)
        && obj_has(j, "sensitive_values"@)
}

pub open spec fn value_resource_of(j: Jv) -> ValueResourceView {
    ValueResourceView {
        address: obj_str(j, "address"@),
        mode: obj_str(j, "mode"@),
        resource_type: obj_str(j, "type"@),
        name: obj_str(j, "name"@),
        provider_name: obj_str(j, "provider_name"@),
        values: j->fields["values"@],
        sensitive_values: j->fields["sensitive_values"@],
    }
}

/// An action list: an array of strings.
pub open spec fn actions_wf(j: Jv) -> bool {
    j is JArr && forall|i: int| 0 <= i < j->items.len() ==> j->items[i] is JStr
}

pub open spec fn actions_of(j: Jv) -> Seq<Seq<char>> {
    Seq::new(j->items.len(), |i: int| j->items[i]->s)
}

/// A change record: the required action list and the five required opaque
/// value payloads.
pub open spec fn change_detail_wf(j: Jv) -> bool {
    obj_has(j, "actions"@) && actions_wf(j->fields["actions"@]) && obj_has(j, "before"@)
        && obj_has(j, "after"@) && obj_has(j, "after_unknown"@) && obj_has(j, "before_sensitive"@)
        && obj_has(j, "after_sensitive"@)
}

pub open spec fn change_detail_of(j: Jv) -> ChangeDetailView {
    ChangeDetailView {
        actions: actions_of(j->fields["actions"@]),
        before: j->fields["before"@],
        after: j->fields["after"@],
        after_unknown: j->fields["after_unknown"@],
        before_sensitive: j->fields["before_sensitive"@],
        after_sensitive: j->fields["after_sensitive"@],
    }
}

/// A resource change record: five required strings and the required change
/// record.
pub open spec fn resource_change_wf(j: Jv) -> bool {
    obj_has_str(j, "address"@) && obj_has_str(j, "mode"@) && obj_has_str(j, "type"@)
        && obj_has_str(j, "name"@) && obj_has_str(j, "provider_name"@) && obj_has(j, "change"@)
        && change_detail_wf(j->fields["change"@])
}

pub open spec fn resource_change_of(j: Jv) -> ResourceChangeView {
    ResourceChangeView {
        address: obj_str(j, "address"@),
        mode: obj_str(j, "mode"@),
        resource_type: obj_str(j, "type"@),
        name: obj_str(j, "name"@),
        provider_name: obj_str(j, "provider_name"@),
        change: change_detail_of(j->fields["change"@]),
    }
}

/// A module of configuration resources: the resource list is optional and
/// defaults to empty, but when present must be an array of well-formed
/// records.
pub open spec fn config_module_wf(j: Jv) -> bool {
    j is JObj && (obj_has(j, "resources"@) ==> j->fields["resources"@] is JArr && forall|i: int|
        0 <= i < j->fields["resources"@]->items.len() ==> config_resource_wf(
            #[trigger] j->fields["resources"@]->items[i],
        ))
}

pub open spec fn config_module_of(j: Jv) -> PlanModuleView<ConfigurationResourceView> {
    PlanModuleView {
        resources: if obj_has(j, "resources"@) {
            Seq::new(
                j->fields["resources"@]->items.len(),
                |i: int| config_resource_of(j->fields["resources"@]->items[i]),
            )
        } else {
            Seq::empty()
        },
    }
}

/// A module of value resources, shaped as the configuration one.
pub open spec fn value_module_wf(j: Jv) -> bool {
    j is JObj && (obj_has(j, "resources"@) ==> j->fields["resources"@] is JArr && forall|i: int|
        0 <= i < j->fields["resources"@]->items.len() ==> value_resource_wf(
            #[trigger] j->fields["resources"@]->items[i],
        ))
}

pub open spec fn value_module_of(j: Jv) -> PlanModuleView<ValueResourceView> {
    PlanModuleView {
        resources: if obj_has(j, "resources"@) {
            Seq::new(
                j->fields["resources"@]->items.len(),
                |i: int| value_resource_of(j->fields["resources"@]->items[i]),
            )
        } else {
            Seq::empty()
        },
    }
}

/// A tree root: the required root module.
pub open spec fn config_root_wf(j: Jv) -> bool {
    obj_has(j, "root_module"@) && config_module_wf(j->fields["root_module"@])
}

pub open spec fn config_root_of(j: Jv) -> RootView<ConfigurationResourceView> {
    RootView { root_module: config_module_of(j->fields["root_module"@]) }
}

pub open spec fn value_root_wf(j: Jv) -> bool {
    obj_has(j, "root_module"@) && value_module_wf(j->fields["root_module"@])
}

pub open spec fn value_root_of(j: Jv) -> RootView<ValueResourceView> {
    RootView { root_module: value_module_of(j->fields["root_module"@]) }
}

/// A whole plan document: both version strings and both trees are required;
/// the change list is optional and defaults to empty.
pub open spec fn plan_wf(j: Jv) -> bool {
    obj_has_str(j, "format_version"@) && obj_has_str(j, "terraform_version"@) && obj_has(
        j,
        "configuration"@,
    ) && config_root_wf(j->fields["configuration"@]) && obj_has(j, "planned_values"@)
        && value_root_wf(j->fields["planned_values"@]) && (obj_has(j, "resource_changes"@)
        ==> j->fields["resource_changes"@] is JArr && forall|i: int|
        0 <= i < j->fields["resource_changes"@]->items.len() ==> resource_change_wf(
            #[trigger] j->fields["resource_changes"@]->items[i],
        ))
}

pub open spec fn plan_of(j: Jv) -> TfPlanView {
    TfPlanView {
        format_version: obj_str(j, "format_version"@),
        terraform_version: obj_str(j, "terraform_version"@),
        configuration: config_root_of(j->fields["configuration"@]),
        planned_values: value_root_of(j->fields["planned_values"@]),
        resource_changes: if obj_has(j, "resource_changes"@) {
            Seq::new(
                j->fields["resource_changes"@]->items.len(),
                |i: int| resource_change_of(j->fields["resource_changes"@]->items[i]),
            )
        } else {
            Seq::empty()
        },
    }
}

/// Whether the document carries a readable `format_version` string at all.
pub open spec fn version_readable(j: Jv) -> bool {
    obj_has_str(j, "format_version"@)
}

/// Whether the document declares a supported major version.
pub open spec fn version_supported(j: Jv) -> bool {
    version_readable(j) && supported_major(obj_str(j, "format_version"@))
}

/// Prefixes a structure error's field path with the record field it lies
/// under; an empty path names the record itself. Other errors pass through.
fn err_in_field(outer: &str, e: PlanError) -> (r: PlanError)
    ensures
        e is Structure ==> r is Structure,
        !(e is Structure) ==> r == e,
{
    match e {
        PlanError::Structure { field } => {
            if field.as_str().unicode_len() == 0 {
                PlanError::Structure { field: String::from_str(outer) }
            } else {
                PlanError::Structure {
                    field: crate::strutil::nested_field(outer, field.as_str()),
                }
            }
        },
        other => other,
    }
}

/// Prefixes a structure error's field path with the collection element it
/// lies in. Other errors pass through.
fn err_at_index(outer: &str, index: usize, e: PlanError) -> (r: PlanError)
    ensures
        e is Structure ==> r is Structure,
        !(e is Structure) ==> r == e,
{
    match e {
        PlanError::Structure { field } => PlanError::Structure {
            field: crate::strutil::indexed_field(outer, index, field.as_str()),
        },
        other => other,
    }
}

// The reader.

/// Reads a required string field of an object.
fn read_str_field(v: &serde_json::Value, key: &str) -> (r: Result<String, PlanError>)
    ensures
        r is Ok <==> obj_has_str(jmodel(*v), key@),
        r matches Ok(s) ==> s@ == obj_str(jmodel(*v), key@),
        r matches Err(e) ==> e is Structure,
{
    match value_get(v, key) {
        Some(x) => match value_as_str(x) {
            Some(s) => Ok(s.to_owned()),
            None => Err(PlanError::Structure { field: key.to_owned() }),
        },
        None => Err(PlanError::Structure { field: key.to_owned() }),
    }
}

/// Reads a required field of an object, kept as an opaque payload.
fn read_opaque_field(v: &serde_json::Value, key: &str) -> (r: Result<
    serde_json::Value,
    PlanError,
>)
    ensures
        r is Ok <==> obj_has(jmodel(*v), key@),
        r matches Ok(x) ==> jmodel(x) == jmodel(*v)->fields[key@],
        r matches Err(e) ==> e is Structure,
{
    match value_get(v, key) {
        Some(x) => Ok(value_clone(x)),
        None => Err(PlanError::Structure { field: key.to_owned() }),
    }
}

fn read_config_resource(v: &serde_json::Value) -> (r: Result<ConfigurationResource, PlanError>)
    ensures
        r is Ok <==> config_resource_wf(jmodel(*v)),
        r matches Ok(c) ==> c@ == config_resource_of(jmodel(*v)),
        r matches Err(e) ==> e is Structure,
{
    let address = read_str_field(v, "address")?;
    let mode = read_str_field(v, "mode")?;
    let resource_type = read_str_field(v, "type")?;
    let name = read_str_field(v, "name")?;
    let provider_config_key = read_str_field(v, "provider_config_key")?;
    let expressions = read_opaque_field(v, "expressions")?;
    Ok(ConfigurationResource { address, mode, resource_type, name, provider_config_key, expressions })
}

fn read_value_resource(v: &serde_json::Value) -> (r: Result<ValueResource, PlanError>)
    ensures
        r is Ok <==> value_resource_wf(jmodel(*v)),
        r matches Ok(c) ==> c@ == value_resource_of(jmodel(*v)),
        r matches Err(e) ==> e is Structure,
{
    let address = read_str_field(v, "address")?;
    let mode = read_str_field(v, "mode")?;
    let resource_type = read_str_field(v, "type")?;
    let name = read_str_field(v, "name")?;
    let provider_name = read_str_field(v, "provider_name")?;
    let values = read_opaque_field(v, "values")?;
    let sensitive_values = read_opaque_field(v, "sensitive_values")?;
    Ok(ValueResource { address, mode, resource_type, name, provider_name, values, sensitive_values })
}

fn read_actions(v: &serde_json::Value) -> (r: Result<Vec<String>, PlanError>)
    ensures
        r is Ok <==> actions_wf(jmodel(*v)),
        r matches Ok(a) ==> string_views(a@) == actions_of(jmodel(*v)),
        r matches Err(e) ==> e is Structure,
{
    match value_as_array(v) {
        None => Err(PlanError::Structure { field: String::from_str("actions") }),
        Some(arr) => {
            let mut out: Vec<String> = Vec::new();
            let n = arr.len();
            let mut i: usize = 0;
            while i < n
                invariant
                    i <= n,
                    n == arr@.len(),
                    jmodel(*v) == (Jv::JArr { items: crate::json::jmodels(arr@) }),
                    out@.len() == i,
                    forall|k: int| 0 <= k < i ==> jmodel(arr@[k]) is JStr,
                    forall|k: int| 0 <= k < i ==> out@[k]@ == jmodel(arr@[k])->s,
                decreases n - i,
            {
                match value_as_str(&arr[i]) {
                    Some(s) => out.push(s.to_owned()),
                    None => {
                        proof {
                            assert(jmodel(*v)->items[i as int] == jmodel(arr@[i as int]));
                            assert(!actions_wf(jmodel(*v)));
                        }
                        return Err(PlanError::Structure { field: String::from_str("actions") });
                    },
                }
                i = i + 1;
            }
            proof {
                assert(string_views(out@) =~= actions_of(jmodel(*v)));
            }
            Ok(out)
        },
    }
}

fn read_change_detail(v: &serde_json::Value) -> (r: Result<Change, PlanError>)
    ensures
        r is Ok <==> change_detail_wf(jmodel(*v)),
        r matches Ok(c) ==> c@ == change_detail_of(jmodel(*v)),
        r matches Err(e) ==> e is Structure,
{
    let actions = match value_get(v, "actions") {
        Some(a) => read_actions(a)?,
        None => {
            return Err(PlanError::Structure { field: String::from_str("actions") });
        },
    };
    let before = read_opaque_field(v, "before")?;
    let after = read_opaque_field(v, "after")?;
    let after_unknown = read_opaque_field(v, "after_unknown")?;
    let before_sensitive = read_opaque_field(v, "before_sensitive")?;
    let after_sensitive = read_opaque_field(v, "after_sensitive")?;
    Ok(Change { actions, before, after, after_unknown, before_sensitive, after_sensitive })
}

fn read_resource_change(v: &serde_json::Value) -> (r: Result<ResourceChange, PlanError>)
    ensures
        r is Ok <==> resource_change_wf(jmodel(*v)),
        r matches Ok(c) ==> c@ == resource_change_of(jmodel(*v)),
        r matches Err(e) ==> e is Structure,
{
    let address = read_str_field(v, "address")?;
    let mode = read_str_field(v, "mode")?;
    let resource_type = read_str_field(v, "type")?;
    let name = read_str_field(v, "name")?;
    let provider_name = read_str_field(v, "provider_name")?;
    let change = match value_get(v, "change") {
        Some(c) => match read_change_detail(c) {
            Ok(c) => c,
            Err(e) => {
                return Err(err_in_field("change", e));
            },
        },
        None => {
            return Err(PlanError::Structure { field: String::from_str("change") });
        },
    };
    Ok(ResourceChange { address, mode, resource_type, name, provider_name, change })
}

fn read_config_module(v: &serde_json::Value) -> (r: Result<Module<ConfigurationResource>, PlanError>)
    ensures
        r is Ok <==> config_module_wf(jmodel(*v)),
        r matches Ok(m) ==> m@ == config_module_of(jmodel(*v)),
        r matches Err(e) ==> e is Structure,
{
    match value_get(v, "resources") {
        None => {
            if crate::json::value_is_object(v) {
                let m = Module { resources: Vec::new() };
                proof {
                    assert(m@.resources =~= config_module_of(jmodel(*v)).resources);
                    assert(m@ =~= config_module_of(jmodel(*v)));
                }
                Ok(m)
            } else {
                Err(PlanError::Structure { field: String::new() })
            }
        },
        Some(x) => match value_as_array(x) {
            None => Err(PlanError::Structure { field: String::from_str("resources") }),
            Some(arr) => {
                let mut out: Vec<ConfigurationResource> = Vec::new();
                let n = arr.len();
                let mut i: usize = 0;
                while i < n
                    invariant
                        i <= n,
                        n == arr@.len(),
                        jmodel(*x) == (Jv::JArr { items: crate::json::jmodels(arr@) }),
                        obj_has(jmodel(*v), "resources"@),
                        jmodel(*v)->fields["resources"@] == jmodel(*x),
                        out@.len() == i,
                        forall|k: int| 0 <= k < i ==> config_resource_wf(jmodel(arr@[k])),
                        forall|k: int|
                            0 <= k < i ==> out@[k]@ == config_resource_of(jmodel(arr@[k])),
                    decreases n - i,
                {
                    let c = match read_config_resource(&arr[i]) {
                        Ok(c) => c,
                        Err(e) => {
                            proof {
                                assert(jmodel(*v)->fields["resources"@]->items[i as int]
                                    == jmodel(arr@[i as int]));
                                assert(!config_module_wf(jmodel(*v)));
                            }
                            return Err(err_at_index("resources", i, e));
                        },
                    };
                    out.push(c);
                    i = i + 1;
                }
                let m = Module { resources: out };
                proof {
                    assert(m@.resources =~= config_module_of(jmodel(*v)).resources);
                    assert(m@ =~= config_module_of(jmodel(*v)));
                }
                Ok(m)
            },
        },
    }
}

fn read_value_module(v: &serde_json::Value) -> (r: Result<Module<ValueResource>, PlanError>)
    ensures
        r is Ok <==> value_module_wf(jmodel(*v)),
        r matches Ok(m) ==> m@ == value_module_of(jmodel(*v)),
        r matches Err(e) ==> e is Structure,
{
    match value_get(v, "resources") {
        None => {
            if crate::json::value_is_object(v) {
                let m = Module { resources: Vec::new() };
                proof {
                    assert(m@.resources =~= value_module_of(jmodel(*v)).resources);
                    assert(m@ =~= value_module_of(jmodel(*v)));
                }
                Ok(m)
            } else {
                Err(PlanError::Structure { field: String::new() })
            }
        },
        Some(x) => match value_as_array(x) {
            None => Err(PlanError::Structure { field: String::from_str("resources") }),
            Some(arr) => {
                let mut out: Vec<ValueResource> = Vec::new();
                let n = arr.len();
                let mut i: usize = 0;
                while i < n
                    invariant
                        i <= n,
                        n == arr@.len(),
                        jmodel(*x) == (Jv::JArr { items: crate::json::jmodels(arr@) }),
                        obj_has(jmodel(*v), "resources"@),
                        jmodel(*v)->fields["resources"@] == jmodel(*x),
                        out@.len() == i,
                        forall|k: int| 0 <= k < i ==> value_resource_wf(jmodel(arr@[k])),
                        forall|k: int|
                            0 <= k < i ==> out@[k]@ == value_resource_of(jmodel(arr@[k])),
                    decreases n - i,
                {
                    let c = match read_value_resource(&arr[i]) {
                        Ok(c) => c,
                        Err(e) => {
                            proof {
                                assert(jmodel(*v)->fields["resources"@]->items[i as int]
                                    == jmodel(arr@[i as int]));
                                assert(!value_module_wf(jmodel(*v)));
                            }
                            return Err(err_at_index("resources", i, e));
                        },
                    };
                    out.push(c);
                    i = i + 1;
                }
                let m = Module { resources: out };
                proof {
                    assert(m@.resources =~= value_module_of(jmodel(*v)).resources);
                    assert(m@ =~= value_module_of(jmodel(*v)));
                }
                Ok(m)
            },
        },
    }
}

fn read_config_root(v: &serde_json::Value) -> (r: Result<Root<ConfigurationResource>, PlanError>)
    ensures
        r is Ok <==> config_root_wf(jmodel(*v)),
        r matches Ok(m) ==> m@ == config_root_of(jmodel(*v)),
        r matches Err(e) ==> e is Structure,
{
    match value_get(v, "root_module") {
        Some(m) => match read_config_module(m) {
            Ok(root_module) => Ok(Root { root_module }),
            Err(e) => Err(err_in_field("root_module", e)),
        },
        None => Err(PlanError::Structure { field: String::from_str("root_module") }),
    }
}

fn read_value_root(v: &serde_json::Value) -> (r: Result<Root<ValueResource>, PlanError>)
    ensures
        r is Ok <==> value_root_wf(jmodel(*v)),
        r matches Ok(m) ==> m@ == value_root_of(jmodel(*v)),
        r matches Err(e) ==> e is Structure,
{
    match value_get(v, "root_module") {
        Some(m) => match read_value_module(m) {
            Ok(root_module) => Ok(Root { root_module }),
            Err(e) => Err(err_in_field("root_module", e)),
        },
        None => Err(PlanError::Structure { field: String::from_str("root_module") }),
    }
}

/// Reads a whole plan from a parsed JSON tree, checking its structure.
fn read_plan(v: &serde_json::Value) -> (r: Result<TfPlan, PlanError>)
    ensures
        r is Ok <==> plan_wf(jmodel(*v)),
        r matches Ok(p) ==> p@ == plan_of(jmodel(*v)),
        r matches Err(e) ==> e is Structure,
{
    let format_version = read_str_field(v, "format_version")?;
    let terraform_version = read_str_field(v, "terraform_version")?;
    let configuration = match value_get(v, "configuration") {
        Some(c) => match read_config_root(c) {
            Ok(c) => c,
            Err(e) => {
                return Err(err_in_field("configuration", e));
            },
        },
        None => {
            return Err(PlanError::Structure { field: String::from_str("configuration") });
        },
    };
    let planned_values = match value_get(v, "planned_values") {
        Some(c) => match read_value_root(c) {
            Ok(c) => c,
            Err(e) => {
                return Err(err_in_field("planned_values", e));
            },
        },
        None => {
            return Err(PlanError::Structure { field: String::from_str("planned_values") });
        },
    };
    let resource_changes: Vec<ResourceChange> = match value_get(v, "resource_changes") {
        None => Vec::new(),
        Some(x) => match value_as_array(x) {
            None => {
                return Err(PlanError::Structure { field: String::from_str("resource_changes") });
            },
            Some(arr) => {
                let mut out: Vec<ResourceChange> = Vec::new();
                let n = arr.len();
                let mut i: usize = 0;
                while i < n
                    invariant
                        i <= n,
                        n == arr@.len(),
                        jmodel(*x) == (Jv::JArr { items: crate::json::jmodels(arr@) }),
                        obj_has(jmodel(*v), "resource_changes"@),
                        jmodel(*v)->fields["resource_changes"@] == jmodel(*x),
                        out@.len() == i,
                        forall|k: int| 0 <= k < i ==> resource_change_wf(jmodel(arr@[k])),
                        forall|k: int|
                            0 <= k < i ==> out@[k]@ == resource_change_of(jmodel(arr@[k])),
                    decreases n - i,
                {
                    let c = match read_resource_change(&arr[i]) {
                        Ok(c) => c,
                        Err(e) => {
                            proof {
                                assert(jmodel(*v)->fields["resource_changes"@]->items[i as int]
                                    == jmodel(arr@[i as int]));
                                assert(!plan_wf(jmodel(*v)));
                            }
                            return Err(err_at_index("resource_changes", i, e));
                        },
                    };
                    out.push(c);
                    i = i + 1;
                }
                out
            },
        },
    };
    let p = TfPlan { format_version, terraform_version, configuration, planned_values, resource_changes };
    proof {
        assert(p@.resource_changes =~= plan_of(jmodel(*v)).resource_changes);
        assert(p@ =~= plan_of(jmodel(*v)));
    }
    Ok(p)
}

/// Whether a version string declares the supported major version.
fn format_version_ok(s: &str) -> (r: bool)
    ensures
        r == supported_major(s@),
{
    let n = s.unicode_len();
    if n == 0 {
        return false;
    }
    if s.get_char(0) != '1' {
        return false;
    }
    if n == 1 {
        return true;
    }
    s.get_char(1) == '.'
}

/// Reads a plan document from JSON text.
///
/// The text must be valid JSON; the document must declare major version `1`
/// (this check comes first, so an unsupported version is reported as such
/// whether or not the rest of the document is well shaped); and every
/// required field must be present with its required shape. The optional
/// collections default to empty. Unknown fields are ignored throughout.
pub fn load_plan(json: &str) -> (r: Result<TfPlan, PlanError>)
    ensures
        match r {
            Ok(p) => parsed_json(json@) matches Some(j) && version_supported(j) && plan_wf(j)
                && p@ == plan_of(j),
            Err(PlanError::Syntax) => parsed_json(json@) is None,
            Err(PlanError::UnsupportedVersion) => parsed_json(json@) matches Some(j)
                && version_readable(j) && !version_supported(j),
            Err(PlanError::Structure { .. }) => parsed_json(json@) matches Some(j) && (
            !version_readable(j) || (version_supported(j) && !plan_wf(j))),
        },
{
    let v = match parse_json_text(json) {
        Ok(v) => v,
        Err(_) => {
            return Err(PlanError::Syntax);
        },
    };
    match value_get(&v, "format_version") {
        Some(fv) => match value_as_str(fv) {
            Some(s) => {
                if !format_version_ok(s) {
                    return Err(PlanError::UnsupportedVersion);
                }
            },
            None => {
                return Err(PlanError::Structure { field: String::from_str("format_version") });
            },
        },
        None => {
            return Err(PlanError::Structure { field: String::from_str("format_version") });
        },
    }
    read_plan(&v)
}

} // verus!
