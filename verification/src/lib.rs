//! Normalizes an infrastructure planning tool's JSON plan document into a
//! tool-agnostic model of resources and their pending changes.
//!
//! The text of a plan goes through three stages: the schema reader checks
//! the document's declared format version and required structure and builds
//! a typed plan; the analyzer joins the configuration's resource
//! declarations against the computed changes by address and classifies each
//! change's action tokens; the result is a normalized module tree that the
//! renderers turn into output text.

pub mod analyzer;
pub mod json;
pub mod model;
pub mod output;
pub mod strutil;
pub mod terraform;

use vstd::prelude::*;

use crate::json::parsed_json;
use crate::terraform::tfplan::PlanError;
use crate::terraform::tfplan::plan_of;
use crate::terraform::tfplan::plan_wf;
use crate::terraform::tfplan::version_readable;
use crate::terraform::tfplan::version_supported;

verus! {

/// Reads a plan document from JSON text and analyzes it into the normalized
/// model: the root module's configuration resources in declaration order,
/// each carrying the change recorded under its address.
///
/// Fails exactly where the schema reader fails: on text that is not JSON, on
/// an unsupported major format version, and on a missing or misshapen
/// required field.
pub fn load_model(json: &str) -> (r: Result<model::Module, PlanError>)
    ensures
        match r {
            Ok(m) => parsed_json(json@) matches Some(j) && version_supported(j) && plan_wf(j)
                && m@ == analyzer::analyze_spec(plan_of(j)),
            Err(PlanError::Syntax) => parsed_json(json@) is None,
            Err(PlanError::UnsupportedVersion) => parsed_json(json@) matches Some(j)
                && version_readable(j) && !version_supported(j),
            Err(PlanError::Structure { .. }) => parsed_json(json@) matches Some(j) && (
            !version_readable(j) || (version_supported(j) && !plan_wf(j))),
        },
{
    let plan = match terraform::tfplan::load_plan(json) {
        Ok(p) => p,
        Err(e) => {
            return Err(e);
        },
    };
    Ok(analyzer::analyze(&plan))
}

} // verus!
