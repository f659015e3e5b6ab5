//! Reading the planning tool's plan document.

pub mod tfplan;
pub use tfplan::load_plan;
