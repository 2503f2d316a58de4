use vstd::prelude::*;

verus! {

/// A locally configured Discord webhook of a project.
#[derive(Clone, Debug)]
pub struct Model {
    pub id: i32,
    pub project_id: i32,
    pub name: String,
    pub webhook_url: String,
    pub message_template: Option<String>,
    pub enabled: bool,
}

} // verus!
