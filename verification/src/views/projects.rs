use vstd::prelude::*;

use crate::text::{str_eq, string_from};

verus! {

/// The fields of the project form.
#[derive(Clone, Debug)]
pub struct ProjectForm {
    pub name: String,
    pub project_key: String,
    pub notify_source: String,
    pub poll_enabled: Option<String>,
}

impl ProjectForm {
    /// Polling is enabled exactly when the checkbox was sent as `on`.
    pub fn poll_enabled(&self) -> (r: bool)
        ensures
            r == (self.poll_enabled matches Some(v) && v@ == "on"@),
    {
        match &self.poll_enabled {
            Some(v) => str_eq(v.as_str(), "on"),
            None => false,
        }
    }

    /// The notification source to store: `local` when `local` was chosen,
    /// `remote` for anything else.
    pub fn notify_source(&self) -> (r: String)
        ensures
            self.notify_source@ == "local"@ ==> r@ == "local"@,
            self.notify_source@ != "local"@ ==> r@ == "remote"@,
    {
        if str_eq(self.notify_source.as_str(), "local") {
            string_from("local")
        } else {
            string_from("remote")
        }
    }
}

} // verus!
