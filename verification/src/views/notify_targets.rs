use vstd::prelude::*;

use crate::text::{str_eq, trim, trimmed};

verus! {

/// The fields of the notify target form.
#[derive(Clone, Debug)]
pub struct NotifyTargetForm {
    pub name: String,
    pub webhook_url: String,
    pub message_template: String,
    pub enabled: Option<String>,
}

impl NotifyTargetForm {
    /// The target is enabled exactly when the checkbox was sent as `on`.
    pub fn enabled(&self) -> (r: bool)
        ensures
            r == (self.enabled matches Some(v) && v@ == "on"@),
    {
        match &self.enabled {
            Some(v) => str_eq(v.as_str(), "on"),
            None => false,
        }
    }

    /// The template to store: the entered one without surrounding white
    /// space, or none when nothing else remains.
    pub fn message_template(&self) -> (r: Option<String>)
        ensures
            trimmed(self.message_template@).len() == 0 ==> r is None,
            trimmed(self.message_template@).len() > 0 ==> (r matches Some(t) && t@ == trimmed(
                self.message_template@,
            )),
    {
        let t = trim(self.message_template.as_str());
        if t.as_str().is_empty() {
            None
        } else {
            Some(t)
        }
    }
}

} // verus!
