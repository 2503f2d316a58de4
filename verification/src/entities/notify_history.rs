use vstd::prelude::*;

use crate::time::Timestamp;

verus! {

/// A record of one attempted Discord notification, for the history page.
#[derive(Clone, Debug)]
pub struct Model {
    pub id: i32,
    pub project_id: i32,
    pub device_id: String,
    pub device_name: String,
    pub old_status: Option<String>,
    pub new_status: String,
    /// `"remote"` or `"local"`, see [`super::project::NotifySource`].
    pub source: String,
    /// Webhook URL (remote) or notify target name (local), kept even if the
    /// source is deleted.
    pub target_label: String,
    pub message: String,
    pub success: bool,
    pub error: Option<String>,
    pub sent_at: Timestamp,
}

} // verus!
