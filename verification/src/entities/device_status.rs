use vstd::prelude::*;

use crate::time::Timestamp;

verus! {

/// Last known status of one device within a project, used to detect changes
/// between polls.
#[derive(Clone, Debug)]
pub struct Model {
    pub id: i32,
    pub project_id: i32,
    pub device_id: String,
    pub device_name: String,
    /// The text of an `ActiveStatus`, as the platform reported it.
    pub status: String,
    pub last_data_time: Option<String>,
    pub last_checked_at: Timestamp,
    pub last_changed_at: Timestamp,
}

impl Model {
    /// A copy of this row.
    pub fn duplicate(&self) -> (r: Model)
        ensures
            r == *self,
    {
        Model {
            id: self.id,
            project_id: self.project_id,
            device_id: self.device_id.clone(),
            device_name: self.device_name.clone(),
            status: self.status.clone(),
            last_data_time: match &self.last_data_time {
                Some(t) => Some(t.clone()),
                None => None,
            },
            last_checked_at: self.last_checked_at,
            last_changed_at: self.last_changed_at,
        }
    }
}

} // verus!
