use vstd::prelude::*;

use crate::time::Timestamp;

verus! {

/// A configured IoT platform endpoint.
#[derive(Clone, Debug)]
pub struct Model {
    pub id: i32,
    pub name: String,
    pub base_url: String,
    /// `"general"` or `"edge"`: the platform's API flavour.
    pub kind: String,
    pub created_at: Timestamp,
}

impl Model {
    /// A copy of this row.
    pub fn duplicate(&self) -> (r: Model)
        ensures
            r == *self,
    {
        Model {
            id: self.id,
            name: self.name.clone(),
            base_url: self.base_url.clone(),
            kind: self.kind.clone(),
            created_at: self.created_at,
        }
    }
}

} // verus!
