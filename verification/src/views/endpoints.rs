use vstd::prelude::*;

verus! {

/// The fields of the endpoint form.
#[derive(Clone, Debug)]
pub struct EndpointForm {
    pub name: String,
    pub base_url: String,
    pub kind: String,
}

} // verus!
