use vstd::prelude::*;

use crate::text::{push_str, str_eq, string_from};

verus! {

/// The Unicode lowercase form of `s`, as `str::to_lowercase` gives it.
pub uninterp spec fn lowercase_of(s: Seq<char>) -> Seq<char>;

/// `str::to_lowercase`.  The contract claims only that the result is
/// determined by the text alone (it is named `lowercase_of`): it says nothing
/// of the Unicode case tables.
#[verifier::external_body]
fn to_lowercase(s: &str) -> (r: String)
    ensures
        r@ == lowercase_of(s@),
{
    s.to_lowercase()
}

/// The colour classes of a status pill, by lowercase status: green for
/// `online`, red for `offline` and `abnormal`, yellow for `start` and
/// `stop`, grey for anything else.
pub open spec fn tone_classes(lower: Seq<char>) -> Seq<char> {
    if lower == "online"@ {
        "bg-green-100 text-green-800"@
    } else if lower == "offline"@ || lower == "abnormal"@ {
        "bg-red-100 text-red-800"@
    } else if lower == "start"@ || lower == "stop"@ {
        "bg-yellow-100 text-yellow-800"@
    } else {
        "bg-gray-100 text-gray-800"@
    }
}

/// The colour classes of the status pill of a lowercase status, see
/// [`tone_classes`].
pub fn tone_of_lowercase(lower: &str) -> (tone: &'static str)
    ensures
        tone@ == tone_classes(lower@),
{
    if str_eq(lower, "online") {
        "bg-green-100 text-green-800"
    } else if str_eq(lower, "offline") || str_eq(lower, "abnormal") {
        "bg-red-100 text-red-800"
    } else if str_eq(lower, "start") || str_eq(lower, "stop") {
        "bg-yellow-100 text-yellow-800"
    } else {
        "bg-gray-100 text-gray-800"
    }
}

/// All classes of the status pill of `status` (matched case-insensitively,
/// through its Unicode lowercase form): the pill shape followed by its
/// colour classes.
pub fn status_badge_classes(status: &str) -> (classes: String)
    ensures
        classes@ == "inline-block rounded-full px-2 py-0.5 text-xs font-semibold "@ + tone_classes(
            lowercase_of(status@),
        ),
{
    let lower = to_lowercase(status);
    let tone = tone_of_lowercase(lower.as_str());
    let mut classes = string_from("inline-block rounded-full px-2 py-0.5 text-xs font-semibold ");
    push_str(&mut classes, tone);
    classes
}

} // verus!
