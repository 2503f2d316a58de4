use vstd::prelude::*;

use crate::text::{int_decimal, lemma_int_decimal_parses_back, parse_i32, parsed_i32};

verus! {

/// The query of the history page.
#[derive(Clone, Debug)]
pub struct HistoryQuery {
    pub project_id: Option<String>,
}

/// The project the history is filtered by: the query's `project_id` read as
/// an `i32`, or none when it is absent, empty or not a number.
pub open spec fn selected_project(project_id: Option<String>) -> Option<i32> {
    match project_id {
        None => None,
        Some(s) => if s@.len() == 0 {
            None
        } else {
            parsed_i32(s@)
        },
    }
}

/// Every non-empty query text selects the project that the text reads as
/// an `i32` (none when it reads as no `i32`); only an absent or empty text
/// leaves the history unfiltered.
pub proof fn lemma_non_empty_query_selects_parsed_project(s: String)
    ensures
        s@.len() > 0 ==> selected_project(Some(s)) == parsed_i32(s@),
        s@.len() == 0 ==> selected_project(Some(s)) is None,
        selected_project(None) is None,
{
}

/// A query holding the decimal numeral of a project id selects that
/// project.
pub proof fn lemma_query_of_project_id_selects_it(id: i32, s: String)
    requires
        s@ == int_decimal(id as int),
    ensures
        selected_project(Some(s)) == Some(id),
{
    lemma_int_decimal_parses_back(id);
}

impl HistoryQuery {
    /// The project the history is filtered by, see [`selected_project`].
    pub fn selected_project_id(&self) -> (r: Option<i32>)
        ensures
            r == selected_project(self.project_id),
    {
        match &self.project_id {
            None => None,
            Some(s) => if s.as_str().is_empty() {
                None
            } else {
                parse_i32(s.as_str())
            },
        }
    }
}

/// The old status shown in the history: the stored one, or `-` when none
/// was stored.
pub fn old_status_display(old_status: &Option<String>) -> (s: String)
    ensures
        match old_status {
            Some(o) => s@ == o@,
            None => s@ == "-"@,
        },
{
    match old_status {
        Some(o) => o.clone(),
        None => crate::text::string_from("-"),
    }
}

} // verus!
