//! The decisions of the polling loop: which projects are polled, how a
//! freshly observed device status compares with the stored one, and what is
//! stored and notified as a result.
use vstd::prelude::*;

use crate::entities::{device_status, endpoint, project};
use crate::models::{ActiveInfo, EdgeEndpoint, Endpoint, GeneralEndpoint};
use crate::notify::opt_str_view;
use crate::text::{str_eq, string_from};
use crate::time::Timestamp;

verus! {

/// How an observed status relates to the stored one.
#[derive(Debug, PartialEq, Eq)]
pub enum DiffResult {
    /// First time this device has been seen: seed the row without notifying.
    New,
    Unchanged,
    Changed { old_status: String },
}

/// The abstract outcome of a status comparison.
pub enum StatusDiff {
    New,
    Unchanged,
    Changed(Seq<char>),
}

impl View for DiffResult {
    type V = StatusDiff;

    open spec fn view(&self) -> StatusDiff {
        match self {
            DiffResult::New => StatusDiff::New,
            DiffResult::Unchanged => StatusDiff::Unchanged,
            DiffResult::Changed { old_status } => StatusDiff::Changed(old_status@),
        }
    }
}

/// Compares the stored status (if any) with the observed one.
pub open spec fn status_diff(existing: Option<Seq<char>>, observed: Seq<char>) -> StatusDiff {
    match existing {
        None => StatusDiff::New,
        Some(old) => if old == observed {
            StatusDiff::Unchanged
        } else {
            StatusDiff::Changed(old)
        },
    }
}

/// Compares the stored status of a device (if any) with the status just
/// observed: `New` when nothing is stored, `Unchanged` when they are equal,
/// `Changed` carrying the stored status otherwise.
pub fn diff_status(existing: Option<&str>, new_status: &str) -> (r: DiffResult)
    ensures
        r@ == status_diff(opt_str_view(existing), new_status@),
{
    match existing {
        None => DiffResult::New,
        Some(old) => if str_eq(old, new_status) {
            DiffResult::Unchanged
        } else {
            DiffResult::Changed { old_status: string_from(old) }
        },
    }
}

/// The API of a stored endpoint row: the edge API for kind `"edge"`, the
/// general API for any other kind, both at the row's base URL.
pub fn endpoint_model_to_api(row: &endpoint::Model) -> (api: Endpoint)
    ensures
        row.kind@ == "edge"@ ==> (api matches Endpoint::Edge(e) && e.base_url@ == row.base_url@),
        row.kind@ != "edge"@ ==> (api matches Endpoint::General(g) && g.base_url@
            == row.base_url@),
{
    if str_eq(row.kind.as_str(), "edge") {
        Endpoint::Edge(EdgeEndpoint { base_url: row.base_url.clone() })
    } else {
        Endpoint::General(GeneralEndpoint { base_url: row.base_url.clone() })
    }
}

/// What one poll of one device leads to.
#[derive(Debug)]
pub enum DeviceChange {
    /// First sighting: store this new row (its id is assigned when it is
    /// stored); nobody is notified.
    Seed(device_status::Model),
    /// The status is unchanged: store the refreshed row; nobody is notified.
    Refresh(device_status::Model),
    /// The status changed from `old_status`: store the row and notify.
    Transition { row: device_status::Model, old_status: String },
}

/// The stored status of a row, if there is a row.
pub open spec fn stored_status(existing: Option<device_status::Model>) -> Option<Seq<char>> {
    match existing {
        Some(row) => Some(row.status@),
        None => None,
    }
}

/// Decides what to store and whether to notify after observing a device's
/// active-monitor state at time `now`: the stored status always becomes
/// the observed one; only a change of an already stored status notifies.
pub fn plan_device_change(
    existing: Option<device_status::Model>,
    project_id: i32,
    device_id: &str,
    device_name: &str,
    active_info: &ActiveInfo,
    now: Timestamp,
) -> (r: DeviceChange)
    ensures
        ({
            let observed = active_info.status.display_name();
            match r {
                DeviceChange::Seed(row) => {
                    &&& existing is None
                    &&& row.id == 0
                    &&& row.project_id == project_id
                    &&& row.device_id@ == device_id@
                    &&& row.device_name@ == device_name@
                    &&& row.status@ == observed
                    &&& row.last_data_time == active_info.last_data_time
                    &&& row.last_checked_at == now
                    &&& row.last_changed_at == now
                },
                DeviceChange::Refresh(row) => {
                    &&& existing matches Some(e)
                    &&& e.status@ == observed
                    &&& row == device_status::Model {
                        last_data_time: active_info.last_data_time,
                        last_checked_at: now,
                        ..e
                    }
                },
                DeviceChange::Transition { row, old_status } => {
                    &&& existing matches Some(e)
                    &&& e.status@ != observed
                    &&& old_status@ == e.status@
                    &&& row.id == e.id
                    &&& row.project_id == e.project_id
                    &&& row.device_id == e.device_id
                    &&& row.device_name == e.device_name
                    &&& row.status@ == observed
                    &&& row.last_data_time == active_info.last_data_time
                    &&& row.last_checked_at == now
                    &&& row.last_changed_at == now
                },
            }
        }),
{
    let new_status = active_info.status.to_string();
    match existing {
        None => DeviceChange::Seed(
            device_status::Model {
                id: 0,
                project_id,
                device_id: string_from(device_id),
                device_name: string_from(device_name),
                status: new_status,
                last_data_time: match &active_info.last_data_time {
                    Some(t) => Some(t.clone()),
                    None => None,
                },
                last_checked_at: now,
                last_changed_at: now,
            },
        ),
        Some(row) => {
            let last_data_time = match &active_info.last_data_time {
                Some(t) => Some(t.clone()),
                None => None,
            };
            match diff_status(Some(row.status.as_str()), new_status.as_str()) {
                DiffResult::New => DeviceChange::Refresh(
                    device_status::Model { last_data_time, last_checked_at: now, ..row },
                ),
                DiffResult::Unchanged => DeviceChange::Refresh(
                    device_status::Model { last_data_time, last_checked_at: now, ..row },
                ),
                DiffResult::Changed { old_status } => DeviceChange::Transition {
                    row: device_status::Model {
                        status: new_status,
                        last_data_time,
                        last_checked_at: now,
                        last_changed_at: now,
                        ..row
                    },
                    old_status,
                },
            }
        },
    }
}

/// The status changes notified while one device is polled repeatedly,
/// starting from the stored status `stored` and observing `observed` in
/// order: each poll compares with the status stored by the previous one.
pub open spec fn notified_changes(stored: Option<Seq<char>>, observed: Seq<Seq<char>>) -> Seq<
    (Seq<char>, Seq<char>),
>
    decreases observed.len(),
{
    if observed.len() == 0 {
        Seq::empty()
    } else {
        let here = match status_diff(stored, observed[0]) {
            StatusDiff::Changed(old) => seq![(old, observed[0])],
            _ => Seq::empty(),
        };
        here + notified_changes(Some(observed[0]), observed.drop_first())
    }
}

/// The pairs of consecutive observations that differ, in order.
pub open spec fn consecutive_changes(observed: Seq<Seq<char>>) -> Seq<(Seq<char>, Seq<char>)>
    decreases observed.len(),
{
    if observed.len() < 2 {
        Seq::empty()
    } else {
        let here = if observed[0] != observed[1] {
            seq![(observed[0], observed[1])]
        } else {
            Seq::empty()
        };
        here + consecutive_changes(observed.drop_first())
    }
}

proof fn lemma_notified_from_stored(first: Seq<char>, rest: Seq<Seq<char>>)
    ensures
        notified_changes(Some(first), rest) == consecutive_changes(seq![first] + rest),
    decreases rest.len(),
{
    let all = seq![first] + rest;
    if rest.len() == 0 {
        assert(notified_changes(Some(first), rest) =~= Seq::empty());
    } else {
        lemma_notified_from_stored(rest[0], rest.drop_first());
        assert(all.drop_first() =~= seq![rest[0]] + rest.drop_first());
        assert(all[0] == first);
        assert(all[1] == rest[0]);
    }
}

/// Polling one device that was never seen before, observing the statuses
/// `observed` one after another, notifies exactly each change between two
/// consecutive observations, in order: the first sighting is stored
/// silently and an unchanged status notifies nobody.
pub proof fn lemma_polling_notifies_exactly_the_changes(observed: Seq<Seq<char>>)
    ensures
        notified_changes(None, observed) == consecutive_changes(observed),
{
    if observed.len() > 0 {
        lemma_notified_from_stored(observed[0], observed.drop_first());
        assert(seq![observed[0]] + observed.drop_first() =~= observed);
        assert(notified_changes(None, observed) =~= notified_changes(
            Some(observed[0]),
            observed.drop_first(),
        ));
    }
}

/// Observing the same status twice in a row never notifies the second time.
pub proof fn lemma_repeated_status_is_quiet(stored: Option<Seq<char>>, observed: Seq<char>)
    ensures
        status_diff(Some(observed), observed) == StatusDiff::Unchanged,
        notified_changes(stored, seq![observed, observed]) == notified_changes(
            stored,
            seq![observed],
        ),
{
    assert(seq![observed, observed].drop_first() =~= seq![observed]);
    assert(seq![observed].drop_first() =~= Seq::<Seq<char>>::empty());
    assert(seq![observed][0] == observed);
    assert(notified_changes(Some(observed), Seq::<Seq<char>>::empty()) =~= Seq::empty());
    assert(notified_changes(Some(observed), seq![observed]) =~= Seq::empty());
}

/// The last endpoint in `endpoints` with the given id: the one kept when the
/// rows are collected into a map keyed by id.
pub open spec fn endpoint_with_id(endpoints: Seq<endpoint::Model>, id: i32) -> Option<endpoint::Model>
    decreases endpoints.len(),
{
    if endpoints.len() == 0 {
        None
    } else if endpoints.last().id == id {
        Some(endpoints.last())
    } else {
        endpoint_with_id(endpoints.drop_last(), id)
    }
}

/// The projects to poll, each with its endpoint, in order; a project whose
/// endpoint is missing is skipped.
pub open spec fn poll_pairs(endpoints: Seq<endpoint::Model>, projects: Seq<project::Model>) -> Seq<
    (endpoint::Model, project::Model),
>
    decreases projects.len(),
{
    if projects.len() == 0 {
        Seq::empty()
    } else {
        let rest = poll_pairs(endpoints, projects.drop_last());
        match endpoint_with_id(endpoints, projects.last().endpoint_id) {
            Some(e) => rest.push((e, projects.last())),
            None => rest,
        }
    }
}

/// Whether some endpoint row has id `id`.
pub open spec fn has_endpoint(endpoints: Seq<endpoint::Model>, id: i32) -> bool {
    exists|k: int| 0 <= k < endpoints.len() && (#[trigger] endpoints[k]).id == id
}

/// Whether `e` is the last endpoint row with id `id`: rows read later
/// replace earlier ones of the same id.
pub open spec fn is_last_endpoint_with_id(endpoints: Seq<endpoint::Model>, e: endpoint::Model, id: i32) -> bool {
    exists|k: int|
        0 <= k < endpoints.len() && #[trigger] endpoints[k] == e && e.id == id && forall|j: int|
            k < j < endpoints.len() ==> (#[trigger] endpoints[j]).id != id
}

/// Whether a project's endpoint is among the endpoint rows.
pub open spec fn endpoint_found(endpoints: Seq<endpoint::Model>) -> spec_fn(project::Model) -> bool {
    |p: project::Model| has_endpoint(endpoints, p.endpoint_id)
}

/// The endpoint found for an id is the last row with that id, and one is
/// found exactly when some row has that id.
pub proof fn lemma_endpoint_with_id_searches_all_rows(endpoints: Seq<endpoint::Model>, id: i32)
    ensures
        endpoint_with_id(endpoints, id) is Some <==> has_endpoint(endpoints, id),
        endpoint_with_id(endpoints, id) matches Some(e) ==> is_last_endpoint_with_id(endpoints, e, id),
    decreases endpoints.len(),
{
    if endpoints.len() > 0 {
        let rest = endpoints.drop_last();
        let n = endpoints.len() - 1;
        lemma_endpoint_with_id_searches_all_rows(rest, id);
        if endpoints.last().id == id {
            assert(endpoints[n].id == id);
        } else {
            if has_endpoint(endpoints, id) {
                let k = choose|k: int| 0 <= k < endpoints.len() && (#[trigger] endpoints[k]).id == id;
                assert(k != n);
                assert(rest[k].id == id);
            }
            if has_endpoint(rest, id) {
                let k = choose|k: int| 0 <= k < rest.len() && (#[trigger] rest[k]).id == id;
                assert(endpoints[k].id == id);
            }
            if let Some(e) = endpoint_with_id(rest, id) {
                let k = choose|k: int|
                    0 <= k < rest.len() && #[trigger] rest[k] == e && e.id == id && forall|j: int|
                        k < j < rest.len() ==> (#[trigger] rest[j]).id != id;
                assert(endpoints[k] == e);
                assert forall|j: int| k < j < endpoints.len() implies (#[trigger] endpoints[j]).id != id by {
                    if j < n {
                        assert(rest[j] == endpoints[j]);
                    }
                }
            }
        }
    }
}

/// The projects that are polled are exactly the projects whose endpoint is
/// among the endpoint rows, in order, and each is paired with the last
/// endpoint row of its `endpoint_id`.
pub proof fn lemma_poll_pairs_cover_projects_with_endpoint(
    endpoints: Seq<endpoint::Model>,
    projects: Seq<project::Model>,
)
    ensures
        poll_pairs(endpoints, projects).map_values(|pr: (endpoint::Model, project::Model)| pr.1)
            == projects.filter(endpoint_found(endpoints)),
        forall|i: int|
            0 <= i < poll_pairs(endpoints, projects).len() ==> is_last_endpoint_with_id(
                endpoints,
                (#[trigger] poll_pairs(endpoints, projects)[i]).0,
                poll_pairs(endpoints, projects)[i].1.endpoint_id,
            ),
    decreases projects.len(),
{
    reveal(Seq::filter);
    if projects.len() > 0 {
        let rest = poll_pairs(endpoints, projects.drop_last());
        let p = projects.last();
        lemma_poll_pairs_cover_projects_with_endpoint(endpoints, projects.drop_last());
        lemma_endpoint_with_id_searches_all_rows(endpoints, p.endpoint_id);
        match endpoint_with_id(endpoints, p.endpoint_id) {
            Some(e) => {
                assert(rest.push((e, p)).map_values(|pr: (endpoint::Model, project::Model)| pr.1)
                    =~= rest.map_values(|pr: (endpoint::Model, project::Model)| pr.1).push(p));
                assert forall|i: int| 0 <= i < rest.len() + 1 implies is_last_endpoint_with_id(
                    endpoints,
                    (#[trigger] rest.push((e, p))[i]).0,
                    rest.push((e, p))[i].1.endpoint_id,
                ) by {
                    if i < rest.len() {
                        assert(rest.push((e, p))[i] == rest[i]);
                    }
                }
            },
            None => {},
        }
    }
}

fn find_endpoint(endpoints: &Vec<endpoint::Model>, id: i32) -> (r: Option<endpoint::Model>)
    ensures
        r == endpoint_with_id(endpoints@, id),
{
    let mut i: usize = endpoints.len();
    assert(endpoints@.subrange(0, i as int) =~= endpoints@);
    while i > 0
        invariant
            i <= endpoints@.len(),
            endpoint_with_id(endpoints@, id) == endpoint_with_id(
                endpoints@.subrange(0, i as int),
                id,
            ),
        decreases i,
    {
        let ghost prefix = endpoints@.subrange(0, i as int);
        assert(prefix.drop_last() =~= endpoints@.subrange(0, i - 1));
        assert(prefix.last() == endpoints@[i - 1]);
        if endpoints[i - 1].id == id {
            return Some(endpoints[i - 1].duplicate());
        }
        i = i - 1;
    }
    None
}

/// Pairs each project with its endpoint (the last endpoint row with the
/// project's `endpoint_id`), keeping the projects' order and skipping those
/// whose endpoint is missing.
pub fn projects_to_poll(endpoints: &Vec<endpoint::Model>, projects: &Vec<project::Model>) -> (r: Vec<
    (endpoint::Model, project::Model),
>)
    ensures
        r@ == poll_pairs(endpoints@, projects@),
{
    let mut r: Vec<(endpoint::Model, project::Model)> = Vec::new();
    let mut i: usize = 0;
    while i < projects.len()
        invariant
            i <= projects@.len(),
            r@ == poll_pairs(endpoints@, projects@.subrange(0, i as int)),
        decreases projects@.len() - i,
    {
        let ghost prefix = projects@.subrange(0, i + 1);
        assert(prefix.drop_last() =~= projects@.subrange(0, i as int));
        assert(prefix.last() == projects@[i as int]);
        match find_endpoint(endpoints, projects[i].endpoint_id) {
            Some(e) => r.push((e, projects[i].duplicate())),
            None => {},
        }
        i = i + 1;
    }
    assert(projects@.subrange(0, projects@.len() as int) =~= projects@);
    r
}

} // verus!
