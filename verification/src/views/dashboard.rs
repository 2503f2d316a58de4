use vstd::prelude::*;

use crate::entities::{device_status, endpoint, project};
use crate::poller::{
    endpoint_with_id, has_endpoint, is_last_endpoint_with_id,
    lemma_endpoint_with_id_searches_all_rows,
};
use crate::text::{
    ascii_lower_code, eq_ignore_ascii_case, eq_ignoring_ascii_case, string_from, text_le, text_le_exec,
};

verus! {

/// The number of devices whose status equals `status`, ignoring ASCII case.
pub open spec fn status_count(devices: Seq<device_status::Model>, status: Seq<char>) -> nat
    decreases devices.len(),
{
    if devices.len() == 0 {
        0
    } else {
        status_count(devices.drop_last(), status) + if eq_ignoring_ascii_case(
            devices.last().status@,
            status,
        ) {
            1nat
        } else {
            0nat
        }
    }
}

/// Counts the devices whose status equals `status`, ignoring ASCII case.
pub fn count_status(devices: &[device_status::Model], status: &str) -> (n: usize)
    ensures
        n == status_count(devices@, status@),
{
    let mut n: usize = 0;
    let mut i: usize = 0;
    while i < devices.len()
        invariant
            i <= devices@.len(),
            n == status_count(devices@.subrange(0, i as int), status@),
            n <= i,
        decreases devices@.len() - i,
    {
        let ghost prefix = devices@.subrange(0, i + 1);
        assert(prefix.drop_last() =~= devices@.subrange(0, i as int));
        assert(prefix.last() == devices@[i as int]);
        if eq_ignore_ascii_case(devices[i].status.as_str(), status) {
            n = n + 1;
        }
        i = i + 1;
    }
    assert(devices@.subrange(0, devices@.len() as int) =~= devices@);
    n
}

/// `sorted` with `x` inserted after every element whose name comes before
/// or equals `x`'s: the step of a stable sort by device name.
pub open spec fn insert_by_name(sorted: Seq<device_status::Model>, x: device_status::Model) -> Seq<
    device_status::Model,
>
    decreases sorted.len(),
{
    if sorted.len() == 0 {
        seq![x]
    } else if text_le(sorted.last().device_name@, x.device_name@) {
        sorted.push(x)
    } else {
        insert_by_name(sorted.drop_last(), x).push(sorted.last())
    }
}

/// `devices` sorted by device name, devices of equal name keeping their
/// order (as the stable `sort_by` on names does).
pub open spec fn sorted_by_name(devices: Seq<device_status::Model>) -> Seq<device_status::Model>
    decreases devices.len(),
{
    if devices.len() == 0 {
        Seq::empty()
    } else {
        insert_by_name(sorted_by_name(devices.drop_last()), devices.last())
    }
}

fn insert_in_order(sorted: &mut Vec<device_status::Model>, x: device_status::Model)
    ensures
        final(sorted)@ == insert_by_name(old(sorted)@, x),
{
    let ghost s = sorted@;
    let n = sorted.len();
    let mut j: usize = n;
    assert(s.subrange(0, n as int) =~= s);
    assert(s.subrange(n as int, n as int) + Seq::<device_status::Model>::empty() =~= s.subrange(
        n as int,
        n as int,
    ));
    while j > 0 && !text_le_exec(sorted[j - 1].device_name.as_str(), x.device_name.as_str())
        invariant
            sorted@ == s,
            n == s.len(),
            j <= n,
            insert_by_name(s, x) == insert_by_name(s.subrange(0, j as int), x) + s.subrange(
                j as int,
                n as int,
            ),
        decreases j,
    {
        let ghost prefix = s.subrange(0, j as int);
        assert(prefix.drop_last() =~= s.subrange(0, j - 1));
        assert(prefix.last() == s[j - 1]);
        assert(s.subrange(j - 1, n as int) =~= seq![s[j - 1]] + s.subrange(j as int, n as int));
        assert(insert_by_name(prefix, x) == insert_by_name(s.subrange(0, j - 1), x).push(s[j - 1]));
        assert(insert_by_name(s.subrange(0, j - 1), x).push(s[j - 1]) + s.subrange(j as int, n as int)
            =~= insert_by_name(s.subrange(0, j - 1), x) + s.subrange(j - 1, n as int));
        j = j - 1;
    }
    proof {
        let prefix = s.subrange(0, j as int);
        if j > 0 {
            assert(prefix.last() == s[j - 1]);
            assert(insert_by_name(prefix, x) == prefix.push(x));
        } else {
            assert(insert_by_name(prefix, x) == seq![x]);
        }
        assert(insert_by_name(s, x) =~= s.insert(j as int, x));
    }
    sorted.insert(j, x);
}

/// The devices of project `project_id`, in the order they are given.
pub open spec fn devices_of(devices: Seq<device_status::Model>, project_id: i32) -> Seq<
    device_status::Model,
>
    decreases devices.len(),
{
    if devices.len() == 0 {
        Seq::empty()
    } else {
        let rest = devices_of(devices.drop_last(), project_id);
        if devices.last().project_id == project_id {
            rest.push(devices.last())
        } else {
            rest
        }
    }
}

/// The group of devices of one project, sorted by name; `None` when the
/// project has no devices.
pub open spec fn device_group(devices: Seq<device_status::Model>, project_id: i32) -> Option<
    Seq<device_status::Model>,
> {
    let group = devices_of(devices, project_id);
    if group.len() == 0 {
        None
    } else {
        Some(sorted_by_name(group))
    }
}

/// The devices of project `project_id`, sorted by name (stable), or `None`
/// when there are none.
pub fn group_devices(devices: &Vec<device_status::Model>, project_id: i32) -> (r: Option<
    Vec<device_status::Model>,
>)
    ensures
        match r {
            Some(g) => device_group(devices@, project_id) == Some(g@),
            None => device_group(devices@, project_id) is None,
        },
{
    let mut group: Vec<device_status::Model> = Vec::new();
    let ghost mut unsorted: Seq<device_status::Model> = Seq::empty();
    let mut i: usize = 0;
    while i < devices.len()
        invariant
            i <= devices@.len(),
            unsorted == devices_of(devices@.subrange(0, i as int), project_id),
            group@ == sorted_by_name(unsorted),
        decreases devices@.len() - i,
    {
        let ghost prefix = devices@.subrange(0, i + 1);
        assert(prefix.drop_last() =~= devices@.subrange(0, i as int));
        assert(prefix.last() == devices@[i as int]);
        if devices[i].project_id == project_id {
            let d = devices[i].duplicate();
            proof {
                let next = unsorted.push(d);
                assert(next.drop_last() =~= unsorted);
                assert(next.last() == d);
            }
            insert_in_order(&mut group, d);
            proof {
                unsorted = unsorted.push(d);
            }
        }
        i = i + 1;
    }
    assert(devices@.subrange(0, devices@.len() as int) =~= devices@);
    if group.len() == 0 {
        proof {
            if unsorted.len() > 0 {
                lemma_sorted_len(unsorted);
            }
        }
        None
    } else {
        proof {
            if unsorted.len() == 0 {
                assert(sorted_by_name(unsorted) =~= Seq::empty());
            }
        }
        Some(group)
    }
}

proof fn lemma_insert_len(sorted: Seq<device_status::Model>, x: device_status::Model)
    ensures
        insert_by_name(sorted, x).len() == sorted.len() + 1,
    decreases sorted.len(),
{
    if sorted.len() > 0 && !text_le(sorted.last().device_name@, x.device_name@) {
        lemma_insert_len(sorted.drop_last(), x);
    }
}

proof fn lemma_sorted_len(devices: Seq<device_status::Model>)
    ensures
        sorted_by_name(devices).len() == devices.len(),
    decreases devices.len(),
{
    if devices.len() > 0 {
        lemma_sorted_len(devices.drop_last());
        lemma_insert_len(sorted_by_name(devices.drop_last()), devices.last());
    }
}

/// What the dashboard shows for one project.
#[derive(Clone, Debug)]
pub struct ProjectSummary {
    pub project: project::Model,
    /// The name of the project's endpoint, or `(unknown endpoint)`.
    pub endpoint_name: String,
    /// The project's devices sorted by name, or `None` when none was seen.
    pub devices: Option<Vec<device_status::Model>>,
    pub total: usize,
    pub online: usize,
    pub offline: usize,
    pub abnormal: usize,
    pub start: usize,
    pub stop: usize,
    pub unset: usize,
}

/// The endpoint name shown for a project.
pub open spec fn endpoint_label(endpoints: Seq<endpoint::Model>, endpoint_id: i32) -> Seq<char> {
    match endpoint_with_id(endpoints, endpoint_id) {
        Some(e) => e.name@,
        None => "(unknown endpoint)"@,
    }
}

/// The count shown for `status` in a group of devices.
pub open spec fn group_count(group: Option<Seq<device_status::Model>>, status: Seq<char>) -> nat {
    match group {
        Some(g) => status_count(g, status),
        None => 0,
    }
}

/// The dashboard summary of `project`: its endpoint's name, its devices
/// sorted by name, and how many of them there are in all and per status.
pub open spec fn summarizes(
    s: ProjectSummary,
    endpoints: Seq<endpoint::Model>,
    devices: Seq<device_status::Model>,
    project: project::Model,
) -> bool {
    let group = device_group(devices, project.id);
    &&& s.project == project
    &&& s.endpoint_name@ == endpoint_label(endpoints, project.endpoint_id)
    &&& match s.devices {
        Some(g) => group == Some(g@),
        None => group is None,
    }
    &&& s.total == match group {
        Some(g) => g.len(),
        None => 0,
    }
    &&& s.online == group_count(group, "online"@)
    &&& s.offline == group_count(group, "offline"@)
    &&& s.abnormal == group_count(group, "abnormal"@)
    &&& s.start == group_count(group, "start"@)
    &&& s.stop == group_count(group, "stop"@)
    &&& s.unset == group_count(group, "unset"@)
}

fn endpoint_name_for(endpoints: &Vec<endpoint::Model>, endpoint_id: i32) -> (name: String)
    ensures
        name@ == endpoint_label(endpoints@, endpoint_id),
{
    let mut i: usize = endpoints.len();
    assert(endpoints@.subrange(0, i as int) =~= endpoints@);
    while i > 0
        invariant
            i <= endpoints@.len(),
            endpoint_with_id(endpoints@, endpoint_id) == endpoint_with_id(
                endpoints@.subrange(0, i as int),
                endpoint_id,
            ),
        decreases i,
    {
        let ghost prefix = endpoints@.subrange(0, i as int);
        assert(prefix.drop_last() =~= endpoints@.subrange(0, i - 1));
        assert(prefix.last() == endpoints@[i - 1]);
        if endpoints[i - 1].id == endpoint_id {
            return endpoints[i - 1].name.clone();
        }
        i = i - 1;
    }
    string_from("(unknown endpoint)")
}

fn count_in(group: &Option<Vec<device_status::Model>>, status: &str) -> (n: usize)
    ensures
        n == group_count(
            match group {
                Some(g) => Some(g@),
                None => None,
            },
            status@,
        ),
{
    match group {
        Some(g) => count_status(g.as_slice(), status),
        None => 0,
    }
}

/// The dashboard summary of one project, see [`summarizes`].
pub fn summarize_project(
    endpoints: &Vec<endpoint::Model>,
    devices: &Vec<device_status::Model>,
    project: &project::Model,
) -> (s: ProjectSummary)
    ensures
        summarizes(s, endpoints@, devices@, *project),
{
    let group = group_devices(devices, project.id);
    let total = match &group {
        Some(g) => g.len(),
        None => 0,
    };
    let online = count_in(&group, "online");
    let offline = count_in(&group, "offline");
    let abnormal = count_in(&group, "abnormal");
    let start = count_in(&group, "start");
    let stop = count_in(&group, "stop");
    let unset = count_in(&group, "unset");
    ProjectSummary {
        project: project.duplicate(),
        endpoint_name: endpoint_name_for(endpoints, project.endpoint_id),
        devices: group,
        total,
        online,
        offline,
        abnormal,
        start,
        stop,
        unset,
    }
}

/// The dashboard: one summary per project, in the projects' order.
pub fn summarize_projects(
    endpoints: &Vec<endpoint::Model>,
    projects: &Vec<project::Model>,
    devices: &Vec<device_status::Model>,
) -> (r: Vec<ProjectSummary>)
    ensures
        r@.len() == projects@.len(),
        forall|i: int|
            0 <= i < projects@.len() ==> summarizes(
                #[trigger] r@[i],
                endpoints@,
                devices@,
                projects@[i],
            ),
{
    let mut r: Vec<ProjectSummary> = Vec::new();
    let mut i: usize = 0;
    while i < projects.len()
        invariant
            i <= projects@.len(),
            r@.len() == i,
            forall|k: int|
                0 <= k < i ==> summarizes(#[trigger] r@[k], endpoints@, devices@, projects@[k]),
        decreases projects@.len() - i,
    {
        r.push(summarize_project(endpoints, devices, &projects[i]));
        i = i + 1;
    }
    r
}

/// Whether a device belongs to project `project_id`.
pub open spec fn of_project(project_id: i32) -> spec_fn(device_status::Model) -> bool {
    |d: device_status::Model| d.project_id == project_id
}

/// Whether a device belongs to project `project_id` and its status equals
/// `status`, ignoring ASCII case.
pub open spec fn of_project_with_status(project_id: i32, status: Seq<char>) -> spec_fn(
    device_status::Model,
) -> bool {
    |d: device_status::Model| d.project_id == project_id && eq_ignoring_ascii_case(d.status@, status)
}

proof fn lemma_count_push(t: Seq<device_status::Model>, x: device_status::Model, status: Seq<char>)
    ensures
        status_count(t.push(x), status) == status_count(t, status) + if eq_ignoring_ascii_case(
            x.status@,
            status,
        ) {
            1nat
        } else {
            0nat
        },
{
    assert(t.push(x).drop_last() =~= t);
}

proof fn lemma_devices_of_is_filter(devices: Seq<device_status::Model>, project_id: i32)
    ensures
        devices_of(devices, project_id) == devices.filter(of_project(project_id)),
    decreases devices.len(),
{
    reveal(Seq::filter);
    if devices.len() > 0 {
        lemma_devices_of_is_filter(devices.drop_last(), project_id);
    }
}

proof fn lemma_count_of_project(
    devices: Seq<device_status::Model>,
    project_id: i32,
    status: Seq<char>,
)
    ensures
        status_count(devices_of(devices, project_id), status) == devices.filter(
            of_project_with_status(project_id, status),
        ).len(),
    decreases devices.len(),
{
    reveal(Seq::filter);
    if devices.len() > 0 {
        lemma_count_of_project(devices.drop_last(), project_id, status);
        let rest = devices_of(devices.drop_last(), project_id);
        if devices.last().project_id == project_id {
            lemma_count_push(rest, devices.last(), status);
        }
    }
}

proof fn lemma_count_insert(t: Seq<device_status::Model>, x: device_status::Model, status: Seq<char>)
    ensures
        status_count(insert_by_name(t, x), status) == status_count(t, status) + if eq_ignoring_ascii_case(
            x.status@,
            status,
        ) {
            1nat
        } else {
            0nat
        },
    decreases t.len(),
{
    if t.len() == 0 {
        lemma_count_push(t, x, status);
        assert(t.push(x) =~= seq![x]);
    } else if text_le(t.last().device_name@, x.device_name@) {
        lemma_count_push(t, x, status);
    } else {
        lemma_count_insert(t.drop_last(), x, status);
        lemma_count_push(insert_by_name(t.drop_last(), x), t.last(), status);
    }
}

proof fn lemma_count_sorted(devices: Seq<device_status::Model>, status: Seq<char>)
    ensures
        status_count(sorted_by_name(devices), status) == status_count(devices, status),
    decreases devices.len(),
{
    if devices.len() > 0 {
        lemma_count_sorted(devices.drop_last(), status);
        lemma_count_insert(sorted_by_name(devices.drop_last()), devices.last(), status);
    }
}

proof fn lemma_group_count_of_project(
    devices: Seq<device_status::Model>,
    project_id: i32,
    status: Seq<char>,
)
    ensures
        group_count(device_group(devices, project_id), status) == devices.filter(
            of_project_with_status(project_id, status),
        ).len(),
{
    lemma_count_of_project(devices, project_id, status);
    let group = devices_of(devices, project_id);
    if group.len() > 0 {
        lemma_count_sorted(group, status);
    } else {
        assert(status_count(group, status) == 0);
    }
}

/// On the dashboard, a project's total counts every device of the project,
/// and each status pill counts exactly the devices of the project whose
/// status equals the pill's word, ignoring ASCII case.
pub proof fn lemma_summary_counts_the_project_devices(
    s: ProjectSummary,
    endpoints: Seq<endpoint::Model>,
    devices: Seq<device_status::Model>,
    project: project::Model,
)
    requires
        summarizes(s, endpoints, devices, project),
    ensures
        s.total == devices.filter(of_project(project.id)).len(),
        s.online == devices.filter(of_project_with_status(project.id, "online"@)).len(),
        s.offline == devices.filter(of_project_with_status(project.id, "offline"@)).len(),
        s.abnormal == devices.filter(of_project_with_status(project.id, "abnormal"@)).len(),
        s.start == devices.filter(of_project_with_status(project.id, "start"@)).len(),
        s.stop == devices.filter(of_project_with_status(project.id, "stop"@)).len(),
        s.unset == devices.filter(of_project_with_status(project.id, "unset"@)).len(),
{
    lemma_devices_of_is_filter(devices, project.id);
    let group = devices_of(devices, project.id);
    if group.len() > 0 {
        lemma_sorted_len(group);
    }
    lemma_group_count_of_project(devices, project.id, "online"@);
    lemma_group_count_of_project(devices, project.id, "offline"@);
    lemma_group_count_of_project(devices, project.id, "abnormal"@);
    lemma_group_count_of_project(devices, project.id, "start"@);
    lemma_group_count_of_project(devices, project.id, "stop"@);
    lemma_group_count_of_project(devices, project.id, "unset"@);
}

/// On the dashboard, a project is shown with the name of the last endpoint
/// row of its `endpoint_id` (`(unknown endpoint)` when there is none), and
/// with exactly its devices, ordered by name, or no list when it has none.
pub proof fn lemma_summary_names_endpoint_and_lists_devices(
    s: ProjectSummary,
    endpoints: Seq<endpoint::Model>,
    devices: Seq<device_status::Model>,
    project: project::Model,
)
    requires
        summarizes(s, endpoints, devices, project),
    ensures
        has_endpoint(endpoints, project.endpoint_id) ==> exists|e: endpoint::Model|
            #[trigger] is_last_endpoint_with_id(endpoints, e, project.endpoint_id)
                && s.endpoint_name@ == e.name@,
        !has_endpoint(endpoints, project.endpoint_id) ==> s.endpoint_name@
            == "(unknown endpoint)"@,
        s.devices is None <==> devices.filter(of_project(project.id)).len() == 0,
        s.devices matches Some(g) ==> g@.to_multiset() == devices.filter(
            of_project(project.id),
        ).to_multiset() && ordered_by_name(g@),
{
    lemma_endpoint_with_id_searches_all_rows(endpoints, project.endpoint_id);
    if let Some(e) = endpoint_with_id(endpoints, project.endpoint_id) {
        assert(is_last_endpoint_with_id(endpoints, e, project.endpoint_id));
    }
    lemma_devices_of_is_filter(devices, project.id);
    let group = devices_of(devices, project.id);
    lemma_sorted_by_name_sorts(group);
}

/// The devices of a group counted under any of the six status pills.
pub open spec fn pill_total(g: Seq<device_status::Model>) -> nat {
    status_count(g, "online"@) + status_count(g, "offline"@) + status_count(g, "abnormal"@)
        + status_count(g, "start"@) + status_count(g, "stop"@) + status_count(g, "unset"@)
}

proof fn lemma_one_pill_per_status(status: Seq<char>, a: Seq<char>, b: Seq<char>)
    requires
        eq_ignoring_ascii_case(status, a),
        eq_ignoring_ascii_case(status, b),
    ensures
        eq_ignoring_ascii_case(a, b),
{
    assert forall|i: int| 0 <= i < a.len() implies #[trigger] ascii_lower_code(a[i])
        == ascii_lower_code(b[i]) by {
        assert(ascii_lower_code(status[i]) == ascii_lower_code(a[i]));
        assert(ascii_lower_code(status[i]) == ascii_lower_code(b[i]));
    }
}

proof fn lemma_pill_words_differ()
    ensures
        !eq_ignoring_ascii_case("online"@, "offline"@),
        !eq_ignoring_ascii_case("online"@, "abnormal"@),
        !eq_ignoring_ascii_case("online"@, "start"@),
        !eq_ignoring_ascii_case("online"@, "stop"@),
        !eq_ignoring_ascii_case("online"@, "unset"@),
        !eq_ignoring_ascii_case("offline"@, "abnormal"@),
        !eq_ignoring_ascii_case("offline"@, "start"@),
        !eq_ignoring_ascii_case("offline"@, "stop"@),
        !eq_ignoring_ascii_case("offline"@, "unset"@),
        !eq_ignoring_ascii_case("abnormal"@, "start"@),
        !eq_ignoring_ascii_case("abnormal"@, "stop"@),
        !eq_ignoring_ascii_case("abnormal"@, "unset"@),
        !eq_ignoring_ascii_case("start"@, "stop"@),
        !eq_ignoring_ascii_case("start"@, "unset"@),
        !eq_ignoring_ascii_case("stop"@, "unset"@),
{
    reveal_strlit("online");
    reveal_strlit("offline");
    reveal_strlit("abnormal");
    reveal_strlit("start");
    reveal_strlit("stop");
    reveal_strlit("unset");
    assert(ascii_lower_code("start"@[0]) != ascii_lower_code("unset"@[0]));
}

/// A device is counted under at most one status pill, so the pill counts of
/// a group of devices add up to at most the number of devices.
pub proof fn lemma_pill_counts_within_total(g: Seq<device_status::Model>)
    ensures
        pill_total(g) <= g.len(),
    decreases g.len(),
{
    if g.len() > 0 {
        lemma_pill_counts_within_total(g.drop_last());
        lemma_pill_words_differ();
        let st = g.last().status@;
        if eq_ignoring_ascii_case(st, "online"@) {
            if eq_ignoring_ascii_case(st, "offline"@) { lemma_one_pill_per_status(st, "online"@, "offline"@); }
            if eq_ignoring_ascii_case(st, "abnormal"@) { lemma_one_pill_per_status(st, "online"@, "abnormal"@); }
            if eq_ignoring_ascii_case(st, "start"@) { lemma_one_pill_per_status(st, "online"@, "start"@); }
            if eq_ignoring_ascii_case(st, "stop"@) { lemma_one_pill_per_status(st, "online"@, "stop"@); }
            if eq_ignoring_ascii_case(st, "unset"@) { lemma_one_pill_per_status(st, "online"@, "unset"@); }
        } else if eq_ignoring_ascii_case(st, "offline"@) {
            if eq_ignoring_ascii_case(st, "abnormal"@) { lemma_one_pill_per_status(st, "offline"@, "abnormal"@); }
            if eq_ignoring_ascii_case(st, "start"@) { lemma_one_pill_per_status(st, "offline"@, "start"@); }
            if eq_ignoring_ascii_case(st, "stop"@) { lemma_one_pill_per_status(st, "offline"@, "stop"@); }
            if eq_ignoring_ascii_case(st, "unset"@) { lemma_one_pill_per_status(st, "offline"@, "unset"@); }
        } else if eq_ignoring_ascii_case(st, "abnormal"@) {
            if eq_ignoring_ascii_case(st, "start"@) { lemma_one_pill_per_status(st, "abnormal"@, "start"@); }
            if eq_ignoring_ascii_case(st, "stop"@) { lemma_one_pill_per_status(st, "abnormal"@, "stop"@); }
            if eq_ignoring_ascii_case(st, "unset"@) { lemma_one_pill_per_status(st, "abnormal"@, "unset"@); }
        } else if eq_ignoring_ascii_case(st, "start"@) {
            if eq_ignoring_ascii_case(st, "stop"@) { lemma_one_pill_per_status(st, "start"@, "stop"@); }
            if eq_ignoring_ascii_case(st, "unset"@) { lemma_one_pill_per_status(st, "start"@, "unset"@); }
        } else if eq_ignoring_ascii_case(st, "stop"@) {
            if eq_ignoring_ascii_case(st, "unset"@) { lemma_one_pill_per_status(st, "stop"@, "unset"@); }
        }
    }
}

/// On the dashboard, the per-status counts of a project never add up to
/// more than its total number of devices.
pub proof fn lemma_summary_counts_within_total(
    s: ProjectSummary,
    endpoints: Seq<endpoint::Model>,
    devices: Seq<device_status::Model>,
    project: project::Model,
)
    requires
        summarizes(s, endpoints, devices, project),
    ensures
        s.online + s.offline + s.abnormal + s.start + s.stop + s.unset <= s.total,
{
    match device_group(devices, project.id) {
        Some(g) => lemma_pill_counts_within_total(g),
        None => {},
    }
}

/// Any two names are ordered one way or the other.
pub proof fn lemma_text_le_total(a: Seq<char>, b: Seq<char>)
    ensures
        text_le(a, b) || text_le(b, a),
    decreases a.len(),
{
    if a.len() > 0 && b.len() > 0 && a[0] == b[0] {
        lemma_text_le_total(a.drop_first(), b.drop_first());
    }
}

/// Names ordered one after another are ordered in the same way end to
/// end.
pub proof fn lemma_text_le_transitive(a: Seq<char>, b: Seq<char>, c: Seq<char>)
    requires
        text_le(a, b),
        text_le(b, c),
    ensures
        text_le(a, c),
    decreases a.len(),
{
    if a.len() > 0 && b.len() > 0 && c.len() > 0 && a[0] == b[0] && b[0] == c[0] {
        lemma_text_le_transitive(a.drop_first(), b.drop_first(), c.drop_first());
    }
}

/// Two names each ordered before or equal to the other are the same name.
pub proof fn lemma_text_le_antisymmetric(a: Seq<char>, b: Seq<char>)
    requires
        text_le(a, b),
        text_le(b, a),
    ensures
        a == b,
    decreases a.len(),
{
    if a.len() > 0 && b.len() > 0 {
        lemma_text_le_antisymmetric(a.drop_first(), b.drop_first());
        assert(a =~= seq![a[0]] + a.drop_first());
        assert(b =~= seq![b[0]] + b.drop_first());
    }
}

/// Devices ordered by name: every device's name comes before or equals the
/// names of the devices after it.
pub open spec fn ordered_by_name(s: Seq<device_status::Model>) -> bool {
    forall|i: int, j: int|
        0 <= i < j < s.len() ==> text_le(#[trigger] s[i].device_name@, #[trigger] s[j].device_name@)
}

proof fn lemma_insert_multiset(t: Seq<device_status::Model>, x: device_status::Model)
    ensures
        insert_by_name(t, x).to_multiset() =~= t.to_multiset().insert(x),
    decreases t.len(),
{
    broadcast use vstd::seq_lib::group_to_multiset_ensures;

    if t.len() == 0 {
        assert(seq![x] =~= Seq::<device_status::Model>::empty().push(x));
    } else if !text_le(t.last().device_name@, x.device_name@) {
        lemma_insert_multiset(t.drop_last(), x);
        assert(t.drop_last().push(t.last()) =~= t);
    }
}

proof fn lemma_insert_ordered(t: Seq<device_status::Model>, x: device_status::Model)
    requires
        ordered_by_name(t),
    ensures
        ordered_by_name(insert_by_name(t, x)),
    decreases t.len(),
{
    broadcast use vstd::seq_lib::group_to_multiset_ensures;

    if t.len() == 0 {
    } else if text_le(t.last().device_name@, x.device_name@) {
        let r = t.push(x);
        assert forall|i: int, j: int| 0 <= i < j < r.len() implies text_le(
            #[trigger] r[i].device_name@,
            #[trigger] r[j].device_name@,
        ) by {
            if j == t.len() && i < t.len() - 1 {
                lemma_text_le_transitive(t[i].device_name@, t.last().device_name@, x.device_name@);
            }
        }
    } else {
        let rest = t.drop_last();
        let inner = insert_by_name(rest, x);
        lemma_insert_ordered(rest, x);
        lemma_insert_multiset(rest, x);
        lemma_text_le_total(t.last().device_name@, x.device_name@);
        let r = inner.push(t.last());
        assert forall|i: int, j: int| 0 <= i < j < r.len() implies text_le(
            #[trigger] r[i].device_name@,
            #[trigger] r[j].device_name@,
        ) by {
            if j == inner.len() {
                let y = inner[i];
                assert(inner.contains(y));
                assert(inner.to_multiset().count(y) > 0);
                if y != x {
                    assert(rest.to_multiset().count(y) > 0);
                    assert(rest.contains(y));
                    let k = choose|k: int| 0 <= k < rest.len() && rest[k] == y;
                    assert(t[k] == y);
                    assert(text_le(t[k].device_name@, t[t.len() - 1].device_name@));
                }
            }
        }
    }
}

/// Sorting devices by name keeps exactly the same devices and orders them
/// by name.
pub proof fn lemma_sorted_by_name_sorts(devices: Seq<device_status::Model>)
    ensures
        sorted_by_name(devices).to_multiset() =~= devices.to_multiset(),
        ordered_by_name(sorted_by_name(devices)),
    decreases devices.len(),
{
    broadcast use vstd::seq_lib::group_to_multiset_ensures;

    if devices.len() > 0 {
        lemma_sorted_by_name_sorts(devices.drop_last());
        lemma_insert_multiset(sorted_by_name(devices.drop_last()), devices.last());
        lemma_insert_ordered(sorted_by_name(devices.drop_last()), devices.last());
        assert(devices.drop_last().push(devices.last()) =~= devices);
    }
}

} // verus!
