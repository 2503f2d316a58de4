//! Rendering of notification messages and the choice of where each change
//! notification goes, for either notification source.
use vstd::prelude::*;

use crate::entities::notify_history;
use crate::entities::notify_target;
use crate::entities::project::NotifySource;
use crate::models::ActiveNotify;
use crate::text::{
    has_prefix, lemma_replace_absent, lemma_replace_mismatch, lemma_replace_whole, replace,
    replace_all, starts_with, str_eq, string_from,
};
use crate::time::{rfc3339_of, Timestamp};

verus! {

/// Remote `ActiveNotify` entries are meant for LINE, but their `to` field may
/// hold a Discord webhook URL instead; only such entries are used.
pub const DISCORD_WEBHOOK_PREFIX: &'static str = "https://discord.com/api/webhooks/";

/// The message used when a target has no template of its own.
pub const DEFAULT_TEMPLATE: &'static str = "Alert: Device {device_name} ({device_id}) status changed to {status}";

/// The characters of an optional string slice.
pub open spec fn opt_str_view(o: Option<&str>) -> Option<Seq<char>> {
    match o {
        Some(s) => Some(s@),
        None => None,
    }
}

/// The template in effect: the given one unless it is missing or empty.
pub open spec fn template_in_effect(template: Option<Seq<char>>) -> Seq<char> {
    match template {
        Some(t) => if t.len() > 0 {
            t
        } else {
            DEFAULT_TEMPLATE@
        },
        None => DEFAULT_TEMPLATE@,
    }
}

/// The message for a status change: the placeholders `{device_id}`,
/// `{device_name}`, `{status}`, `{old_status}` and `{time}` are substituted
/// in that order (a missing old status reads `unset`).
pub open spec fn rendered_message(
    template: Option<Seq<char>>,
    device_id: Seq<char>,
    device_name: Seq<char>,
    old_status: Option<Seq<char>>,
    new_status: Seq<char>,
    time_text: Seq<char>,
) -> Seq<char> {
    let t0 = template_in_effect(template);
    let t1 = replace_all(t0, "{device_id}"@, device_id);
    let t2 = replace_all(t1, "{device_name}"@, device_name);
    let t3 = replace_all(t2, "{status}"@, new_status);
    let old = match old_status {
        Some(o) => o,
        None => "unset"@,
    };
    let t4 = replace_all(t3, "{old_status}"@, old);
    replace_all(t4, "{time}"@, time_text)
}

/// A non-empty template without any `{` holds no placeholder, and is sent
/// as it is.
pub proof fn lemma_plain_template_is_sent_verbatim(
    template: Seq<char>,
    device_id: Seq<char>,
    device_name: Seq<char>,
    old_status: Option<Seq<char>>,
    new_status: Seq<char>,
    time_text: Seq<char>,
)
    requires
        template.len() > 0,
        !template.contains('{'),
    ensures
        rendered_message(Some(template), device_id, device_name, old_status, new_status, time_text)
            == template,
{
    reveal_strlit("{device_id}");
    reveal_strlit("{device_name}");
    reveal_strlit("{status}");
    reveal_strlit("{old_status}");
    reveal_strlit("{time}");
    reveal_strlit("unset");
    let old = match old_status {
        Some(o) => o,
        None => "unset"@,
    };
    lemma_replace_absent(template, "{device_id}"@, device_id);
    lemma_replace_absent(template, "{device_name}"@, device_name);
    lemma_replace_absent(template, "{status}"@, new_status);
    lemma_replace_absent(template, "{old_status}"@, old);
    lemma_replace_absent(template, "{time}"@, time_text);
}

/// Substitutes `{device_id} {device_name} {status} {old_status} {time}` into
/// `template`, falling back to [`DEFAULT_TEMPLATE`] when `template` is
/// `None` or empty.
pub fn render_template(
    template: Option<&str>,
    device_id: &str,
    device_name: &str,
    old_status: Option<&str>,
    new_status: &str,
    time: &Timestamp,
) -> (message: String)
    ensures
        rfc3339_of(time@.0, time@.1) matches Some(time_text) && message@ == rendered_message(
            opt_str_view(template),
            device_id@,
            device_name@,
            opt_str_view(old_status),
            new_status@,
            time_text,
        ),
{
    let chosen: &str = match template {
        Some(t) => if t.is_empty() {
            DEFAULT_TEMPLATE
        } else {
            t
        },
        None => DEFAULT_TEMPLATE,
    };
    let old: &str = match old_status {
        Some(o) => o,
        None => "unset",
    };
    let time_text = time.to_rfc3339();
    proof {
        reveal_strlit("{device_id}");
        reveal_strlit("{device_name}");
        reveal_strlit("{status}");
        reveal_strlit("{old_status}");
        reveal_strlit("{time}");
    }
    let t1 = replace(chosen, "{device_id}", device_id);
    let t2 = replace(t1.as_str(), "{device_name}", device_name);
    let t3 = replace(t2.as_str(), "{status}", new_status);
    let t4 = replace(t3.as_str(), "{old_status}", old);
    replace(t4.as_str(), "{time}", time_text.as_str())
}

/// The characters of an optional string.
pub open spec fn opt_string_view(o: Option<String>) -> Option<Seq<char>> {
    match o {
        Some(s) => Some(s@),
        None => None,
    }
}

fn opt_as_str(o: &Option<String>) -> (r: Option<&str>)
    ensures
        opt_str_view(r) == opt_string_view(*o),
{
    match o {
        Some(s) => Some(s.as_str()),
        None => None,
    }
}

fn clone_opt(o: &Option<String>) -> (r: Option<String>)
    ensures
        r == *o,
{
    match o {
        Some(s) => Some(s.clone()),
        None => None,
    }
}

/// The RFC 3339 text of an instant.
pub open spec fn time_text(t: Timestamp) -> Seq<char> {
    match rfc3339_of(t@.0, t@.1) {
        Some(text) => text,
        None => Seq::empty(),
    }
}

/// A device status change to notify about.
#[derive(Clone, Debug)]
pub struct StatusChange {
    pub device_id: String,
    pub device_name: String,
    pub old_status: Option<String>,
    pub new_status: String,
    /// When the change was noticed.
    pub at: Timestamp,
}

/// The message for `change` rendered from `template`.
pub open spec fn change_message(template: Option<Seq<char>>, change: StatusChange) -> Seq<char> {
    rendered_message(
        template,
        change.device_id@,
        change.device_name@,
        opt_string_view(change.old_status),
        change.new_status@,
        time_text(change.at),
    )
}

/// The old status a message shows: the stored one, or `unset` when none was
/// stored.
pub open spec fn shown_old_status(change: StatusChange) -> Seq<char> {
    match change.old_status {
        Some(o) => o@,
        None => "unset"@,
    }
}

/// A missing template and an empty one both render as the default
/// template does.
pub proof fn lemma_missing_or_empty_template_uses_default(change: StatusChange)
    ensures
        change_message(Some(Seq::<char>::empty()), change) == change_message(None, change),
        change_message(None, change) == change_message(Some(DEFAULT_TEMPLATE@), change),
{
    reveal_strlit("Alert: Device {device_name} ({device_id}) status changed to {status}");
    assert(DEFAULT_TEMPLATE@.len() > 0);
}

/// A template made of the `{time}` placeholder alone renders to the RFC 3339
/// text of the change's own time, whatever the change's other fields hold.
pub proof fn lemma_time_placeholder_shows_change_time(change: StatusChange)
    ensures
        rfc3339_of(change.at@.0, change.at@.1) matches Some(t) ==> change_message(
            Some("{time}"@),
            change,
        ) == t,
{
    reveal_strlit("{device_id}");
    reveal_strlit("{device_name}");
    reveal_strlit("{status}");
    reveal_strlit("{old_status}");
    reveal_strlit("{time}");
    let t = "{time}"@;
    assert(replace_all(t, "{device_id}"@, change.device_id@) == t);
    assert(replace_all(t, "{device_name}"@, change.device_name@) == t);
    assert(replace_all(t, "{status}"@, change.new_status@) == t);
    assert(replace_all(t, "{old_status}"@, shown_old_status(change)) == t);
    lemma_replace_whole(t, time_text(change.at));
}

/// A template made of one of the placeholders `{device_id}`,
/// `{device_name}`, `{status}` or `{old_status}` alone renders to the
/// change's device id, device name, new status or shown old status, for
/// values that hold no `{` (and so no placeholder of their own).
pub proof fn lemma_field_placeholders_show_change_fields(change: StatusChange)
    ensures
        !change.device_id@.contains('{') ==> change_message(Some("{device_id}"@), change)
            == change.device_id@,
        !change.device_name@.contains('{') ==> change_message(Some("{device_name}"@), change)
            == change.device_name@,
        !change.new_status@.contains('{') ==> change_message(Some("{status}"@), change)
            == change.new_status@,
        !shown_old_status(change).contains('{') ==> change_message(Some("{old_status}"@), change)
            == shown_old_status(change),
{
    reveal_strlit("{device_id}");
    reveal_strlit("{device_name}");
    reveal_strlit("{status}");
    reveal_strlit("{old_status}");
    reveal_strlit("{time}");
    reveal_strlit("unset");
    let id = change.device_id@;
    let name = change.device_name@;
    let status = change.new_status@;
    let old = shown_old_status(change);
    let tt = time_text(change.at);
    if !id.contains('{') {
        lemma_replace_whole("{device_id}"@, id);
        lemma_replace_absent(id, "{device_name}"@, name);
        lemma_replace_absent(id, "{status}"@, status);
        lemma_replace_absent(id, "{old_status}"@, old);
        lemma_replace_absent(id, "{time}"@, tt);
    }
    if !name.contains('{') {
        let t = "{device_name}"@;
        assert forall|i: int| 1 <= i < t.len() implies t[i] != "{device_id}"@[0] by {
            assert(i == 1 || i == 2 || i == 3 || i == 4 || i == 5 || i == 6 || i == 7 || i == 8
                || i == 9 || i == 10 || i == 11 || i == 12);
        }
        lemma_replace_mismatch(t, "{device_id}"@, id, 8);
        lemma_replace_whole(t, name);
        lemma_replace_absent(name, "{status}"@, status);
        lemma_replace_absent(name, "{old_status}"@, old);
        lemma_replace_absent(name, "{time}"@, tt);
    }
    if !status.contains('{') {
        let t = "{status}"@;
        assert(replace_all(t, "{device_id}"@, id) == t);
        assert(replace_all(t, "{device_name}"@, name) == t);
        lemma_replace_whole(t, status);
        lemma_replace_absent(status, "{old_status}"@, old);
        lemma_replace_absent(status, "{time}"@, tt);
    }
    if !old.contains('{') {
        let t = "{old_status}"@;
        assert forall|i: int| 1 <= i < t.len() implies t[i] != "{device_id}"@[0] by {
            assert(i == 1 || i == 2 || i == 3 || i == 4 || i == 5 || i == 6 || i == 7 || i == 8
                || i == 9 || i == 10 || i == 11);
        }
        lemma_replace_mismatch(t, "{device_id}"@, id, 1);
        assert(replace_all(t, "{device_name}"@, name) == t);
        lemma_replace_mismatch(t, "{status}"@, status, 1);
        lemma_replace_whole(t, old);
        lemma_replace_absent(old, "{time}"@, tt);
    }
}

/// A local target whose template is `{time}` is sent the RFC 3339 text of
/// the time of the change itself.
pub proof fn lemma_local_time_template_sends_change_time(
    target: notify_target::Model,
    change: StatusChange,
)
    requires
        opt_string_view(target.message_template) == Some("{time}"@),
    ensures
        rfc3339_of(change.at@.0, change.at@.1) matches Some(t) ==> local_plan(target, change).2
            == t,
{
    lemma_time_placeholder_shows_change_time(change);
}

fn render_change(template: Option<&str>, change: &StatusChange) -> (message: String)
    ensures
        message@ == change_message(opt_str_view(template), *change),
{
    render_template(
        template,
        change.device_id.as_str(),
        change.device_name.as_str(),
        opt_as_str(&change.old_status),
        change.new_status.as_str(),
        &change.at,
    )
}

/// One notification to send, and how its attempt is labelled.
#[derive(Clone, Debug)]
pub struct NotificationPlan {
    pub source: NotifySource,
    pub webhook_url: String,
    pub message: String,
    /// The webhook URL (remote) or the notify target's name (local).
    pub target_label: String,
}

/// The view of a plan: source, webhook URL, message and label.
pub open spec fn plan_view(p: NotificationPlan) -> (NotifySource, Seq<char>, Seq<char>, Seq<char>) {
    (p.source, p.webhook_url@, p.message@, p.target_label@)
}

/// A remote notification setting is used when it is enabled, is of kind
/// `LINE`, and its `to` field holds a Discord webhook URL.
pub open spec fn forwards_to_discord(n: ActiveNotify) -> bool {
    n.enable && n.kind@ == "LINE"@ && starts_with(n.setting.to@, DISCORD_WEBHOOK_PREFIX@)
}

/// Whether a remote notification setting is used, see [`forwards_to_discord`].
pub fn is_discord_forward(n: &ActiveNotify) -> (r: bool)
    ensures
        r == forwards_to_discord(*n),
{
    n.enable && str_eq(n.kind.as_str(), "LINE") && has_prefix(
        n.setting.to.as_str(),
        DISCORD_WEBHOOK_PREFIX,
    )
}

/// The notifications that the remote settings `notifies` lead to, in order:
/// one per used setting, sent to its `to` URL and labelled with it, with the
/// setting's message as template.
pub open spec fn remote_plans(notifies: Seq<ActiveNotify>, change: StatusChange) -> Seq<
    (NotifySource, Seq<char>, Seq<char>, Seq<char>),
>
    decreases notifies.len(),
{
    if notifies.len() == 0 {
        Seq::empty()
    } else {
        let rest = remote_plans(notifies.drop_last(), change);
        let n = notifies.last();
        if forwards_to_discord(n) {
            rest.push(
                (
                    NotifySource::Remote,
                    n.setting.to@,
                    change_message(opt_string_view(n.setting.message), change),
                    n.setting.to@,
                ),
            )
        } else {
            rest
        }
    }
}

/// Plans the notifications of a change for a project whose notifications
/// are configured on the platform, see [`remote_plans`].
pub fn plan_remote_notifications(notifies: &Vec<ActiveNotify>, change: &StatusChange) -> (plans:
    Vec<NotificationPlan>)
    ensures
        plans@.map_values(|p: NotificationPlan| plan_view(p)) == remote_plans(notifies@, *change),
{
    let mut plans: Vec<NotificationPlan> = Vec::new();
    let mut i: usize = 0;
    while i < notifies.len()
        invariant
            i <= notifies@.len(),
            plans@.map_values(|p: NotificationPlan| plan_view(p)) == remote_plans(
                notifies@.subrange(0, i as int),
                *change,
            ),
        decreases notifies@.len() - i,
    {
        let ghost prefix = notifies@.subrange(0, i + 1);
        let ghost before = plans@;
        assert(prefix.drop_last() =~= notifies@.subrange(0, i as int));
        assert(prefix.last() == notifies@[i as int]);
        let n = &notifies[i];
        if is_discord_forward(n) {
            let message = render_change(opt_as_str(&n.setting.message), change);
            plans.push(
                NotificationPlan {
                    source: NotifySource::Remote,
                    webhook_url: n.setting.to.clone(),
                    message,
                    target_label: n.setting.to.clone(),
                },
            );
            assert(plans@.map_values(|p: NotificationPlan| plan_view(p)) =~= before.map_values(
                |p: NotificationPlan| plan_view(p),
            ).push(plan_view(plans@.last())));
        }
        i = i + 1;
    }
    assert(notifies@.subrange(0, notifies@.len() as int) =~= notifies@);
    plans
}

/// Whether a remote notification setting is used, as a predicate.
pub open spec fn forwarding() -> spec_fn(ActiveNotify) -> bool {
    |n: ActiveNotify| forwards_to_discord(n)
}

/// The remote notifications of a change go, in order, to the `to` URLs of
/// exactly the settings that forward to Discord, each labelled with its URL.
pub proof fn lemma_remote_plans_follow_forwarding_settings(
    notifies: Seq<ActiveNotify>,
    change: StatusChange,
)
    ensures
        remote_plans(notifies, change).map_values(
            |p: (NotifySource, Seq<char>, Seq<char>, Seq<char>)| p.1,
        ) == notifies.filter(forwarding()).map_values(|n: ActiveNotify| n.setting.to@),
        forall|i: int|
            0 <= i < remote_plans(notifies, change).len() ==> (#[trigger] remote_plans(
                notifies,
                change,
            )[i]).0 == NotifySource::Remote && remote_plans(notifies, change)[i].3 == remote_plans(
                notifies,
                change,
            )[i].1,
    decreases notifies.len(),
{
    reveal(Seq::filter);
    if notifies.len() > 0 {
        lemma_remote_plans_follow_forwarding_settings(notifies.drop_last(), change);
        let rest = remote_plans(notifies.drop_last(), change);
        let n = notifies.last();
        if forwards_to_discord(n) {
            let p = (
                NotifySource::Remote,
                n.setting.to@,
                change_message(opt_string_view(n.setting.message), change),
                n.setting.to@,
            );
            let kept = notifies.drop_last().filter(forwarding());
            assert(rest.push(p).map_values(|q: (NotifySource, Seq<char>, Seq<char>, Seq<char>)| q.1)
                =~= rest.map_values(|q: (NotifySource, Seq<char>, Seq<char>, Seq<char>)| q.1).push(
                p.1,
            ));
            assert(kept.push(n).map_values(|m: ActiveNotify| m.setting.to@) =~= kept.map_values(
                |m: ActiveNotify| m.setting.to@,
            ).push(n.setting.to@));
            assert forall|i: int| 0 <= i < rest.len() + 1 implies (#[trigger] rest.push(p)[i]).0
                == NotifySource::Remote && rest.push(p)[i].3 == rest.push(p)[i].1 by {
                if i < rest.len() {
                    assert(rest.push(p)[i] == rest[i]);
                }
            }
        }
    }
}

/// A remote setting that forwards to Discord with the template `{time}`
/// leads to a notification carrying the RFC 3339 text of the time of the
/// change itself.
pub proof fn lemma_remote_time_template_sends_change_time(
    notifies: Seq<ActiveNotify>,
    n: ActiveNotify,
    change: StatusChange,
)
    requires
        forwards_to_discord(n),
        opt_string_view(n.setting.message) == Some("{time}"@),
    ensures
        rfc3339_of(change.at@.0, change.at@.1) matches Some(t) ==> remote_plans(
            notifies.push(n),
            change,
        ).last().2 == t,
{
    assert(notifies.push(n).drop_last() =~= notifies);
    lemma_time_placeholder_shows_change_time(change);
}

/// The notification of a change sent to a local target: to its webhook URL,
/// labelled with its name, with its template.
pub open spec fn local_plan(target: notify_target::Model, change: StatusChange) -> (
    NotifySource,
    Seq<char>,
    Seq<char>,
    Seq<char>,
) {
    (
        NotifySource::Local,
        target.webhook_url@,
        change_message(opt_string_view(target.message_template), change),
        target.name@,
    )
}

/// Plans the notifications of a change for a project whose notifications
/// are configured locally: one per given target, in order.
pub fn plan_local_notifications(targets: &Vec<notify_target::Model>, change: &StatusChange) -> (plans:
    Vec<NotificationPlan>)
    ensures
        plans@.map_values(|p: NotificationPlan| plan_view(p)) == targets@.map_values(
            |t: notify_target::Model| local_plan(t, *change),
        ),
{
    let mut plans: Vec<NotificationPlan> = Vec::new();
    let mut i: usize = 0;
    while i < targets.len()
        invariant
            i <= targets@.len(),
            plans@.map_values(|p: NotificationPlan| plan_view(p)) == targets@.subrange(
                0,
                i as int,
            ).map_values(|t: notify_target::Model| local_plan(t, *change)),
        decreases targets@.len() - i,
    {
        let t = &targets[i];
        let ghost before = plans@;
        let message = render_change(opt_as_str(&t.message_template), change);
        plans.push(
            NotificationPlan {
                source: NotifySource::Local,
                webhook_url: t.webhook_url.clone(),
                message,
                target_label: t.name.clone(),
            },
        );
        assert(plan_view(plans@.last()) == local_plan(targets@[i as int], *change));
        assert(plans@.map_values(|p: NotificationPlan| plan_view(p)) =~= before.map_values(
            |p: NotificationPlan| plan_view(p),
        ).push(plan_view(plans@.last())));
        i = i + 1;
        assert(plans@.map_values(|p: NotificationPlan| plan_view(p)) =~= targets@.subrange(
            0,
            i as int,
        ).map_values(|t: notify_target::Model| local_plan(t, *change)));
    }
    assert(targets@.subrange(0, targets@.len() as int) =~= targets@);
    plans
}

/// The history record of one notification attempt for project
/// `project_id`, made at `sent_at`; `send_error` is the error of a failed
/// send and `None` after a successful one.  Its id is assigned when stored.
pub fn attempt_record(
    project_id: i32,
    change: &StatusChange,
    plan: &NotificationPlan,
    send_error: Option<String>,
    sent_at: Timestamp,
) -> (record: notify_history::Model)
    ensures
        record.id == 0,
        record.project_id == project_id,
        record.device_id == change.device_id,
        record.device_name == change.device_name,
        record.old_status == change.old_status,
        record.new_status == change.new_status,
        record.source@ == plan.source.name(),
        record.target_label == plan.target_label,
        record.message == plan.message,
        record.success == send_error is None,
        record.error == send_error,
        record.sent_at == sent_at,
{
    let success = send_error.is_none();
    notify_history::Model {
        id: 0,
        project_id,
        device_id: change.device_id.clone(),
        device_name: change.device_name.clone(),
        old_status: clone_opt(&change.old_status),
        new_status: change.new_status.clone(),
        source: string_from(plan.source.as_str()),
        target_label: plan.target_label.clone(),
        message: plan.message.clone(),
        success,
        error: send_error,
        sent_at,
    }
}

} // verus!
