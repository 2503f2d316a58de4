use chrono::{DateTime, Utc};
use statuswatch::entities::notify_target;
use statuswatch::entities::project::{self, NotifySource};
use statuswatch::models::{ActiveNotify, ActiveNotifySetting};
use statuswatch::notify::{
    attempt_record, is_discord_forward, plan_local_notifications, plan_remote_notifications, render_template,
    StatusChange, DEFAULT_TEMPLATE, DISCORD_WEBHOOK_PREFIX,
};
use statuswatch::time::Timestamp;

fn stamp(t: DateTime<Utc>) -> Timestamp {
    Timestamp::from_unix(t.timestamp(), t.timestamp_subsec_nanos()).unwrap()
}

fn fixed_time() -> Timestamp {
    let time = DateTime::parse_from_rfc3339("2026-08-24T00:00:00Z")
        .unwrap()
        .with_timezone(&Utc);
    stamp(time)
}

#[test]
fn render_template_substitutes_all_variables() {
    let time = fixed_time();
    let out = render_template(
        Some("{device_name}/{device_id}: {old_status} -> {status} @ {time}"),
        "dev1",
        "Sensor A",
        Some("online"),
        "offline",
        &time,
    );
    assert_eq!(out, "Sensor A/dev1: online -> offline @ 2026-08-24T00:00:00+00:00");
}

#[test]
fn render_template_falls_back_to_default_when_empty() {
    let time = stamp(Utc::now());
    let out = render_template(Some(""), "dev1", "Sensor A", None, "abnormal", &time);
    assert_eq!(out, "Alert: Device Sensor A (dev1) status changed to abnormal");
}

#[test]
fn render_template_falls_back_to_default_when_none() {
    let time = stamp(Utc::now());
    let out = render_template(None, "dev1", "Sensor A", None, "abnormal", &time);
    assert_eq!(out, "Alert: Device Sensor A (dev1) status changed to abnormal");
}

#[test]
fn render_template_missing_old_status_reads_unset() {
    let out = render_template(Some("{old_status}->{status}"), "d", "n", None, "Online", &fixed_time());
    assert_eq!(out, "unset->Online");
}

#[test]
fn render_template_replaces_every_occurrence_and_keeps_other_text() {
    let out = render_template(Some("{status}{status} {unknown} {time"), "d", "n", None, "X", &fixed_time());
    assert_eq!(out, "XX {unknown} {time");
}

#[test]
fn render_template_substitutes_in_order() {
    // A device id that itself looks like a placeholder is substituted again later.
    let out = render_template(Some("[{device_id}]"), "{device_name}", "N", None, "S", &fixed_time());
    assert_eq!(out, "[N]");
}

#[test]
fn render_template_time_keeps_subseconds() {
    let t = Timestamp::from_unix(0, 500_000_000).unwrap();
    let out = render_template(Some("{time}"), "d", "n", None, "s", &t);
    assert_eq!(out, "1970-01-01T00:00:00.500+00:00");
}

#[test]
fn default_template_text() {
    assert_eq!(DEFAULT_TEMPLATE, "Alert: Device {device_name} ({device_id}) status changed to {status}");
    assert_eq!(DISCORD_WEBHOOK_PREFIX, "https://discord.com/api/webhooks/");
}

fn notify(enable: bool, kind: &str, to: &str, message: Option<&str>) -> ActiveNotify {
    ActiveNotify {
        id: 1,
        device_id: "dev1".to_string(),
        enable,
        name: "n".to_string(),
        kind: kind.to_string(),
        setting: ActiveNotifySetting {
            to: to.to_string(),
            message: message.map(|m| m.to_string()),
        },
        create_time: "c".to_string(),
    }
}

fn change() -> StatusChange {
    StatusChange {
        device_id: "dev1".to_string(),
        device_name: "Sensor A".to_string(),
        old_status: Some("Online".to_string()),
        new_status: "Offline".to_string(),
        at: fixed_time(),
    }
}

#[test]
fn only_enabled_line_slots_with_discord_urls_are_used() {
    let hook = "https://discord.com/api/webhooks/1/abc";
    let notifies = vec![
        notify(true, "LINE", hook, Some("{old_status}>{status}")),
        notify(false, "LINE", hook, None),
        notify(true, "EMAIL", hook, None),
        notify(true, "LINE", "https://example.com/hook", None),
        notify(true, "LINE", hook, None),
    ];
    assert!(is_discord_forward(&notifies[0]));
    assert!(!is_discord_forward(&notifies[3]));
    let plans = plan_remote_notifications(&notifies, &change());
    assert_eq!(plans.len(), 2);
    assert_eq!(plans[0].source, NotifySource::Remote);
    assert_eq!(plans[0].webhook_url, hook);
    assert_eq!(plans[0].target_label, hook);
    assert_eq!(plans[0].message, "Online>Offline");
    assert_eq!(plans[1].message, "Alert: Device Sensor A (dev1) status changed to Offline");
}

#[test]
fn every_local_target_gets_a_message() {
    let targets = vec![
        notify_target::Model {
            id: 1,
            project_id: 2,
            name: "ops".to_string(),
            webhook_url: "https://discord.com/api/webhooks/ops".to_string(),
            message_template: Some("{device_name} is {status}".to_string()),
            enabled: true,
        },
        notify_target::Model {
            id: 2,
            project_id: 2,
            name: "dev".to_string(),
            webhook_url: "https://hooks.example/dev".to_string(),
            message_template: None,
            enabled: true,
        },
    ];
    let plans = plan_local_notifications(&targets, &change());
    assert_eq!(plans.len(), 2);
    assert_eq!(plans[0].source, NotifySource::Local);
    assert_eq!(plans[0].target_label, "ops");
    assert_eq!(plans[0].message, "Sensor A is Offline");
    assert_eq!(plans[1].webhook_url, "https://hooks.example/dev");
    assert_eq!(plans[1].message, "Alert: Device Sensor A (dev1) status changed to Offline");
}

#[test]
fn attempt_records_outcome() {
    let plans = plan_local_notifications(
        &vec![notify_target::Model {
            id: 1,
            project_id: 2,
            name: "ops".to_string(),
            webhook_url: "u".to_string(),
            message_template: None,
            enabled: true,
        }],
        &change(),
    );
    let ok = attempt_record(2, &change(), &plans[0], None, fixed_time());
    assert!(ok.success);
    assert_eq!(ok.error, None);
    assert_eq!(ok.source, "local");
    assert_eq!(ok.target_label, "ops");
    assert_eq!(ok.old_status.as_deref(), Some("Online"));
    let failed = attempt_record(2, &change(), &plans[0], Some("boom".to_string()), fixed_time());
    assert!(!failed.success);
    assert_eq!(failed.error.as_deref(), Some("boom"));
}

fn project_with_source(source: &str) -> project::Model {
    project::Model {
        id: 1,
        endpoint_id: 1,
        project_key: "k".to_string(),
        name: "p".to_string(),
        notify_source: source.to_string(),
        poll_enabled: true,
        created_at: fixed_time(),
    }
}

#[test]
fn notify_source_names_round_trip() {
    assert_eq!(NotifySource::from_str("remote"), Ok(NotifySource::Remote));
    assert_eq!(NotifySource::from_str("local"), Ok(NotifySource::Local));
    assert_eq!(NotifySource::from_str("Local"), Err(()));
    for s in [NotifySource::Remote, NotifySource::Local] {
        assert_eq!(NotifySource::from_str(s.as_str()), Ok(s));
        assert_eq!(s.to_string(), s.as_str());
    }
    assert_eq!(NotifySource::default(), NotifySource::Remote);
}

#[test]
fn unknown_notify_source_falls_back_to_remote() {
    assert_eq!(NotifySource::of_project(&project_with_source("local")), NotifySource::Local);
    assert_eq!(NotifySource::of_project(&project_with_source("remote")), NotifySource::Remote);
    assert_eq!(NotifySource::of_project(&project_with_source("bogus")), NotifySource::Remote);
}

#[test]
fn timestamps_outside_chrono_range_are_refused() {
    assert!(Timestamp::from_unix(i64::MAX, 0).is_none());
    assert!(Timestamp::from_unix(0, 2_000_000_000).is_none());
    let t = Timestamp::from_unix(86_400, 0).unwrap();
    assert_eq!(t.to_rfc3339(), "1970-01-02T00:00:00+00:00");
    assert_eq!(t.unix_seconds(), 86_400);
    assert_eq!(t.subsec_nanos(), 0);
}

#[test]
fn plain_template_is_sent_verbatim() {
    let out = render_template(Some("Device went down!"), "d", "n", Some("Online"), "Offline", &fixed_time());
    assert_eq!(out, "Device went down!");
}
