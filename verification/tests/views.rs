use statuswatch::components::badge::{status_badge_classes, tone_of_lowercase};
use statuswatch::entities::device_status;
use statuswatch::entities::endpoint;
use statuswatch::entities::project;
use statuswatch::time::Timestamp;
use statuswatch::views::dashboard::{count_status, group_devices, summarize_projects};
use statuswatch::views::history::{old_status_display, HistoryQuery};
use statuswatch::views::notify_targets::NotifyTargetForm;
use statuswatch::views::projects::ProjectForm;

fn at(secs: i64) -> Timestamp {
    Timestamp::from_unix(secs, 0).unwrap()
}

fn device(project_id: i32, id: &str, name: &str, status: &str) -> device_status::Model {
    device_status::Model {
        id: 0,
        project_id,
        device_id: id.to_string(),
        device_name: name.to_string(),
        status: status.to_string(),
        last_data_time: None,
        last_checked_at: at(0),
        last_changed_at: at(0),
    }
}

#[test]
fn badge_colours_ignore_case() {
    let pill = "inline-block rounded-full px-2 py-0.5 text-xs font-semibold ";
    assert_eq!(status_badge_classes("Online"), format!("{pill}bg-green-100 text-green-800"));
    assert_eq!(status_badge_classes("ABNORMAL"), format!("{pill}bg-red-100 text-red-800"));
    assert_eq!(status_badge_classes("offline"), format!("{pill}bg-red-100 text-red-800"));
    assert_eq!(status_badge_classes("Stop"), format!("{pill}bg-yellow-100 text-yellow-800"));
    assert_eq!(status_badge_classes("start"), format!("{pill}bg-yellow-100 text-yellow-800"));
    assert_eq!(status_badge_classes("Unset"), format!("{pill}bg-gray-100 text-gray-800"));
    assert_eq!(status_badge_classes(""), format!("{pill}bg-gray-100 text-gray-800"));
}

#[test]
fn count_status_ignores_ascii_case() {
    let devices = vec![device(1, "a", "A", "Online"), device(1, "b", "B", "online"), device(1, "c", "C", "Offline")];
    assert_eq!(count_status(&devices, "online"), 2);
    assert_eq!(count_status(&devices, "offline"), 1);
    assert_eq!(count_status(&devices, "stop"), 0);
    assert_eq!(count_status(&[], "online"), 0);
}

#[test]
fn device_groups_are_sorted_stably_by_name() {
    let devices = vec![
        device(1, "1", "beta", "Online"),
        device(2, "2", "alpha", "Online"),
        device(1, "3", "alpha", "Offline"),
        device(1, "4", "beta", "Stop"),
        device(1, "5", "Alpha", "Stop"),
    ];
    let group = group_devices(&devices, 1).unwrap();
    let ids: Vec<&str> = group.iter().map(|d| d.device_id.as_str()).collect();
    assert_eq!(ids, ["5", "3", "1", "4"]);
    assert!(group_devices(&devices, 3).is_none());
}

#[test]
fn dashboard_summaries() {
    let endpoints = vec![endpoint::Model {
        id: 1,
        name: "Main".to_string(),
        base_url: "u".to_string(),
        kind: "general".to_string(),
        created_at: at(0),
    }];
    let proj = |id: i32, endpoint_id: i32| project::Model {
        id,
        endpoint_id,
        project_key: "k".to_string(),
        name: format!("p{id}"),
        notify_source: "remote".to_string(),
        poll_enabled: true,
        created_at: at(0),
    };
    let projects = vec![proj(1, 1), proj(2, 5)];
    let devices = vec![
        device(1, "a", "A", "Online"),
        device(1, "b", "B", "Abnormal"),
        device(1, "c", "C", "Unset"),
        device(1, "d", "D", "weird"),
    ];
    let s = summarize_projects(&endpoints, &projects, &devices);
    assert_eq!(s.len(), 2);
    assert_eq!(s[0].endpoint_name, "Main");
    assert_eq!(s[0].total, 4);
    assert_eq!((s[0].online, s[0].offline, s[0].abnormal, s[0].start, s[0].stop, s[0].unset), (1, 0, 1, 0, 0, 1));
    assert!(s[0].online + s[0].offline + s[0].abnormal + s[0].start + s[0].stop + s[0].unset <= s[0].total);
    assert_eq!(s[1].endpoint_name, "(unknown endpoint)");
    assert!(s[1].devices.is_none());
    assert_eq!(s[1].total, 0);
}

#[test]
fn history_project_filter() {
    let q = |v: Option<&str>| HistoryQuery { project_id: v.map(|s| s.to_string()) }.selected_project_id();
    assert_eq!(q(None), None);
    assert_eq!(q(Some("")), None);
    assert_eq!(q(Some("12")), Some(12));
    assert_eq!(q(Some("abc")), None);
    assert_eq!(q(Some("-3")), Some(-3));
    assert_eq!(old_status_display(&None), "-");
    assert_eq!(old_status_display(&Some("Online".to_string())), "Online");
}

#[test]
fn project_form_normalises_fields() {
    let form = |source: &str, poll: Option<&str>| ProjectForm {
        name: "n".to_string(),
        project_key: "k".to_string(),
        notify_source: source.to_string(),
        poll_enabled: poll.map(|s| s.to_string()),
    };
    assert_eq!(form("local", None).notify_source(), "local");
    assert_eq!(form("remote", None).notify_source(), "remote");
    assert_eq!(form("", None).notify_source(), "remote");
    assert_eq!(form("LOCAL", None).notify_source(), "remote");
    assert!(form("", Some("on")).poll_enabled());
    assert!(!form("", Some("off")).poll_enabled());
    assert!(!form("", None).poll_enabled());
}

#[test]
fn notify_target_form_normalises_fields() {
    let form = |template: &str, enabled: Option<&str>| NotifyTargetForm {
        name: "n".to_string(),
        webhook_url: "u".to_string(),
        message_template: template.to_string(),
        enabled: enabled.map(|s| s.to_string()),
    };
    assert_eq!(form("  {status}  ", None).message_template().as_deref(), Some("{status}"));
    assert_eq!(form(" \t ", None).message_template(), None);
    assert_eq!(form("", None).message_template(), None);
    assert!(form("", Some("on")).enabled());
    assert!(!form("", None).enabled());
}

#[test]
fn badge_tone_of_lowercase_status() {
    assert_eq!(tone_of_lowercase("online"), "bg-green-100 text-green-800");
    assert_eq!(tone_of_lowercase("Online"), "bg-gray-100 text-gray-800");
    assert_eq!(tone_of_lowercase("stop"), "bg-yellow-100 text-yellow-800");
    assert_eq!(tone_of_lowercase("abnormal"), "bg-red-100 text-red-800");
}
