use statuswatch::entities::device_status;
use statuswatch::entities::endpoint;
use statuswatch::entities::project;
use statuswatch::models::{ActiveInfo, ActiveStatus, Endpoint, EndpointTrait};
use statuswatch::poller::{diff_status, endpoint_model_to_api, plan_device_change, projects_to_poll, DeviceChange, DiffResult};
use statuswatch::time::Timestamp;

fn at(secs: i64) -> Timestamp {
    Timestamp::from_unix(secs, 0).unwrap()
}

fn info(status: ActiveStatus, last: Option<&str>) -> ActiveInfo {
    ActiveInfo {
        device_id: "dev1".to_string(),
        status,
        record: None,
        last_data_time: last.map(|s| s.to_string()),
        create_time: "2024-01-01".to_string(),
    }
}

fn stored(status: &str) -> device_status::Model {
    device_status::Model {
        id: 7,
        project_id: 3,
        device_id: "dev1".to_string(),
        device_name: "Sensor A".to_string(),
        status: status.to_string(),
        last_data_time: Some("old".to_string()),
        last_checked_at: at(100),
        last_changed_at: at(50),
    }
}

#[test]
fn diff_new_when_no_existing_row() {
    assert_eq!(diff_status(None, "online"), DiffResult::New);
}

#[test]
fn diff_unchanged_when_status_matches() {
    assert_eq!(diff_status(Some("online"), "online"), DiffResult::Unchanged);
}

#[test]
fn diff_changed_when_status_differs() {
    assert_eq!(
        diff_status(Some("online"), "abnormal"),
        DiffResult::Changed {
            old_status: "online".to_string()
        }
    );
}

#[test]
fn diff_is_case_sensitive() {
    assert_eq!(
        diff_status(Some("Online"), "online"),
        DiffResult::Changed {
            old_status: "Online".to_string()
        }
    );
}

#[test]
fn first_sighting_seeds_without_notifying() {
    let change = plan_device_change(None, 3, "dev1", "Sensor A", &info(ActiveStatus::Online, Some("t1")), at(200));
    match change {
        DeviceChange::Seed(row) => {
            assert_eq!(row.project_id, 3);
            assert_eq!(row.device_id, "dev1");
            assert_eq!(row.device_name, "Sensor A");
            assert_eq!(row.status, "Online");
            assert_eq!(row.last_data_time.as_deref(), Some("t1"));
            assert_eq!(row.last_checked_at.unix_seconds(), 200);
            assert_eq!(row.last_changed_at.unix_seconds(), 200);
        }
        other => panic!("expected a seed, got {other:?}"),
    }
}

#[test]
fn same_status_only_refreshes() {
    let change = plan_device_change(Some(stored("Online")), 3, "dev1", "Renamed", &info(ActiveStatus::Online, None), at(300));
    match change {
        DeviceChange::Refresh(row) => {
            assert_eq!(row.id, 7);
            assert_eq!(row.status, "Online");
            assert_eq!(row.device_name, "Sensor A");
            assert_eq!(row.last_data_time, None);
            assert_eq!(row.last_checked_at.unix_seconds(), 300);
            assert_eq!(row.last_changed_at.unix_seconds(), 50);
        }
        other => panic!("expected a refresh, got {other:?}"),
    }
}

#[test]
fn changed_status_transitions_and_notifies() {
    let change = plan_device_change(Some(stored("Online")), 3, "dev1", "Sensor A", &info(ActiveStatus::Abnormal, Some("t2")), at(400));
    match change {
        DeviceChange::Transition { row, old_status } => {
            assert_eq!(old_status, "Online");
            assert_eq!(row.id, 7);
            assert_eq!(row.status, "Abnormal");
            assert_eq!(row.last_data_time.as_deref(), Some("t2"));
            assert_eq!(row.last_checked_at.unix_seconds(), 400);
            assert_eq!(row.last_changed_at.unix_seconds(), 400);
        }
        other => panic!("expected a transition, got {other:?}"),
    }
}

#[test]
fn repeated_polls_notify_only_on_changes() {
    let observations = [
        ActiveStatus::Online,
        ActiveStatus::Online,
        ActiveStatus::Offline,
        ActiveStatus::Offline,
        ActiveStatus::Online,
    ];
    let mut row: Option<device_status::Model> = None;
    let mut notified = Vec::new();
    for (i, status) in observations.iter().enumerate() {
        let change = plan_device_change(row.clone(), 1, "d", "D", &info(*status, None), at(i as i64));
        row = Some(match change {
            DeviceChange::Seed(r) | DeviceChange::Refresh(r) => r,
            DeviceChange::Transition { row, old_status } => {
                notified.push((old_status, row.status.clone()));
                row
            }
        });
    }
    assert_eq!(
        notified,
        vec![
            ("Online".to_string(), "Offline".to_string()),
            ("Offline".to_string(), "Online".to_string())
        ]
    );
}

#[test]
fn endpoint_rows_map_to_their_api() {
    let row = |kind: &str| endpoint::Model {
        id: 1,
        name: "n".to_string(),
        base_url: "https://iot.example.com".to_string(),
        kind: kind.to_string(),
        created_at: at(0),
    };
    match endpoint_model_to_api(&row("edge")) {
        Endpoint::Edge(e) => assert_eq!(e.base_url, "https://iot.example.com"),
        other => panic!("{other:?}"),
    }
    assert!(matches!(endpoint_model_to_api(&row("general")), Endpoint::General(_)));
    assert!(matches!(endpoint_model_to_api(&row("Edge")), Endpoint::General(_)));
    assert_eq!(endpoint_model_to_api(&row("edge")).kind(), "Edge");
}

#[test]
fn projects_without_endpoint_are_not_polled() {
    let ep = |id: i32, name: &str| endpoint::Model {
        id,
        name: name.to_string(),
        base_url: format!("https://{name}"),
        kind: "general".to_string(),
        created_at: at(0),
    };
    let proj = |id: i32, endpoint_id: i32| project::Model {
        id,
        endpoint_id,
        project_key: format!("key{id}"),
        name: format!("p{id}"),
        notify_source: "remote".to_string(),
        poll_enabled: true,
        created_at: at(0),
    };
    let endpoints = vec![ep(1, "a"), ep(2, "b"), ep(1, "c")];
    let projects = vec![proj(10, 1), proj(11, 9), proj(12, 2)];
    let pairs = projects_to_poll(&endpoints, &projects);
    let got: Vec<(String, i32)> = pairs.iter().map(|(e, p)| (e.name.clone(), p.id)).collect();
    assert_eq!(got, vec![("c".to_string(), 10), ("b".to_string(), 12)]);
}
