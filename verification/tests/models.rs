use statuswatch::models::{
    ActiveStatus, EdgeAuthInfo, EdgeEndpoint, EdgeUrlError, EditSensor, Endpoint, EndpointTrait, GeneralAuthInfo,
    GeneralEndpoint, GetRawData, ProjectResp, RawData, Sensor, SensorType,
};
use statuswatch::platform::keep_fetched;

#[test]
fn new_sensor_is_blank_gauge() {
    let s = Sensor::new();
    assert_eq!(s.id, "");
    assert_eq!(s.name, "");
    assert_eq!(s.desc.as_deref(), Some(""));
    assert_eq!(s.kind, SensorType::Gauge);
    assert_eq!(s.uri, None);
    assert_eq!(s.formula, None);
    assert_eq!(s.attributes, Some(Vec::new()));
    let e = EditSensor::new();
    assert_eq!(e.name, "");
    assert_eq!(e.desc.as_deref(), Some(""));
    assert_eq!(e.kind, SensorType::Gauge);
    assert_eq!(e.attributes, Some(Vec::new()));
    assert_eq!(e.uri, None);
}

#[test]
fn all_value_joins_with_spaces() {
    let raw = RawData {
        id: "r".to_string(),
        device_id: "d".to_string(),
        value: vec![Some("1".to_string()), None, Some("c".to_string())],
        time: None,
    };
    assert_eq!(raw.all_value(), "1  c");
    let get = GetRawData {
        id: "r".to_string(),
        device_id: "d".to_string(),
        value: vec![],
        time: "t".to_string(),
    };
    assert_eq!(get.all_value(), "");
    let one = GetRawData {
        id: "r".to_string(),
        device_id: "d".to_string(),
        value: vec![Some("only".to_string())],
        time: "t".to_string(),
    };
    assert_eq!(one.all_value(), "only");
}

#[test]
fn status_and_sensor_type_names() {
    let names: Vec<String> = [
        ActiveStatus::Unset,
        ActiveStatus::Start,
        ActiveStatus::Online,
        ActiveStatus::Offline,
        ActiveStatus::Stop,
        ActiveStatus::Abnormal,
    ]
    .iter()
    .map(|s| s.to_string())
    .collect();
    assert_eq!(names, ["Unset", "Start", "Online", "Offline", "Stop", "Abnormal"]);
    assert_eq!(ActiveStatus::default(), ActiveStatus::Unset);
    assert_eq!(SensorType::Snapshot.to_string(), "Snapshot");
    assert_eq!(SensorType::Gauge.to_string(), "Gauge");
}

#[test]
fn general_endpoint_urls() {
    let e = GeneralEndpoint { base_url: "https://h/api".to_string() };
    assert_eq!(e.metadata(), "https://h/api/metadata");
    assert_eq!(e.rawdata("d1"), "https://h/api/device/d1/rawdata");
    assert_eq!(e.sensor_rawdata("d1", "s1"), "https://h/api/device/d1/sensor/s1/rawdata");
    assert_eq!(e.snapshot("d1", "s1", "n1"), "https://h/api/device/d1/sensor/s1/snapshot/n1");
    assert_eq!(e.baseurl(), "https://h/api");
    assert_eq!(e.kind(), "General");
    assert_eq!(e.all_device(), "https://h/api/device");
    assert_eq!(e.device("d1"), "https://h/api/device/d1");
    assert_eq!(e.all_sensor("d1"), "https://h/api/device/d1/sensor");
    assert_eq!(e.sensor("d1", "s1"), "https://h/api/device/d1/sensor/s1");
    assert_eq!(e.active("d1"), "https://h/api/device/d1/active");
    assert_eq!(e.active_setting("d1"), "https://h/api/device/d1/active/setting");
    assert_eq!(e.active_notify("d1"), "https://h/api/device/d1/active/notify");
    assert_eq!(e.active_notify_delete("d1", 42), "https://h/api/device/d1/active/notify/42");
    assert_eq!(e.expression("x"), "https://h/api/expression/x");
    assert_eq!(e.all_expression(), "https://h/api/expression");
}

#[test]
fn edge_endpoint_urls_differ_only_in_snapshot_and_kind() {
    let g = Endpoint::General(GeneralEndpoint { base_url: "b".to_string() });
    let e = Endpoint::Edge(EdgeEndpoint { base_url: "b".to_string() });
    assert_eq!(e.snapshot("d", "s", "n"), "b/snapshot/device/d/sensor/s/snapshot/n");
    assert_eq!(g.snapshot("d", "s", "n"), "b/device/d/sensor/s/snapshot/n");
    assert_eq!(e.kind(), "Edge");
    assert_eq!(g.kind(), "General");
    assert_eq!(e.device("d"), g.device("d"));
    assert_eq!(e.sensor_rawdata("d", "s"), g.sensor_rawdata("d", "s"));
    assert_eq!(e.active_notify_delete("d", -7), "b/device/d/active/notify/-7");
    assert_eq!(g.active_notify_delete("d", i32::MIN), "b/device/d/active/notify/-2147483648");
    assert_eq!(e.active_notify_delete("d", 0), "b/device/d/active/notify/0");
    assert_eq!(e.metadata(), "b/metadata");
    assert_eq!(e.all_expression(), "b/expression");
}

#[test]
fn auth_info_urls() {
    let g = GeneralAuthInfo::new("https://g", "key");
    assert_eq!(g.endpoint, "https://g");
    assert_eq!(g.x_api_key, "key");
    assert_eq!(GeneralAuthInfo::projects_url("https://g"), "https://g/project");
    assert_eq!(GeneralAuthInfo::project_detail_url("https://g", "p1"), "https://g/project/p1");
    assert_eq!(EdgeAuthInfo::auth_url("https://e"), "https://e/iot/v1/auth");
    assert_eq!(EdgeAuthInfo::project_url("https://e"), "https://e/iot/v1/project");
}

#[test]
fn edge_login_target_is_scheme_host_and_username() {
    let info = EdgeAuthInfo::new("https://edge.example.com:8443/login?x=1&username=al%20ice&username=bob", "dg");
    assert_eq!(info.digest, "dg");
    let target = info.auth_target().unwrap();
    assert_eq!(target.base_url, "https://edge.example.com");
    assert_eq!(target.username, "al ice");
}

#[test]
fn edge_login_target_errors() {
    assert_eq!(EdgeAuthInfo::new("not a url", "d").auth_target(), Err(EdgeUrlError::InvalidUrl));
    assert_eq!(EdgeAuthInfo::new("mailto:someone@example.com?username=x", "d").auth_target(), Err(EdgeUrlError::MissingHost));
    assert_eq!(EdgeAuthInfo::new("https://edge.example.com/?user=x", "d").auth_target(), Err(EdgeUrlError::MissingUsername));
}

#[test]
fn failed_project_fetches_are_dropped() {
    let p = |id: &str| ProjectResp { id: id.to_string(), ..Default::default() };
    let results: Vec<Result<ProjectResp, String>> = vec![Ok(p("a")), Err("x".to_string()), Ok(p("b"))];
    let kept = keep_fetched(results);
    let ids: Vec<&str> = kept.iter().map(|p| p.id.as_str()).collect();
    assert_eq!(ids, ["a", "b"]);
}
