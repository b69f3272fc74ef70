use unifi_protect_client::models::camera::{CameraUpdate, RecordingMode, RecordingSettingsUpdate};
use unifi_protect_client::models::device_tag::DeviceTag;
use unifi_protect_client::{Method, UnifiProtectClient};

fn client() -> UnifiProtectClient {
    UnifiProtectClient::new("https://192.168.1.1", "admin", "password")
}

#[test]
fn url_joins_host_and_path() {
    assert_eq!(client().url_for("a/b"), "https://192.168.1.1/a/b");
}

#[test]
fn list_cameras_call() {
    let r = client().list_cameras_request();
    assert_eq!(r.method, Method::Get);
    assert_eq!(r.url, "https://192.168.1.1/proxy/protect/api/cameras");
    assert!(r.body.is_none());
}

#[test]
fn device_tags_call() {
    let r = client().get_device_tags_request();
    assert_eq!(r.method, Method::Get);
    assert_eq!(r.url, "https://192.168.1.1/proxy/protect/api/device-tags");
    assert!(r.body.is_none());
}

#[test]
fn update_camera_call_always() {
    let update = CameraUpdate {
        recording_settings: Some(RecordingSettingsUpdate { mode: Some(RecordingMode::Always) }),
    };
    let r = client().update_camera_request("camera-id-123", &update);
    assert_eq!(r.method, Method::Patch);
    assert_eq!(r.url, "https://192.168.1.1/proxy/protect/api/cameras/camera-id-123");
    assert_eq!(r.body.as_deref(), Some(r#"{"recordingSettings":{"mode":"always"}}"#));
}

#[test]
fn update_bodies() {
    let never = CameraUpdate {
        recording_settings: Some(RecordingSettingsUpdate { mode: Some(RecordingMode::Never) }),
    };
    assert_eq!(never.to_json(), r#"{"recordingSettings":{"mode":"never"}}"#);
    let schedule = RecordingSettingsUpdate { mode: Some(RecordingMode::Schedule) };
    assert_eq!(schedule.to_json(), r#"{"mode":"schedule"}"#);
    let no_mode = CameraUpdate { recording_settings: Some(RecordingSettingsUpdate { mode: None }) };
    assert_eq!(no_mode.to_json(), r#"{"recordingSettings":{}}"#);
    assert_eq!(RecordingSettingsUpdate { mode: None }.to_json(), "{}");
    let no_change = CameraUpdate { recording_settings: None };
    assert_eq!(no_change.to_json(), "{}");
}

#[test]
fn mode_names_round_trip() {
    for mode in [RecordingMode::Always, RecordingMode::Schedule, RecordingMode::Never] {
        assert_eq!(RecordingMode::from_wire_name(mode.wire_name()), Some(mode));
    }
    assert_eq!(RecordingMode::Always.wire_name(), "always");
    assert_eq!(RecordingMode::Schedule.wire_name(), "schedule");
    assert_eq!(RecordingMode::Never.wire_name(), "never");
    assert_eq!(RecordingMode::from_wire_name("Always"), None);
    assert_eq!(RecordingMode::from_wire_name(""), None);
}

#[test]
fn device_tag_holds_fields() {
    let tag = DeviceTag {
        id: "t1".to_string(),
        name: "Front".to_string(),
        device_macs: vec!["AA:BB".to_string()],
        model_key: "deviceTag".to_string(),
    };
    assert_eq!(tag.device_macs.len(), 1);
    assert_eq!(tag.model_key, "deviceTag");
}
