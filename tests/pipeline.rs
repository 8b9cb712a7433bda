use nano_gcp_logging::entry::{entry_body, render_entry, QuotedEntry, INGESTION_URL};
use nano_gcp_logging::metadata::{
    assemble_metadata, container_id_from_cgroup, fallback_metadata, zone_from_path,
    ContainerMetadata, InstanceMetadata, LogContextMetadata,
};
use nano_gcp_logging::queue::LogQueue;
use nano_gcp_logging::record::{capture_record, decimal_string, format_record, LogRecord};
use nano_gcp_logging::severity::{map_level_to_severity, Level};
use nano_gcp_logging::worker::{DeliveryWorker, WorkerAction};

fn s(x: &str) -> String {
    x.to_string()
}

fn sample_metadata(container: bool) -> LogContextMetadata {
    LogContextMetadata {
        container: if container {
            Some(ContainerMetadata { id: s("abc123"), name: s("web-1") })
        } else {
            None
        },
        instance: InstanceMetadata {
            name: s("vm-1"),
            id: s("987"),
            zone: s("us-central1-a"),
            project_id: s("dummy-project-id"),
        },
    }
}

fn record(severity: &str, message: &str) -> LogRecord {
    LogRecord { message: s(message), severity: s(severity) }
}

#[test]
fn severity_table() {
    assert_eq!(map_level_to_severity(Level::Error), "ERROR");
    assert_eq!(map_level_to_severity(Level::Warn), "WARNING");
    assert_eq!(map_level_to_severity(Level::Info), "INFO");
    assert_eq!(map_level_to_severity(Level::Debug), "DEBUG");
    assert_eq!(map_level_to_severity(Level::Trace), "DEBUG");
    let allowed = ["ERROR", "WARNING", "INFO", "DEBUG"];
    for level in [Level::Error, Level::Warn, Level::Info, Level::Debug, Level::Trace] {
        assert!(allowed.contains(&map_level_to_severity(level)));
    }
}

#[test]
fn decimal_digits() {
    assert_eq!(decimal_string(0), "0");
    assert_eq!(decimal_string(7), "7");
    assert_eq!(decimal_string(42), "42");
    assert_eq!(decimal_string(1000), "1000");
    assert_eq!(decimal_string(u32::MAX), "4294967295");
}

#[test]
fn formatted_line_with_all_parts() {
    let r = format_record(
        "2025-01-02 03:04:05,678",
        Level::Warn,
        "app::net",
        Some("src/main.rs"),
        Some(42),
        Some(s("This is a warning log")),
    );
    assert_eq!(r.severity, "WARNING");
    assert_eq!(
        r.message,
        "[2025-01-02 03:04:05,678] WARNING [app::net src/main.rs:42] [This is a warning log]"
    );
}

#[test]
fn formatted_line_with_missing_parts() {
    let r = format_record("ts", Level::Trace, "t", None, None, None);
    assert_eq!(r.severity, "DEBUG");
    assert_eq!(r.message, "[ts] DEBUG [t unknown_file:0] [**UNDEFINED**]");
}

#[test]
fn captured_record_carries_a_timestamp() {
    let r = capture_record(Level::Info, "tgt", Some("f.rs"), Some(3), Some(s("This is an info log")));
    assert_eq!(r.severity, "INFO");
    assert!(r.message.starts_with('['));
    assert!(r.message.ends_with("] INFO [tgt f.rs:3] [This is an info log]"));
    let ts_end = r.message.find(']').unwrap();
    let ts = &r.message[1..ts_end];
    assert_eq!(ts.len(), 23);
    assert_eq!(&ts[19..20], ",");
}

#[test]
fn zone_is_last_path_segment() {
    assert_eq!(zone_from_path("projects/123/zones/us-central1-a"), "us-central1-a");
    assert_eq!(zone_from_path("plain"), "plain");
    assert_eq!(zone_from_path(""), "");
    assert_eq!(zone_from_path("a/b/"), "");
}

#[test]
fn cgroup_container_ids() {
    assert_eq!(container_id_from_cgroup("0::/docker/abc123\n"), Some(s("abc123")));
    assert_eq!(container_id_from_cgroup("12:cpu:/kubepods/x/y\r\n1:mem:/z"), Some(s("y")));
    assert_eq!(container_id_from_cgroup("none\nhere\n"), None);
    assert_eq!(container_id_from_cgroup(""), None);
    assert_eq!(container_id_from_cgroup("first\n1:/p/q"), Some(s("q")));
    assert_eq!(container_id_from_cgroup("0::/\n"), Some(s("")));
}

#[test]
fn assembled_metadata_with_everything_found() {
    let m = assemble_metadata(
        s("proj"),
        Some(s("cid")),
        Some(s("host-7")),
        Some(s("vm-1")),
        Some(s("987")),
        Some(s("projects/1/zones/europe-west1-b")),
    );
    let c = m.container.unwrap();
    assert_eq!(c.id, "cid");
    assert_eq!(c.name, "host-7");
    assert_eq!(m.instance.name, "vm-1");
    assert_eq!(m.instance.id, "987");
    assert_eq!(m.instance.zone, "europe-west1-b");
    assert_eq!(m.instance.project_id, "proj");
}

#[test]
fn assembled_metadata_with_nothing_found() {
    let m = assemble_metadata(s("proj"), None, Some(s("host-7")), None, None, None);
    assert!(m.container.is_none());
    assert_eq!(m.instance.name, "");
    assert_eq!(m.instance.id, "");
    assert_eq!(m.instance.zone, "");
    assert_eq!(m.instance.project_id, "proj");
    let m = assemble_metadata(s("proj"), Some(s("cid")), None, None, None, None);
    assert_eq!(m.container.unwrap().name, "unknown");
}

#[test]
fn fallback_metadata_values() {
    let m = fallback_metadata(s("dummy-project-id"));
    assert!(m.container.is_none());
    assert_eq!(m.instance.name, "unknown");
    assert_eq!(m.instance.id, "0");
    assert_eq!(m.instance.zone, "");
    assert_eq!(m.instance.project_id, "dummy-project-id");
}

#[test]
fn rendered_entry_layout() {
    let q = QuotedEntry {
        log_name: s("\"L\""),
        severity: s("\"S\""),
        message: s("\"M\""),
        instance_id: s("\"I\""),
        instance_name: s("\"N\""),
        project_id: s("\"P\""),
        zone: s("\"Z\""),
        container: None,
    };
    assert_eq!(
        render_entry(&q),
        "{\"entries\":[{\"jsonPayload\":{\"container\":null,\"instance\":{\"id\":\"I\",\"name\":\"N\",\"project_id\":\"P\",\"zone\":\"Z\"},\"message\":\"M\"},\"logName\":\"L\",\"resource\":{\"labels\":{\"instance_id\":\"I\",\"project_id\":\"P\",\"zone\":\"Z\"},\"type\":\"gce_instance\"},\"severity\":\"S\"}]}"
    );
    let q = QuotedEntry { container: Some((s("\"c\""), s("\"n\""))), ..q };
    assert!(render_entry(&q)
        .starts_with("{\"entries\":[{\"jsonPayload\":{\"container\":{\"id\":\"c\",\"name\":\"n\"},\"instance\""));
}

#[test]
fn entry_body_is_valid_json_with_the_event() {
    let meta = sample_metadata(true);
    let msg = "[ts] ERROR [t f:1] [He said \"hi\"\n\tand left \\ ok]";
    let body = entry_body(&meta, &record("ERROR", msg));
    let v: serde_json::Value = serde_json::from_str(&body).unwrap();
    let e = &v["entries"][0];
    assert_eq!(e["severity"], "ERROR");
    assert_eq!(e["jsonPayload"]["message"], msg);
    assert_eq!(e["logName"], "projects/dummy-project-id/logs/proxie");
    assert_eq!(e["resource"]["type"], "gce_instance");
    assert_eq!(e["resource"]["labels"]["instance_id"], "987");
    assert_eq!(e["resource"]["labels"]["zone"], "us-central1-a");
    assert_eq!(e["resource"]["labels"]["project_id"], "dummy-project-id");
    assert_eq!(e["jsonPayload"]["container"]["id"], "abc123");
    assert_eq!(e["jsonPayload"]["container"]["name"], "web-1");
    assert_eq!(e["jsonPayload"]["instance"]["name"], "vm-1");
    let no_container = entry_body(&sample_metadata(false), &record("INFO", "m"));
    let v: serde_json::Value = serde_json::from_str(&no_container).unwrap();
    assert!(v["entries"][0]["jsonPayload"]["container"].is_null());
}

#[test]
fn worker_without_token_never_posts_and_warns_once() {
    let mut w = DeliveryWorker::new(String::new(), sample_metadata(false));
    let mut warnings = 0;
    let mut posts = 0;
    for i in 0..50 {
        match w.step(Some(record("INFO", &format!("event {}", i)))) {
            WorkerAction::WarnNoAuth => warnings += 1,
            WorkerAction::Post { .. } => posts += 1,
            WorkerAction::Drop => {}
            WorkerAction::Idle => panic!("a record came"),
        }
    }
    assert_eq!(warnings, 1);
    assert_eq!(posts, 0);
    assert!(w.warned_no_auth);
}

#[test]
fn worker_with_token_posts_each_record() {
    let mut w = DeliveryWorker::new(s("fake-token"), sample_metadata(false));
    for (sev, msg) in [("INFO", "This is an info log"), ("WARNING", "This is a warning log")] {
        match w.step(Some(record(sev, msg))) {
            WorkerAction::Post { body, bearer } => {
                assert_eq!(bearer, "fake-token");
                let v: serde_json::Value = serde_json::from_str(&body).unwrap();
                assert_eq!(v["entries"][0]["severity"], sev);
                assert_eq!(v["entries"][0]["jsonPayload"]["message"], msg);
            }
            _ => panic!("expected a post"),
        }
    }
    assert!(!w.warned_no_auth);
    assert!(matches!(w.step(None), WorkerAction::Idle));
}

#[test]
fn queue_keeps_order() {
    let (tx, mut rx) = tokio::sync::mpsc::unbounded_channel::<LogRecord>();
    let q = LogQueue::new(tx);
    assert!(q.push(record("INFO", "one")));
    assert!(q.push(record("INFO", "two")));
    assert!(q.on_event(Level::Error, "t", Some("f.rs"), Some(9), Some(s("three"))));
    assert_eq!(rx.try_recv().unwrap().message, "one");
    assert_eq!(rx.try_recv().unwrap().message, "two");
    let third = rx.try_recv().unwrap();
    assert_eq!(third.severity, "ERROR");
    assert!(third.message.ends_with("] ERROR [t f.rs:9] [three]"));
    assert!(rx.try_recv().is_err());
}

#[test]
fn queue_after_receiver_dropped_does_not_panic() {
    let (tx, rx) = tokio::sync::mpsc::unbounded_channel::<LogRecord>();
    let q = LogQueue::new(tx);
    drop(rx);
    assert!(!q.push(record("INFO", "lost")));
    assert!(!q.on_event(Level::Info, "t", None, None, None));
}

#[test]
fn ingestion_url_is_fixed() {
    assert_eq!(INGESTION_URL, "https://logging.googleapis.com/v2/entries:write");
}

#[test]
fn entry_body_escapes_control_characters() {
    let meta = sample_metadata(false);
    let msg = "a\u{1}b\u{8}c\u{1f}d/e\u{7f}";
    let body = entry_body(&meta, &record("DEBUG", msg));
    assert!(body.contains("\"message\":\"a\\u0001b\\bc\\u001fd/e\u{7f}\""));
    let v: serde_json::Value = serde_json::from_str(&body).unwrap();
    assert_eq!(v["entries"][0]["jsonPayload"]["message"], msg);
}
