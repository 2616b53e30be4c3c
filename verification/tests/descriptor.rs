use repl::connection::{connection_path, new_session_key, write_connection_file, ConnectionInfo};
use repl::storage::{MemStorage, Storage};

fn sample_info() -> ConnectionInfo {
    ConnectionInfo::build(
        &vec![9001, 9002, 9003, 9004, 9005],
        "secret-key".to_string(),
        "zed-python".to_string(),
    )
}

#[test]
fn descriptor_json_matches_the_wire_schema_exactly() {
    let info = sample_info();
    let expected = "{\"transport\":\"tcp\",\"ip\":\"127.0.0.1\",\"stdin_port\":9001,\"control_port\":9002,\"hb_port\":9003,\"shell_port\":9004,\"iopub_port\":9005,\"signature_scheme\":\"hmac-sha256\",\"key\":\"secret-key\",\"kernel_name\":\"zed-python\"}";
    assert_eq!(info.to_json(), expected);
}

#[test]
fn descriptor_json_escapes_special_characters() {
    let info = ConnectionInfo::build(
        &vec![1, 2, 3, 4, 5],
        "a\"b\\c\nd".to_string(),
        "zed-x".to_string(),
    );
    let json = info.to_json();
    assert!(json.contains("\"key\":\"a\\\"b\\\\c\\u000ad\""));
}

#[test]
fn descriptor_json_is_readable_by_a_json_parser() {
    let info = sample_info();
    let value: serde_json::Value = serde_json::from_str(&info.to_json()).unwrap();
    assert_eq!(value["transport"], "tcp");
    assert_eq!(value["ip"], "127.0.0.1");
    assert_eq!(value["stdin_port"], 9001);
    assert_eq!(value["control_port"], 9002);
    assert_eq!(value["hb_port"], 9003);
    assert_eq!(value["shell_port"], 9004);
    assert_eq!(value["iopub_port"], 9005);
    assert_eq!(value["signature_scheme"], "hmac-sha256");
    assert_eq!(value["key"], "secret-key");
    assert_eq!(value["kernel_name"], "zed-python");
}

#[test]
fn connection_paths_embed_the_session_identity() {
    let dir = "/run/user/1000/jupyter".to_string();
    assert_eq!(
        connection_path(&dir, 42),
        "/run/user/1000/jupyter/kernel-zed-42.json"
    );
    assert_eq!(
        connection_path(&dir, 0),
        "/run/user/1000/jupyter/kernel-zed-0.json"
    );
    assert_ne!(connection_path(&dir, 1), connection_path(&dir, 2));
}

#[test]
fn session_keys_are_long_and_fresh() {
    let a = new_session_key();
    let b = new_session_key();
    assert_eq!(a.len(), 36);
    assert_eq!(b.len(), 36);
    assert_ne!(a, b);
}

#[test]
fn write_connection_file_persists_the_descriptor() {
    let mut fs = MemStorage::new();
    let info = sample_info();
    let path = "/run/kernel-zed-1.json".to_string();
    assert!(write_connection_file(&info, &path, &mut fs));
    assert_eq!(fs.load(&path).unwrap(), info.to_json());
}
