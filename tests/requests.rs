use file_server::handler::handle;
use file_server::message::{file_path, Request, Status, Verb};
use file_server::ops::{plan, respond, FileError, FileOp};
use file_server::store::MemStore;

fn store_with(path: &str, content: &[u8]) -> MemStore {
    let mut store = MemStore::new();
    store.create_or_replace(&path.to_string(), content.to_vec());
    store
}

fn request(method: &str, target: &str, body: &[u8]) -> Request {
    Request::new(method, target, body.to_vec())
}

#[test]
fn test_post() {
    let post_uri = "/post-data";
    let post_path = &post_uri[1..];
    let mut store = MemStore::new();
    let response = handle(&mut store, request("POST", post_uri, b"hello"));
    assert_eq!(response.status, Status::Accepted);

    let contents = store.read(&post_path.to_string()).unwrap();
    assert_eq!(String::from_utf8(contents).unwrap(), "hello");
}

#[test]
fn test_delete() {
    let delete_uri = "/delete-data";
    let delete_path = &delete_uri[1..];
    let mut store = store_with(delete_path, b"hello");

    let response = handle(&mut store, request("DELETE", delete_uri, b"hello"));
    assert_eq!(response.status, Status::Accepted);
    assert!(store.read(&delete_path.to_string()).is_err());
}

#[test]
fn test_get() {
    let get_uri = "/get-data";
    let get_path = &get_uri[1..];
    let mut store = store_with(get_path, b"hello");

    let response = handle(&mut store, request("GET", get_uri, b""));
    assert_eq!(String::from_utf8(response.body).unwrap(), "hello".to_string());
}

#[test]
fn test_put() {
    let put_uri = "/put-data";
    let put_path = &put_uri[1..];
    let mut store = store_with(put_path, b"hello");

    let response = handle(&mut store, request("PUT", put_uri, b"xxx"));
    assert_eq!(response.status, Status::Accepted);

    let contents = store.read(&put_path.to_string()).unwrap();
    assert_eq!(String::from_utf8(contents).unwrap(), "xxxlo");
}

#[test]
fn post_then_get_returns_the_json_body() {
    let mut store = MemStore::new();
    let body = br#"{"key1":"value1"}"#;
    let posted = handle(&mut store, request("POST", "/data", body));
    assert_eq!(posted.status, Status::Accepted);
    assert!(posted.body.is_empty());

    let got = handle(&mut store, request("GET", "/data", b""));
    assert_eq!(got.status, Status::Accepted);
    assert_eq!(got.body, body.to_vec());
}

#[test]
fn delete_then_get_is_not_found() {
    let mut store = MemStore::new();
    handle(&mut store, request("POST", "/data", br#"{"key1":"value1"}"#));
    let deleted = handle(&mut store, request("DELETE", "/data", b""));
    assert_eq!(deleted.status, Status::Accepted);

    let got = handle(&mut store, request("GET", "/data", b""));
    assert_eq!(got.status, Status::NotFound);
    assert!(got.body.is_empty());
}

#[test]
fn create_then_read_round_trips_any_bytes() {
    let mut store = MemStore::new();
    let body: Vec<u8> = vec![0, 255, 10, 13, 128, 7];
    handle(&mut store, request("POST", "/bin", &body));
    let got = handle(&mut store, request("GET", "/bin", b""));
    assert_eq!(got.status, Status::Accepted);
    assert_eq!(got.body, body);
}

#[test]
fn create_replaces_longer_content() {
    let mut store = store_with("notes", b"a long old content");
    handle(&mut store, request("POST", "/notes", b"new"));
    assert_eq!(store.read(&"notes".to_string()).unwrap(), b"new".to_vec());
}

#[test]
fn delete_of_missing_file_is_accepted() {
    let mut store = MemStore::new();
    let response = handle(&mut store, request("DELETE", "/nothing-here", b""));
    assert_eq!(response.status, Status::Accepted);
    assert!(response.body.is_empty());
    assert!(store.read(&"nothing-here".to_string()).is_err());
}

#[test]
fn delete_twice_is_accepted_both_times() {
    let mut store = store_with("twice", b"x");
    assert_eq!(handle(&mut store, request("DELETE", "/twice", b"")).status, Status::Accepted);
    assert_eq!(handle(&mut store, request("DELETE", "/twice", b"")).status, Status::Accepted);
}

#[test]
fn put_with_equal_length_replaces_all() {
    let mut store = store_with("same", b"abc");
    handle(&mut store, request("PUT", "/same", b"xyz"));
    assert_eq!(store.read(&"same".to_string()).unwrap(), b"xyz".to_vec());
}

#[test]
fn put_with_longer_body_extends_the_file() {
    let mut store = store_with("short", b"ab");
    let response = handle(&mut store, request("PUT", "/short", b"wxyz"));
    assert_eq!(response.status, Status::Accepted);
    assert_eq!(store.read(&"short".to_string()).unwrap(), b"wxyz".to_vec());
}

#[test]
fn put_with_empty_body_keeps_the_file() {
    let mut store = store_with("keep", b"hello");
    handle(&mut store, request("PUT", "/keep", b""));
    assert_eq!(store.read(&"keep".to_string()).unwrap(), b"hello".to_vec());
}

#[test]
fn put_on_missing_file_fails_and_creates_nothing() {
    let mut store = MemStore::new();
    let response = handle(&mut store, request("PUT", "/absent", b"xxx"));
    assert_eq!(response.status, Status::NotFound);
    assert_eq!(response.status.code(), 404);
    assert_eq!(store.read(&"absent".to_string()), Err(FileError::NotFound));
}

#[test]
fn unknown_verb_is_not_implemented_and_touches_nothing() {
    let mut store = store_with("data", b"hello");
    let response = handle(&mut store, request("PATCH", "/data", b"xxx"));
    assert_eq!(response.status, Status::NotImplemented);
    assert_eq!(response.status.code(), 501);
    assert_eq!(response.body, b"Unidentified request-method".to_vec());
    assert_eq!(store.read(&"data".to_string()).unwrap(), b"hello".to_vec());

    let created = handle(&mut store, request("PATCH", "/other", b"xxx"));
    assert_eq!(created.status, Status::NotImplemented);
    assert!(store.read(&"other".to_string()).is_err());
}

#[test]
fn get_of_missing_file_is_not_found() {
    let mut store = MemStore::new();
    let response = handle(&mut store, request("GET", "/missing", b""));
    assert_eq!(response.status, Status::NotFound);
}

#[test]
fn get_of_root_is_not_the_greeting() {
    let mut store = MemStore::new();
    let response = handle(&mut store, request("GET", "/", b""));
    assert_ne!(response.body, b"hello".to_vec());
    assert_eq!(response.status, Status::NotFound);
}

#[test]
fn distinct_paths_are_independent() {
    let mut store = MemStore::new();
    handle(&mut store, request("POST", "/a", b"first"));
    handle(&mut store, request("POST", "/b", b"second"));
    handle(&mut store, request("DELETE", "/a", b""));
    assert!(store.read(&"a".to_string()).is_err());
    assert_eq!(store.read(&"b".to_string()).unwrap(), b"second".to_vec());
}

#[test]
fn methods_are_read_case_sensitively() {
    assert_eq!(Verb::from_method("GET"), Verb::Get);
    assert_eq!(Verb::from_method("PUT"), Verb::Put);
    assert_eq!(Verb::from_method("POST"), Verb::Post);
    assert_eq!(Verb::from_method("DELETE"), Verb::Delete);
    assert_eq!(Verb::from_method("get"), Verb::Other);
    assert_eq!(Verb::from_method("PATCH"), Verb::Other);
    assert_eq!(Verb::from_method(""), Verb::Other);
}

#[test]
fn target_loses_its_leading_slash() {
    assert_eq!(file_path("/data"), "data");
    assert_eq!(file_path("/dir/file.txt"), "dir/file.txt");
    assert_eq!(file_path("/"), "");
    assert_eq!(file_path("data"), "data");
    assert_eq!(file_path(""), "");
}

#[test]
fn status_codes() {
    assert_eq!(Status::Success.code(), 200);
    assert_eq!(Status::Accepted.code(), 202);
    assert_eq!(Status::NotFound.code(), 404);
    assert_eq!(Status::NotImplemented.code(), 501);
    assert_eq!(Status::InternalError.code(), 500);
}

#[test]
fn plan_follows_the_verb() {
    match plan(request("PUT", "/p", b"xy")) {
        FileOp::Overwrite { path, body } => {
            assert_eq!(path, "p");
            assert_eq!(body, b"xy".to_vec());
        }
        other => panic!("unexpected {:?}", other),
    }
    assert!(matches!(plan(request("GET", "/p", b"")), FileOp::Read { .. }));
    assert!(matches!(plan(request("POST", "/p", b"")), FileOp::CreateOrReplace { .. }));
    assert!(matches!(plan(request("DELETE", "/p", b"")), FileOp::Remove { .. }));
    assert!(matches!(plan(request("OPTIONS", "/p", b"")), FileOp::Unsupported));
}

#[test]
fn other_failures_are_internal_errors() {
    let op = FileOp::CreateOrReplace { path: "p".to_string(), body: vec![1] };
    assert_eq!(respond(&op, Err(FileError::Other)).status, Status::InternalError);
    assert_eq!(Status::InternalError.code(), 500);
    let read = FileOp::Read { path: "p".to_string() };
    assert_eq!(respond(&read, Err(FileError::Other)).status, Status::InternalError);
    assert_eq!(respond(&read, Err(FileError::NotFound)).status, Status::NotFound);
    let write = FileOp::Overwrite { path: "p".to_string(), body: vec![1] };
    let ok = respond(&write, Ok(vec![9]));
    assert_eq!(ok.status, Status::Accepted);
    assert!(ok.body.is_empty());
}

#[test]
fn remove_is_accepted_whatever_the_outcome() {
    let op = FileOp::Remove { path: "p".to_string() };
    assert_eq!(respond(&op, Err(FileError::Other)).status, Status::Accepted);
    assert_eq!(respond(&op, Err(FileError::NotFound)).status, Status::Accepted);
}
