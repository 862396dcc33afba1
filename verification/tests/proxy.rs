use std::collections::HashMap;

use containerd_shim_wasmtime::proxy::{
    after_task, listen_addr, never_replied_message, read_slot, request_env, settle, ListenAddr,
    ProxySettings, RequestError, RequestIds, Slot, SocketFamily, TaskEnd, Verdict, DEFAULT_BACKLOG,
    DEFAULT_PORT,
};

fn pair(key: &str, value: &str) -> (String, String) {
    (key.to_string(), value.to_string())
}

fn as_map(env: &[(String, String)]) -> HashMap<String, String> {
    env.iter().cloned().collect()
}

#[test]
fn defaults_are_port_8080_and_backlog_100() {
    assert_eq!(DEFAULT_PORT, 8080);
    assert_eq!(DEFAULT_BACKLOG, 100);
    assert_eq!(ListenAddr::unspecified(), ListenAddr::V4 { octets: 0, port: 8080 });
}

#[test]
fn unset_address_listens_on_all_interfaces_port_8080() {
    let settings = ProxySettings::from_env(&[pair("PATH", "/bin")]);
    assert_eq!(settings.addr, None);
    assert_eq!(settings.backlog, 100);
    let addr = listen_addr(None);
    assert_eq!(addr, ListenAddr::V4 { octets: 0, port: 8080 });
    assert_eq!(addr.family(), SocketFamily::V4);
}

#[test]
fn configured_address_is_used_as_read() {
    let v4 = ListenAddr::V4 { octets: 0x7f00_0001, port: 3000 };
    assert_eq!(listen_addr(Some(v4)), v4);
    assert_eq!(v4.family(), SocketFamily::V4);
    let v6 = ListenAddr::V6 { segments: 1, port: 443, flowinfo: 0, scope_id: 0 };
    assert_eq!(listen_addr(Some(v6)), v6);
    assert_eq!(v6.family(), SocketFamily::V6);
}

#[test]
fn settings_are_taken_out_of_the_environment() {
    let env = vec![
        pair("A", "1"),
        pair("WASMTIME_HTTP_PROXY_SOCKET_ADDR", "127.0.0.1:9000"),
        pair("B", "2"),
        pair("WASMTIME_HTTP_BACKLOG", "7"),
        pair("C", "3"),
    ];
    let settings = ProxySettings::from_env(&env);
    assert_eq!(settings.addr.as_deref(), Some("127.0.0.1:9000"));
    assert_eq!(settings.backlog, 7);
    assert_eq!(settings.env, vec![pair("A", "1"), pair("B", "2"), pair("C", "3")]);
}

#[test]
fn later_entry_of_a_key_wins() {
    let env = vec![
        pair("WASMTIME_HTTP_BACKLOG", "1"),
        pair("X", "old"),
        pair("WASMTIME_HTTP_PROXY_SOCKET_ADDR", "first"),
        pair("X", "new"),
        pair("WASMTIME_HTTP_BACKLOG", "2"),
        pair("WASMTIME_HTTP_PROXY_SOCKET_ADDR", "second"),
    ];
    let settings = ProxySettings::from_env(&env);
    assert_eq!(settings.addr.as_deref(), Some("second"));
    assert_eq!(settings.backlog, 2);
    assert_eq!(settings.env, vec![pair("X", "new")]);
}

#[test]
fn backlog_that_is_no_number_is_the_default() {
    for text in ["", "many", "-3", "4294967296", "1.5", " 8"] {
        let settings = ProxySettings::from_env(&[pair("WASMTIME_HTTP_BACKLOG", text)]);
        assert_eq!(settings.backlog, 100, "{text:?}");
        assert!(settings.env.is_empty());
    }
    let settings = ProxySettings::from_env(&[pair("WASMTIME_HTTP_BACKLOG", "0")]);
    assert_eq!(settings.backlog, 0);
    let settings = ProxySettings::from_env(&[pair("WASMTIME_HTTP_BACKLOG", "4294967295")]);
    assert_eq!(settings.backlog, u32::MAX);
}

#[test]
fn similar_names_are_left_to_the_guest() {
    let env = vec![
        pair("WASMTIME_HTTP_BACKLOG_", "1"),
        pair("WASMTIME_HTTP_PROXY_SOCKET_ADD", "2"),
        pair("wasmtime_http_backlog", "3"),
    ];
    let settings = ProxySettings::from_env(&env);
    assert_eq!(settings.addr, None);
    assert_eq!(settings.backlog, 100);
    assert_eq!(settings.env, env);
}

#[test]
fn what_is_left_is_the_map_without_the_settings() {
    let env = vec![
        pair("K1", "a"),
        pair("K2", "b"),
        pair("WASMTIME_HTTP_BACKLOG", "5"),
        pair("K1", "c"),
        pair("K3", ""),
        pair("K2", "d"),
        pair("", "nameless"),
    ];
    let settings = ProxySettings::from_env(&env);
    let mut expected = as_map(&env);
    expected.remove("WASMTIME_HTTP_PROXY_SOCKET_ADDR");
    expected.remove("WASMTIME_HTTP_BACKLOG");
    assert_eq!(as_map(&settings.env), expected);
    assert_eq!(settings.env.len(), expected.len());
}

#[test]
fn empty_environment_gives_defaults_and_nothing_else() {
    let settings = ProxySettings::from_env(&[]);
    assert_eq!(settings.addr, None);
    assert_eq!(settings.backlog, 100);
    assert!(settings.env.is_empty());
}

#[test]
fn request_env_adds_the_request_id_at_the_end() {
    let base = vec![pair("A", "1"), pair("B", "2")];
    assert_eq!(
        request_env(&base, 0),
        vec![pair("A", "1"), pair("B", "2"), pair("REQUEST_ID", "0")]
    );
    assert_eq!(request_env(&[], 42), vec![pair("REQUEST_ID", "42")]);
    assert_eq!(
        request_env(&[], u64::MAX),
        vec![pair("REQUEST_ID", "18446744073709551615")]
    );
    assert_eq!(base, vec![pair("A", "1"), pair("B", "2")]);
}

#[test]
fn request_env_keeps_an_earlier_request_id_entry() {
    let base = vec![pair("REQUEST_ID", "mine")];
    assert_eq!(
        request_env(&base, 3),
        vec![pair("REQUEST_ID", "mine"), pair("REQUEST_ID", "3")]
    );
}

#[test]
fn request_ids_start_at_zero_and_rise_by_one() {
    let mut ids = RequestIds::new();
    assert_eq!(ids.next, 0);
    let issued: Vec<u64> = (0..1000).map(|_| ids.next_req_id()).collect();
    for (at, id) in issued.iter().enumerate() {
        assert_eq!(*id, at as u64);
    }
    assert_eq!(ids.next, 1000);
}

#[test]
fn request_ids_are_pairwise_distinct_and_increasing() {
    let mut ids = RequestIds::new();
    let mut last = ids.next_req_id();
    for _ in 0..5000 {
        let id = ids.next_req_id();
        assert!(id > last);
        last = id;
    }
}

#[test]
fn request_ids_wrap_behind_the_largest_number() {
    let mut ids = RequestIds { next: u64::MAX - 1 };
    assert_eq!(ids.next_req_id(), u64::MAX - 1);
    assert_eq!(ids.next_req_id(), u64::MAX);
    assert_eq!(ids.next_req_id(), 0);
    assert_eq!(ids.next_req_id(), 1);
}

type Outcome = Result<&'static str, RequestError<u16, String>>;

#[test]
fn written_response_is_returned_whatever_the_task_does() {
    let ok: Outcome = settle(Slot::Filled(Ok("payload")), TaskEnd::Succeeded);
    assert!(matches!(ok, Ok("payload")));
    let ok: Outcome = settle(Slot::Filled(Ok("payload")), TaskEnd::Failed("later".to_string()));
    assert!(matches!(ok, Ok("payload")));
    let verdict: Verdict<&str, u16> = read_slot(Slot::Filled(Ok("payload")));
    assert!(matches!(verdict, Verdict::Respond("payload")));
}

#[test]
fn written_error_is_the_guests_own() {
    let err: Outcome = settle(Slot::Filled(Err(502)), TaskEnd::Succeeded);
    assert!(matches!(err, Err(RequestError::Proxy(502))));
    let err: Outcome = settle(Slot::Filled(Err(502)), TaskEnd::Failed("later".to_string()));
    assert!(matches!(err, Err(RequestError::Proxy(502))));
    let verdict: Verdict<&str, u16> = read_slot(Slot::Filled(Err(502)));
    assert!(matches!(verdict, Verdict::Reject(502)));
}

#[test]
fn silent_guest_is_reported_as_never_replied() {
    let err: Outcome = settle(Slot::Closed, TaskEnd::Succeeded);
    assert!(matches!(err, Err(RequestError::NeverReplied)));
    let verdict: Verdict<&str, u16> = read_slot(Slot::Closed);
    assert!(matches!(verdict, Verdict::AskTask));
    let error: RequestError<u16, String> = after_task(TaskEnd::Succeeded);
    assert!(matches!(error, RequestError::NeverReplied));
}

#[test]
fn failed_guest_is_reported_with_its_own_failure() {
    let err: Outcome = settle(Slot::Closed, TaskEnd::Failed("trap: unreachable".to_string()));
    match err {
        Err(RequestError::Guest(cause)) => assert_eq!(cause, "trap: unreachable"),
        _ => panic!("the task's failure must be the cause"),
    }
    let error: RequestError<u16, String> = after_task(TaskEnd::Failed("boom".to_string()));
    assert!(matches!(error, RequestError::Guest(cause) if cause == "boom"));
}

#[test]
fn never_replied_has_words_of_its_own() {
    assert_eq!(
        never_replied_message(),
        "guest never invoked `response-outparam::set` method"
    );
}

#[test]
fn what_is_left_keeps_each_key_where_it_first_stood() {
    let env = vec![
        pair("K1", "a"),
        pair("WASMTIME_HTTP_PROXY_SOCKET_ADDR", "[::1]:80"),
        pair("K2", "b"),
        pair("K1", "c"),
        pair("K3", "d"),
        pair("K2", "e"),
    ];
    let settings = ProxySettings::from_env(&env);
    assert_eq!(settings.env, vec![pair("K1", "c"), pair("K2", "e"), pair("K3", "d")]);
    assert_eq!(settings.addr.as_deref(), Some("[::1]:80"));
}
