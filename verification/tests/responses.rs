use kube_wasi::error::{ClientError, InferConfigError};
use kube_wasi::host::{self, HostError};
use kube_wasi::response::{
    delete_answer, found_or_none, translate_watch_event, DeleteAnswer, StatusSummary, WatchEvent,
};

#[test]
fn found_or_none_maps_not_found() {
    let ok: Result<u8, ClientError> = Ok(3);
    assert!(matches!(found_or_none(ok), Ok(Some(3))));
    let missing: Result<u8, ClientError> = Err(ClientError::Wit(HostError::NotFound));
    assert!(matches!(found_or_none(missing), Ok(None)));
    let other: Result<u8, ClientError> = Err(ClientError::Wit(HostError::Other("x".to_string())));
    assert!(matches!(found_or_none(other), Err(ClientError::Wit(HostError::Other(ref m))) if m == "x"));
    let wasi: Result<u8, ClientError> = Err(ClientError::Wasi("w".to_string()));
    assert!(matches!(found_or_none(wasi), Err(ClientError::Wasi(ref m)) if m == "w"));
}

#[test]
fn delete_answers() {
    assert!(matches!(delete_answer(r#"{"kind":"Status","code":200}"#), Ok(DeleteAnswer::Status(_))));
    assert!(matches!(delete_answer(r#"{"kind":"Status"}"#), Ok(DeleteAnswer::Status(_))));
    assert!(matches!(delete_answer(r#"{"kind":"Status","code":399}"#), Ok(DeleteAnswer::Status(_))));
    assert!(matches!(delete_answer(r#"{"kind":"Status","code":600}"#), Ok(DeleteAnswer::Status(_))));
    assert_eq!(delete_answer(r#"{"kind":"Pod","metadata":{}}"#).unwrap(), DeleteAnswer::Object);
    assert_eq!(delete_answer(r#"{"metadata":{}}"#).unwrap(), DeleteAnswer::Object);
    assert_eq!(delete_answer(r#"{"kind":7}"#).unwrap(), DeleteAnswer::Object);
    assert!(matches!(delete_answer("not json"), Err(ClientError::SerdeError(_))));
    assert!(matches!(delete_answer(r#"{"kind":"Status","code":"x"}"#), Err(ClientError::SerdeError(_))));
    match delete_answer(r#"{"kind":"Status","status":"Success","code":200,"message":"gone"}"#) {
        Ok(DeleteAnswer::Status(st)) => {
            assert_eq!(st.code, 200);
            assert_eq!(st.message, "gone");
        }
        other => panic!("unexpected {:?}", other),
    }
}

#[test]
fn delete_error_status_is_an_error() {
    let body = r#"{"kind":"Status","status":"Failure","message":"pods \"x\" not found","reason":"NotFound","code":404}"#;
    match delete_answer(body) {
        Err(ClientError::Api(st)) => {
            assert_eq!(st.code, 404);
            assert_eq!(st.status, Some(StatusSummary::Failure));
            assert_eq!(st.message, "pods \"x\" not found");
            assert_eq!(st.reason, "NotFound");
        }
        other => panic!("unexpected {:?}", other),
    }
    match delete_answer(r#"{"kind":"Status","code":500}"#) {
        Err(ClientError::Api(st)) => {
            assert_eq!(st.code, 500);
            assert_eq!(st.status, None);
            assert_eq!(st.message, "");
            assert_eq!(st.reason, "");
        }
        other => panic!("unexpected {:?}", other),
    }
}

#[test]
fn watch_events_translate() {
    assert_eq!(
        translate_watch_event(host::WatchEvent::Added("a".to_string())),
        WatchEvent::Added("a".to_string())
    );
    assert_eq!(
        translate_watch_event(host::WatchEvent::Modified("m".to_string())),
        WatchEvent::Modified("m".to_string())
    );
    assert_eq!(
        translate_watch_event(host::WatchEvent::Deleted("d".to_string())),
        WatchEvent::Deleted("d".to_string())
    );
    assert_eq!(
        translate_watch_event(host::WatchEvent::Bookmark("b".to_string())),
        WatchEvent::Bookmark("b".to_string())
    );
    match translate_watch_event(host::WatchEvent::Error(HostError::Other("boom \"x\"".to_string()))) {
        WatchEvent::Error(st) => {
            assert_eq!(st.status, Some(StatusSummary::Failure));
            assert_eq!(st.code, 500);
            assert_eq!(st.reason, "WitError");
            assert_eq!(st.message, "wit_error: Other(\"boom \\\"x\\\"\")");
            assert_eq!(st.message, format!("wit_error: {:?}", HostError::Other("boom \"x\"".to_string())));
        }
        other => panic!("unexpected {:?}", other),
    }
    match translate_watch_event(host::WatchEvent::Error(HostError::NotFound)) {
        WatchEvent::Error(st) => assert_eq!(st.message, "wit_error: NotFound"),
        other => panic!("unexpected {:?}", other),
    }
}

#[test]
fn infer_config_error_wraps() {
    let e: InferConfigError = ClientError::Wasi("nope".to_string()).into();
    assert!(matches!(*e.0, ClientError::Wasi(ref m) if m == "nope"));
}
