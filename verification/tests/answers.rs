use kube_wasi::answers::{
    api_group_discovery_list_answer, api_group_list_answer, api_resource_list_answer,
    api_versions_answer, bookmark_answer, scale_answer, status_answer, version_info_answer,
};
use kube_wasi::error::ClientError;

#[test]
fn scale_answers() {
    let s = scale_answer(r#"{"metadata":{"name":"web"},"spec":{"replicas":3},"status":{"replicas":2}}"#).unwrap();
    assert_eq!(s.spec.unwrap().replicas, Some(3));
    assert!(matches!(scale_answer("[]"), Err(ClientError::SerdeError(_))));
}

#[test]
fn status_answers() {
    let st = status_answer(r#"{"status":"Success","code":201,"message":"evicted"}"#).unwrap();
    assert_eq!(st.code, 201);
    assert_eq!(st.message, "evicted");
    assert!(matches!(status_answer("nope"), Err(ClientError::SerdeError(_))));
}

#[test]
fn bookmark_answers() {
    let b = bookmark_answer(r#"{"apiVersion":"v1","kind":"Pod","metadata":{"resourceVersion":"42"}}"#).unwrap();
    assert_eq!(b.metadata.resource_version, "42");
    assert!(matches!(bookmark_answer(r#"{"metadata":{}}"#), Err(ClientError::SerdeError(_))));
}

#[test]
fn discovery_answers() {
    let info = version_info_answer(
        r#"{"major":"1","minor":"33","gitVersion":"v1.33.0","gitCommit":"a","gitTreeState":"clean","buildDate":"2025-01-01T00:00:00Z","goVersion":"go1.24","compiler":"gc","platform":"linux/amd64"}"#,
    )
    .unwrap();
    assert_eq!(info.minor, "33");
    assert!(matches!(version_info_answer("7"), Err(ClientError::SerdeError(_))));
    let groups = api_group_list_answer(r#"{"groups":[]}"#).unwrap();
    assert!(groups.groups.is_empty());
    let resources = api_resource_list_answer(r#"{"groupVersion":"apps/v1","resources":[]}"#).unwrap();
    assert_eq!(resources.group_version, "apps/v1");
    let versions = api_versions_answer(r#"{"versions":["v1"],"serverAddressByClientCIDRs":[]}"#).unwrap();
    assert_eq!(versions.versions, vec!["v1".to_string()]);
    let list = api_group_discovery_list_answer(r#"{"items":[]}"#).unwrap();
    assert!(list.items.is_empty());
    assert!(matches!(api_group_list_answer("7"), Err(ClientError::SerdeError(_))));
}
