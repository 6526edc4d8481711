use k8s_openapi::api::certificates::v1::CertificateSigningRequest;
type K8sNode = k8s_openapi::api::core::v1::Node;
type K8sPod = k8s_openapi::api::core::v1::Pod;
type K8sServiceAccount = k8s_openapi::api::core::v1::ServiceAccount;
use kube_wasi::api::{Api, ResourceScope, ResourceType};
use kube_wasi::client::Client;
use kube_wasi::host::{self, ApiResource, HostCall, PatchType, Scope};
use kube_wasi::params::{
    DeleteParams, EvictParams, GetParams, ListParams, LogParams, Patch, PatchParams, PostParams,
    Preconditions, PropagationPolicy, ValidationDirective, VersionMatch, WatchParams,
};
use kube_wasi::time::Timestamp;

fn pods() -> ResourceType {
    ResourceType {
        group: String::new(),
        version: "v1".to_string(),
        kind: "Pod".to_string(),
        plural: "pods".to_string(),
        scope: ResourceScope::Namespaced,
        metadata_api: false,
    }
}

fn client() -> Client {
    Client::new::<(), ()>((), "home".to_string())
}

fn pod_resource(ns: Option<&str>) -> ApiResource {
    ApiResource {
        group: String::new(),
        version: "v1".to_string(),
        kind: "Pod".to_string(),
        plural: "pods".to_string(),
        namespace: ns.map(|s| s.to_string()),
    }
}

fn pod_api() -> Api<K8sPod> {
    Api::namespaced(client(), "apps", &pods())
}

fn patch_params() -> PatchParams {
    PatchParams { dry_run: false, force: false, field_manager: None, field_validation: None }
}

#[test]
fn constructors_address_namespaces() {
    let all: Api<K8sPod> = Api::all(client(), &pods());
    assert_eq!(all.namespace(), None);
    assert_eq!(all.get_wit_api_resource(), pod_resource(None));
    let all_with: Api<K8sPod> = Api::all_with(client(), &pods());
    assert_eq!(all_with.get_wit_api_resource(), pod_resource(None));
    let dynamic = ResourceType { scope: ResourceScope::Dynamic, ..pods() };
    let ns: Api<K8sPod> = Api::namespaced_with(client(), "apps", &dynamic);
    assert_eq!(ns.namespace(), Some("apps"));
    assert_eq!(ns.get_wit_api_resource(), pod_resource(Some("apps")));
    let dflt: Api<K8sPod> = Api::default_namespaced(client(), &pods());
    assert_eq!(dflt.namespace(), Some("home"));
    let dflt_with: Api<K8sPod> = Api::default_namespaced_with(client(), &dynamic);
    assert_eq!(dflt_with.namespace(), Some("home"));
    assert_eq!(dflt_with.into_client().default_namespace(), "home");
    let c: Client = pod_api().into();
    assert_eq!(c.default_namespace(), "home");
}

#[test]
fn scope_follows_metadata_api() {
    assert_eq!(pod_api().get_wit_api_scope(), Scope::Full);
    let mut meta = pods();
    meta.metadata_api = true;
    let api: Api<K8sPod> = Api::namespaced(client(), "apps", &meta);
    assert_eq!(api.get_wit_api_scope(), Scope::MetadataOnly);
    assert_eq!(
        api.get("p".to_string()),
        HostCall::GetResource {
            api: pod_resource(Some("apps")),
            name: "p".to_string(),
            resource_version: None,
            scope: Scope::MetadataOnly,
        }
    );
}

#[test]
fn get_calls() {
    let api = pod_api();
    assert_eq!(
        api.get("blog".to_string()),
        HostCall::GetResource {
            api: pod_resource(Some("apps")),
            name: "blog".to_string(),
            resource_version: None,
            scope: Scope::Full,
        }
    );
    let gp = GetParams { resource_version: Some("0".to_string()) };
    assert_eq!(
        api.get_with("blog".to_string(), &gp),
        HostCall::GetResource {
            api: pod_resource(Some("apps")),
            name: "blog".to_string(),
            resource_version: Some("0".to_string()),
            scope: Scope::Full,
        }
    );
    assert_eq!(
        api.get_metadata_with("blog".to_string(), &gp),
        HostCall::GetResource {
            api: pod_resource(Some("apps")),
            name: "blog".to_string(),
            resource_version: Some("0".to_string()),
            scope: Scope::MetadataOnly,
        }
    );
    assert_eq!(
        api.get_metadata("blog".to_string()),
        HostCall::GetResource {
            api: pod_resource(Some("apps")),
            name: "blog".to_string(),
            resource_version: None,
            scope: Scope::MetadataOnly,
        }
    );
}

#[test]
fn list_params_convert() {
    let lp = ListParams {
        label_selector: Some("app=blog".to_string()),
        field_selector: None,
        timeout: Some(5),
        limit: Some(10),
        continue_token: Some("tok".to_string()),
        version_match: Some(VersionMatch::NotOlderThan),
        resource_version: Some("0".to_string()),
    };
    let expected = host::ListParams {
        label_selector: Some("app=blog".to_string()),
        field_selector: None,
        timeout: Some(5),
        limit: Some(10),
        continue_token: Some("tok".to_string()),
        version_match: Some(host::VersionMatch::NotLater),
        resource_version: Some("0".to_string()),
    };
    let api = pod_api();
    assert_eq!(
        api.list(&lp),
        HostCall::ListResources {
            api: pod_resource(Some("apps")),
            params: expected.clone(),
            scope: Scope::Full,
        }
    );
    assert_eq!(
        api.list_metadata(&lp),
        HostCall::ListResources {
            api: pod_resource(Some("apps")),
            params: expected,
            scope: Scope::MetadataOnly,
        }
    );
    let exact = ListParams { version_match: Some(VersionMatch::Exact), ..lp };
    assert_eq!(api.convert_list_params(&exact).version_match, Some(host::VersionMatch::Exact));
}

#[test]
fn create_and_replace_calls() {
    let api = pod_api();
    let pp = PostParams { dry_run: true, field_manager: Some("me".to_string()) };
    let params = host::CreateParams { dry_run: true, field_manager: Some("me".to_string()) };
    assert_eq!(
        api.create(&pp, "{}".to_string()),
        HostCall::CreateResource {
            api: pod_resource(Some("apps")),
            data: "{}".to_string(),
            params: params.clone(),
        }
    );
    assert_eq!(
        api.replace("p".to_string(), &pp, "{\"a\":1}".to_string()),
        HostCall::ReplaceResource {
            api: pod_resource(Some("apps")),
            name: "p".to_string(),
            data: "{\"a\":1}".to_string(),
            params,
            scope: Scope::Full,
        }
    );
}

#[test]
fn delete_params_convert() {
    let api = pod_api();
    let dp = DeleteParams {
        dry_run: true,
        grace_period_seconds: Some(30),
        propagation_policy: Some(PropagationPolicy::Foreground),
        preconditions: Some(Preconditions {
            resource_version: Some("7".to_string()),
            uid: Some("u-1".to_string()),
        }),
    };
    let hdp = host::DeleteParams {
        dry_run: true,
        grace_period_seconds: Some(30),
        propagation_policy: Some(host::PropagationPolicy::Foreground),
        preconditions: Some(host::Preconditions {
            uid: Some("u-1".to_string()),
            resource_version: Some("7".to_string()),
        }),
    };
    assert_eq!(
        api.delete("p".to_string(), &dp),
        HostCall::DeleteResource {
            api: pod_resource(Some("apps")),
            name: "p".to_string(),
            params: hdp.clone(),
            scope: Scope::Full,
        }
    );
    let lp = ListParams {
        label_selector: None,
        field_selector: Some("a=b".to_string()),
        timeout: None,
        limit: None,
        continue_token: None,
        version_match: None,
        resource_version: None,
    };
    let call = api.delete_collection(&dp, &lp);
    assert_eq!(
        call,
        HostCall::DeleteCollection {
            api: pod_resource(Some("apps")),
            delete_params: hdp,
            list_params: api.convert_list_params(&lp),
            scope: Scope::Full,
        }
    );
    assert_eq!(api.convert_propagation_policy(&PropagationPolicy::Orphan), host::PropagationPolicy::Orphan);
    assert_eq!(
        api.convert_propagation_policy(&PropagationPolicy::Background),
        host::PropagationPolicy::Background
    );
}

#[test]
fn patch_calls() {
    let api = pod_api();
    let pp = PatchParams {
        dry_run: false,
        force: true,
        field_manager: Some("mgr".to_string()),
        field_validation: Some(ValidationDirective::Warn),
    };
    let hpp = host::PatchParams {
        dry_run: false,
        field_manager: Some("mgr".to_string()),
        field_validation: Some(host::ValidationDirective::Warn),
        force: true,
    };
    let call = api.patch("p".to_string(), &pp, &Patch::Apply("{\"x\":1}".to_string()));
    assert_eq!(
        call,
        HostCall::PatchResource {
            api: pod_resource(Some("apps")),
            name: "p".to_string(),
            patch_type: PatchType::Apply,
            patch: "{\"x\":1}".to_string(),
            params: hpp.clone(),
            scope: Scope::Full,
        }
    );
    let call = api.patch_metadata("p".to_string(), &pp, &Patch::Strategic("{}".to_string()));
    assert_eq!(
        call,
        HostCall::PatchResource {
            api: pod_resource(Some("apps")),
            name: "p".to_string(),
            patch_type: PatchType::Strategic,
            patch: "{}".to_string(),
            params: hpp,
            scope: Scope::MetadataOnly,
        }
    );
    assert_eq!(api.get_wit_patch_type(&Patch::Merge(String::new())), PatchType::Merge);
    assert_eq!(
        api.convert_validation_directive(&ValidationDirective::Strict),
        host::ValidationDirective::Strict
    );
    assert_eq!(
        api.convert_validation_directive(&ValidationDirective::Ignore),
        host::ValidationDirective::Ignore
    );
}

#[test]
fn json_patch_is_sent_as_json() {
    let api = pod_api();
    let body = "[{\"op\":\"remove\",\"path\":\"/spec/x\"}]".to_string();
    let expected = |scope: Scope| HostCall::PatchResource {
        api: pod_resource(Some("apps")),
        name: "p".to_string(),
        patch_type: PatchType::Json,
        patch: body.clone(),
        params: host::PatchParams { dry_run: false, field_manager: None, field_validation: None, force: false },
        scope,
    };
    let json = Patch::Json(body.clone());
    assert_eq!(api.patch("p".to_string(), &patch_params(), &json), expected(Scope::Full));
    assert_eq!(api.patch_metadata("p".to_string(), &patch_params(), &json), expected(Scope::MetadataOnly));
    assert_eq!(
        api.patch_status("p".to_string(), &patch_params(), &json),
        expected(Scope::Subresource("status".to_string()))
    );
    assert_eq!(api.get_wit_patch_type(&json), PatchType::Json);
}

#[test]
fn api_debug_text() {
    assert_eq!(pod_api().debug_text(), "Api { client: \"...\", namespace: Some(\"apps\") }");
    let all: Api<K8sPod> = Api::all(client(), &pods());
    assert_eq!(all.debug_text(), "Api { client: \"...\", namespace: None }");
}

#[test]
fn watch_calls_drop_timeout() {
    let api = pod_api();
    let wp = WatchParams {
        label_selector: Some("a".to_string()),
        field_selector: Some("b".to_string()),
        timeout: Some(290),
        bookmarks: true,
        send_initial_events: false,
    };
    let hwp = host::WatchParams {
        label_selector: Some("a".to_string()),
        field_selector: Some("b".to_string()),
        bookmark: true,
        send_initial_events: false,
    };
    assert_eq!(
        api.watch(&wp, "0".to_string()),
        HostCall::SubscribeWatch {
            api: pod_resource(Some("apps")),
            version: "0".to_string(),
            params: hwp.clone(),
            scope: Scope::Full,
        }
    );
    assert_eq!(
        api.watch_metadata(&wp, "12".to_string()),
        HostCall::SubscribeWatch {
            api: pod_resource(Some("apps")),
            version: "12".to_string(),
            params: hwp,
            scope: Scope::MetadataOnly,
        }
    );
}

#[test]
fn subresource_calls() {
    let api = pod_api();
    let pp = PostParams { dry_run: false, field_manager: None };
    let sub = |s: &str| Scope::Subresource(s.to_string());
    let get = |s: &str| HostCall::GetResource {
        api: pod_resource(Some("apps")),
        name: "p".to_string(),
        resource_version: None,
        scope: sub(s),
    };
    assert_eq!(api.get_scale("p".to_string()), get("scale"));
    assert_eq!(api.get_status("p".to_string()), get("status"));
    assert_eq!(api.get_ephemeral_containers("p".to_string()), get("ephemeralcontainers"));
    assert_eq!(api.get_resize("p".to_string()), get("resize"));
    assert_eq!(api.get_subresource("custom".to_string(), "p".to_string()), get("custom"));
    let replace = |s: &str| HostCall::ReplaceResource {
        api: pod_resource(Some("apps")),
        name: "p".to_string(),
        data: "d".to_string(),
        params: host::CreateParams { dry_run: false, field_manager: None },
        scope: sub(s),
    };
    assert_eq!(api.replace_scale("p".to_string(), &pp, "d".to_string()), replace("scale"));
    assert_eq!(api.replace_status("p".to_string(), &pp, "d".to_string()), replace("status"));
    assert_eq!(
        api.replace_ephemeral_containers("p".to_string(), &pp, "d".to_string()),
        replace("ephemeralcontainers")
    );
    assert_eq!(api.replace_resize("p".to_string(), &pp, "d".to_string()), replace("resize"));
    assert_eq!(
        api.replace_subresource("x".to_string(), "p".to_string(), &pp, "d".to_string()),
        replace("x")
    );
    let patch = |s: &str| HostCall::PatchResource {
        api: pod_resource(Some("apps")),
        name: "p".to_string(),
        patch_type: PatchType::Merge,
        patch: "{}".to_string(),
        params: host::PatchParams { dry_run: false, field_manager: None, field_validation: None, force: false },
        scope: sub(s),
    };
    let m = Patch::Merge("{}".to_string());
    let ppp = patch_params();
    assert_eq!(api.patch_scale("p".to_string(), &ppp, &m), patch("scale"));
    assert_eq!(api.patch_status("p".to_string(), &ppp, &m), patch("status"));
    assert_eq!(
        api.patch_ephemeral_containers("p".to_string(), &ppp, &m),
        patch("ephemeralcontainers")
    );
    assert_eq!(api.patch_resize("p".to_string(), &ppp, &m), patch("resize"));
    assert_eq!(
        api.patch_subresource("y".to_string(), "p".to_string(), &ppp, &m),
        patch("y")
    );
    assert_eq!(
        api.create_subresource("eviction".to_string(), "p".to_string(), &pp, "e".to_string()),
        HostCall::CreateSubresource {
            api: pod_resource(Some("apps")),
            name: "p".to_string(),
            subresource: "eviction".to_string(),
            data: "e".to_string(),
            params: host::CreateParams { dry_run: false, field_manager: None },
        }
    );
}

#[test]
fn log_params_convert() {
    let api = pod_api();
    let lp = LogParams {
        container: Some("main".to_string()),
        follow: true,
        limit_bytes: Some(-1),
        pretty: false,
        previous: true,
        since_seconds: Some(60),
        since_time: Timestamp::from_nanosecond(0),
        tail_lines: None,
        timestamps: true,
    };
    assert_eq!(
        api.logs("p".to_string(), &lp),
        HostCall::GetLogs {
            api: pod_resource(Some("apps")),
            name: "p".to_string(),
            params: host::LogParams {
                container: Some("main".to_string()),
                follow: true,
                limit_bytes: Some(u64::MAX),
                pretty: false,
                previous: true,
                since_seconds: Some(60),
                since_time: Some("1970-01-01T00:00:00Z".to_string()),
                tail_lines: None,
                timestamps: true,
            },
        }
    );
}

#[test]
fn evict_keeps_only_dry_run_of_post_options() {
    let api = pod_api();
    let ep = EvictParams {
        delete_options: Some(DeleteParams {
            dry_run: false,
            grace_period_seconds: Some(0),
            propagation_policy: None,
            preconditions: None,
        }),
        post_options: PostParams { dry_run: true, field_manager: Some("dropped".to_string()) },
    };
    assert_eq!(
        api.evict("p".to_string(), &ep),
        HostCall::Evict {
            api: pod_resource(Some("apps")),
            name: "p".to_string(),
            params: host::EvictParams {
                delete_options: Some(host::DeleteParams {
                    dry_run: false,
                    grace_period_seconds: Some(0),
                    propagation_policy: None,
                    preconditions: None,
                }),
                post_options: host::CreateParams { dry_run: true, field_manager: None },
            },
        }
    );
}

fn merge_patch_on(api: ApiResource, name: &str, body: &str) -> HostCall {
    HostCall::PatchResource {
        api,
        name: name.to_string(),
        patch_type: PatchType::Merge,
        patch: body.to_string(),
        params: host::PatchParams { dry_run: false, field_manager: None, field_validation: None, force: false },
        scope: Scope::Full,
    }
}

#[test]
fn cordon_and_uncordon() {
    let nodes = ResourceType {
        group: String::new(),
        version: "v1".to_string(),
        kind: "Node".to_string(),
        plural: "nodes".to_string(),
        scope: ResourceScope::Cluster,
        metadata_api: false,
    };
    let api: Api<K8sNode> = Api::all(client(), &nodes);
    let res = api.get_wit_api_resource();
    assert_eq!(
        api.cordon("n1".to_string()),
        merge_patch_on(res.clone(), "n1", "{\"spec\":{\"unschedulable\":true}}")
    );
    assert_eq!(
        api.uncordon("n1".to_string()),
        merge_patch_on(res, "n1", "{\"spec\":{\"unschedulable\":false}}")
    );
}

#[test]
fn restart_patches_annotation() {
    let deployments = ResourceType {
        group: "apps".to_string(),
        version: "v1".to_string(),
        kind: "Deployment".to_string(),
        plural: "deployments".to_string(),
        scope: ResourceScope::Namespaced,
        metadata_api: false,
    };
    let api: Api<k8s_openapi::api::apps::v1::Deployment> =
        Api::namespaced(client(), "apps", &deployments);
    let now = Timestamp::from_nanosecond(1_700_000_000_000_000_000).unwrap();
    let call = api.restart("web".to_string(), &now).unwrap();
    assert_eq!(
        call,
        merge_patch_on(
            api.get_wit_api_resource(),
            "web",
            "{\"metadata\":{\"annotations\":{\"kubectl.kubernetes.io/restartedAt\":\"2023-11-14T22:13:20Z\"}}}"
        )
    );
}

#[test]
fn token_request_and_approval() {
    let sa = ResourceType {
        group: String::new(),
        version: "v1".to_string(),
        kind: "ServiceAccount".to_string(),
        plural: "serviceaccounts".to_string(),
        scope: ResourceScope::Namespaced,
        metadata_api: false,
    };
    let api: Api<K8sServiceAccount> = Api::namespaced(client(), "apps", &sa);
    let pp = PostParams { dry_run: false, field_manager: None };
    assert_eq!(
        api.create_token_request("robot".to_string(), &pp, "{}".to_string()),
        HostCall::CreateSubresource {
            api: api.get_wit_api_resource(),
            name: "robot".to_string(),
            subresource: "token".to_string(),
            data: "{}".to_string(),
            params: host::CreateParams { dry_run: false, field_manager: None },
        }
    );
    let csr = ResourceType {
        group: "certificates.k8s.io".to_string(),
        version: "v1".to_string(),
        kind: "CertificateSigningRequest".to_string(),
        plural: "certificatesigningrequests".to_string(),
        scope: ResourceScope::Cluster,
        metadata_api: false,
    };
    let api: Api<CertificateSigningRequest> = Api::all(client(), &csr);
    assert_eq!(
        api.get_approval("req".to_string()),
        HostCall::GetResource {
            api: api.get_wit_api_resource(),
            name: "req".to_string(),
            resource_version: None,
            scope: Scope::Subresource("approval".to_string()),
        }
    );
    let call = api
        .patch_approval("req".to_string(), &patch_params(), &Patch::Merge("{}".to_string()));
    assert_eq!(call.clone(), {
        let mut expected = merge_patch_on(api.get_wit_api_resource(), "req", "{}");
        if let HostCall::PatchResource { scope, .. } = &mut expected {
            *scope = Scope::Subresource("approval".to_string());
        }
        expected
    });
}
