//! The host's resource interface, as plain values: what a call names, the
//! parameters it carries, and the events and errors it answers with.

use vstd::prelude::*;

verus! {

/// Errors that the host reports for a call.
#[derive(Debug, Clone, PartialEq, Eq)]
pub enum HostError {
    /// The addressed object or watch stream does not exist.
    NotFound,
    /// Any other failure, with the host's message.
    Other(String),
}

/// The resource type (and namespace) that a call addresses.
#[derive(Debug, Clone, PartialEq, Eq)]
pub struct ApiResource {
    pub group: String,
    pub version: String,
    pub kind: String,
    pub plural: String,
    pub namespace: Option<String>,
}

/// What part of an object a call reads or writes.
#[derive(Debug, Clone, PartialEq, Eq)]
pub enum Scope {
    /// The whole object.
    Full,
    /// Only the object's metadata.
    MetadataOnly,
    /// The named subresource.
    Subresource(String),
}

impl Scope {
    /// Whether this scope is the subresource named `name`.
    pub open spec fn is_subresource(self, name: Seq<char>) -> bool {
        self matches Scope::Subresource(s) && s@ == name
    }
}

/// The patch strategy of a patch call.
#[derive(Debug, Clone, Copy, PartialEq, Eq)]
pub enum PatchType {
    Apply,
    Json,
    Merge,
    Strategic,
}

/// Parameters of create and replace calls.
#[derive(Debug, Clone, PartialEq, Eq)]
pub struct CreateParams {
    pub dry_run: bool,
    pub field_manager: Option<String>,
}

/// How dependents of a deleted object are handled.
#[derive(Debug, Clone, Copy, PartialEq, Eq)]
pub enum PropagationPolicy {
    Orphan,
    Background,
    Foreground,
}

/// Conditions that must hold before a delete is carried out.
#[derive(Debug, Clone, PartialEq, Eq)]
pub struct Preconditions {
    pub uid: Option<String>,
    pub resource_version: Option<String>,
}

/// Parameters of delete calls.
#[derive(Debug, Clone, PartialEq, Eq)]
pub struct DeleteParams {
    pub dry_run: bool,
    pub grace_period_seconds: Option<u32>,
    pub propagation_policy: Option<PropagationPolicy>,
    pub preconditions: Option<Preconditions>,
}

/// How a list call matches the given resource version.
#[derive(Debug, Clone, Copy, PartialEq, Eq)]
pub enum VersionMatch {
    Exact,
    NotLater,
}

/// Parameters of list calls.
#[derive(Debug, Clone, PartialEq, Eq)]
pub struct ListParams {
    pub label_selector: Option<String>,
    pub field_selector: Option<String>,
    pub timeout: Option<u32>,
    pub limit: Option<u32>,
    pub continue_token: Option<String>,
    pub version_match: Option<VersionMatch>,
    pub resource_version: Option<String>,
}

/// Server-side field validation of patch calls.
#[derive(Debug, Clone, Copy, PartialEq, Eq)]
pub enum ValidationDirective {
    Strict,
    Warn,
    Ignore,
}

/// Parameters of patch calls.
#[derive(Debug, Clone, PartialEq, Eq)]
pub struct PatchParams {
    pub dry_run: bool,
    pub field_manager: Option<String>,
    pub field_validation: Option<ValidationDirective>,
    pub force: bool,
}

/// Parameters of watch subscriptions.
#[derive(Debug, Clone, PartialEq, Eq)]
pub struct WatchParams {
    pub label_selector: Option<String>,
    pub field_selector: Option<String>,
    pub bookmark: bool,
    pub send_initial_events: bool,
}

/// Parameters of log reads.
#[derive(Debug, Clone, PartialEq, Eq)]
pub struct LogParams {
    pub container: Option<String>,
    pub follow: bool,
    pub limit_bytes: Option<u64>,
    pub pretty: bool,
    pub previous: bool,
    pub since_seconds: Option<u64>,
    pub since_time: Option<String>,
    pub tail_lines: Option<u64>,
    pub timestamps: bool,
}

/// Parameters of eviction calls.
#[derive(Debug, Clone, PartialEq, Eq)]
pub struct EvictParams {
    pub delete_options: Option<DeleteParams>,
    pub post_options: CreateParams,
}

/// Which family of API groups a discovery call lists.
#[derive(Debug, Clone, Copy, PartialEq, Eq)]
pub enum ApiCategory {
    /// The legacy core group (`/api`).
    Core,
    /// The named groups (`/apis`).
    Named,
}

/// An event that the host delivers on a watch stream.
#[derive(Debug, Clone, PartialEq, Eq)]
pub enum WatchEvent {
    Added(String),
    Modified(String),
    Deleted(String),
    Bookmark(String),
    Error(HostError),
}

/// A call into the host's resource interface, with every argument it carries.
#[derive(Debug, Clone, PartialEq, Eq)]
pub enum HostCall {
    GetResource { api: ApiResource, name: String, resource_version: Option<String>, scope: Scope },
    ListResources { api: ApiResource, params: ListParams, scope: Scope },
    CreateResource { api: ApiResource, data: String, params: CreateParams },
    DeleteResource { api: ApiResource, name: String, params: DeleteParams, scope: Scope },
    DeleteCollection {
        api: ApiResource,
        delete_params: DeleteParams,
        list_params: ListParams,
        scope: Scope,
    },
    PatchResource {
        api: ApiResource,
        name: String,
        patch_type: PatchType,
        patch: String,
        params: PatchParams,
        scope: Scope,
    },
    ReplaceResource {
        api: ApiResource,
        name: String,
        data: String,
        params: CreateParams,
        scope: Scope,
    },
    CreateSubresource {
        api: ApiResource,
        name: String,
        subresource: String,
        data: String,
        params: CreateParams,
    },
    GetLogs { api: ApiResource, name: String, params: LogParams },
    Evict { api: ApiResource, name: String, params: EvictParams },
    SubscribeWatch { api: ApiResource, version: String, params: WatchParams, scope: Scope },
    ApiServerVersion,
    ListApiVersions { category: ApiCategory, aggregated: bool },
    ListApiResources { category: ApiCategory, version: String },
}

impl HostCall {
    /// The scope that a call reads or writes; the whole object for calls that
    /// name none.
    pub open spec fn scope(self) -> Scope {
        match self {
            HostCall::GetResource { scope, .. } => scope,
            HostCall::ListResources { scope, .. } => scope,
            HostCall::DeleteResource { scope, .. } => scope,
            HostCall::DeleteCollection { scope, .. } => scope,
            HostCall::PatchResource { scope, .. } => scope,
            HostCall::ReplaceResource { scope, .. } => scope,
            HostCall::SubscribeWatch { scope, .. } => scope,
            _ => Scope::Full,
        }
    }
}

} // verus!
