//! Parameters of API operations, as the client's callers give them.

use vstd::prelude::*;

use crate::time::Timestamp;

verus! {

/// How the resource version of a list call is matched.
#[derive(Debug, Clone, Copy, PartialEq, Eq)]
pub enum VersionMatch {
    /// Data at least as new as the given resource version.
    NotOlderThan,
    /// Data at exactly the given resource version.
    Exact,
}

/// Query parameters of get calls.
#[derive(Debug, Clone, PartialEq, Eq)]
pub struct GetParams {
    pub resource_version: Option<String>,
}

/// Query parameters of list calls and collection deletes.
#[derive(Debug, Clone, PartialEq, Eq)]
pub struct ListParams {
    pub label_selector: Option<String>,
    pub field_selector: Option<String>,
    pub timeout: Option<u32>,
    pub limit: Option<u32>,
    pub continue_token: Option<String>,
    pub version_match: Option<VersionMatch>,
    pub resource_version: Option<String>,
}

/// Query parameters of watch calls.
#[derive(Debug, Clone, PartialEq, Eq)]
pub struct WatchParams {
    pub label_selector: Option<String>,
    pub field_selector: Option<String>,
    pub timeout: Option<u32>,
    pub bookmarks: bool,
    pub send_initial_events: bool,
}

/// Query parameters of create and replace calls.
#[derive(Debug, Clone, PartialEq, Eq)]
pub struct PostParams {
    pub dry_run: bool,
    pub field_manager: Option<String>,
}

/// Server-side validation of fields in patch calls.
#[derive(Debug, Clone, Copy, PartialEq, Eq)]
pub enum ValidationDirective {
    Strict,
    Warn,
    Ignore,
}

/// Query parameters of patch calls.
#[derive(Debug, Clone, PartialEq, Eq)]
pub struct PatchParams {
    pub dry_run: bool,
    pub force: bool,
    pub field_manager: Option<String>,
    pub field_validation: Option<ValidationDirective>,
}

/// A patch, with its body already serialized to JSON text.
#[derive(Debug, Clone, PartialEq, Eq)]
pub enum Patch {
    /// Server-side apply.
    Apply(String),
    /// RFC 6902 JSON patch.
    Json(String),
    /// RFC 7386 JSON merge patch.
    Merge(String),
    /// Strategic merge patch.
    Strategic(String),
}

/// How dependents of a deleted object are handled.
#[derive(Debug, Clone, Copy, PartialEq, Eq)]
pub enum PropagationPolicy {
    Orphan,
    Background,
    Foreground,
}

/// Conditions that must hold before an object is deleted.
#[derive(Debug, Clone, PartialEq, Eq)]
pub struct Preconditions {
    pub resource_version: Option<String>,
    pub uid: Option<String>,
}

/// Query parameters of delete calls.
#[derive(Debug, Clone, PartialEq, Eq)]
pub struct DeleteParams {
    pub dry_run: bool,
    pub grace_period_seconds: Option<u32>,
    pub propagation_policy: Option<PropagationPolicy>,
    pub preconditions: Option<Preconditions>,
}

/// Parameters of log reads.
#[derive(Debug, Clone, PartialEq, Eq)]
pub struct LogParams {
    pub container: Option<String>,
    pub follow: bool,
    pub limit_bytes: Option<i64>,
    pub pretty: bool,
    pub previous: bool,
    pub since_seconds: Option<i64>,
    pub since_time: Option<Timestamp>,
    pub tail_lines: Option<i64>,
    pub timestamps: bool,
}

/// Parameters of evictions.
#[derive(Debug, Clone, PartialEq, Eq)]
pub struct EvictParams {
    pub delete_options: Option<DeleteParams>,
    pub post_options: PostParams,
}

} // verus!
