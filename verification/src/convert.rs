//! How the caller's parameters become the host's parameters.

use vstd::prelude::*;

use crate::api::Api;
use crate::config::opt_view;
use crate::host;
use crate::params::{
    DeleteParams, EvictParams, ListParams, LogParams, Patch, PatchParams, PostParams,
    Preconditions, PropagationPolicy, ValidationDirective, VersionMatch, WatchParams,
};
use crate::time::rfc3339_text;

verus! {

/// The host parameters of a create or replace call.
pub open spec fn post_params_to_host(pp: PostParams) -> host::CreateParams {
    host::CreateParams { dry_run: pp.dry_run, field_manager: pp.field_manager }
}

/// The host's name of a propagation policy.
pub open spec fn propagation_policy_to_host(p: PropagationPolicy) -> host::PropagationPolicy {
    match p {
        PropagationPolicy::Orphan => host::PropagationPolicy::Orphan,
        PropagationPolicy::Background => host::PropagationPolicy::Background,
        PropagationPolicy::Foreground => host::PropagationPolicy::Foreground,
    }
}

/// The host's form of delete preconditions.
pub open spec fn preconditions_to_host(p: Preconditions) -> host::Preconditions {
    host::Preconditions { uid: p.uid, resource_version: p.resource_version }
}

/// The host parameters of a delete call.
pub open spec fn delete_params_to_host(dp: DeleteParams) -> host::DeleteParams {
    host::DeleteParams {
        dry_run: dp.dry_run,
        grace_period_seconds: dp.grace_period_seconds,
        propagation_policy: match dp.propagation_policy {
            Some(p) => Some(propagation_policy_to_host(p)),
            None => None,
        },
        preconditions: match dp.preconditions {
            Some(p) => Some(preconditions_to_host(p)),
            None => None,
        },
    }
}

/// The host's name of a version match: `NotOlderThan` is the host's `NotLater`.
pub open spec fn version_match_to_host(vm: VersionMatch) -> host::VersionMatch {
    match vm {
        VersionMatch::Exact => host::VersionMatch::Exact,
        VersionMatch::NotOlderThan => host::VersionMatch::NotLater,
    }
}

/// The host parameters of a list call.
pub open spec fn list_params_to_host(lp: ListParams) -> host::ListParams {
    host::ListParams {
        label_selector: lp.label_selector,
        field_selector: lp.field_selector,
        timeout: lp.timeout,
        limit: lp.limit,
        continue_token: lp.continue_token,
        version_match: match lp.version_match {
            Some(vm) => Some(version_match_to_host(vm)),
            None => None,
        },
        resource_version: lp.resource_version,
    }
}

/// The host's name of a validation directive.
pub open spec fn validation_directive_to_host(vd: ValidationDirective) -> host::ValidationDirective {
    match vd {
        ValidationDirective::Strict => host::ValidationDirective::Strict,
        ValidationDirective::Warn => host::ValidationDirective::Warn,
        ValidationDirective::Ignore => host::ValidationDirective::Ignore,
    }
}

/// The host parameters of a patch call.
pub open spec fn patch_params_to_host(pp: PatchParams) -> host::PatchParams {
    host::PatchParams {
        dry_run: pp.dry_run,
        field_manager: pp.field_manager,
        field_validation: match pp.field_validation {
            Some(vd) => Some(validation_directive_to_host(vd)),
            None => None,
        },
        force: pp.force,
    }
}

/// The host parameters of a watch subscription; the timeout is not passed on.
pub open spec fn watch_params_to_host(wp: WatchParams) -> host::WatchParams {
    host::WatchParams {
        label_selector: wp.label_selector,
        field_selector: wp.field_selector,
        bookmark: wp.bookmarks,
        send_initial_events: wp.send_initial_events,
    }
}

/// A signed count as the host's unsigned count (two's complement, as `as`).
pub open spec fn count_to_host(x: Option<i64>) -> Option<u64> {
    match x {
        Some(n) => Some(n as u64),
        None => None,
    }
}

/// The host parameters of a log read, but for the start time, which the host
/// takes as text (see `log_since_time_text`).
pub open spec fn log_params_match(lp: LogParams, hp: host::LogParams) -> bool {
    &&& hp.container == lp.container
    &&& hp.follow == lp.follow
    &&& hp.limit_bytes == count_to_host(lp.limit_bytes)
    &&& hp.pretty == lp.pretty
    &&& hp.previous == lp.previous
    &&& hp.since_seconds == count_to_host(lp.since_seconds)
    &&& opt_view(hp.since_time) == log_since_time_text(lp)
    &&& hp.tail_lines == count_to_host(lp.tail_lines)
    &&& hp.timestamps == lp.timestamps
}

/// The RFC 3339 text of a log read's start time, if it has one.
pub open spec fn log_since_time_text(lp: LogParams) -> Option<Seq<char>> {
    match lp.since_time {
        Some(t) => Some(rfc3339_text(t@)),
        None => None,
    }
}

/// The host parameters of an eviction: the create options keep only the dry
/// run flag.
pub open spec fn evict_params_to_host(ep: EvictParams) -> host::EvictParams {
    host::EvictParams {
        delete_options: match ep.delete_options {
            Some(dp) => Some(delete_params_to_host(dp)),
            None => None,
        },
        post_options: host::CreateParams { dry_run: ep.post_options.dry_run, field_manager: None },
    }
}

/// The host's patch type of a patch: the type of the same name.
pub open spec fn patch_type_of(patch: Patch) -> host::PatchType {
    match patch {
        Patch::Apply(_) => host::PatchType::Apply,
        Patch::Json(_) => host::PatchType::Json,
        Patch::Merge(_) => host::PatchType::Merge,
        Patch::Strategic(_) => host::PatchType::Strategic,
    }
}

/// The host's scope of whole-object calls of a handle.
pub open spec fn scope_of(metadata_api: bool) -> host::Scope {
    if metadata_api {
        host::Scope::MetadataOnly
    } else {
        host::Scope::Full
    }
}

fn clone_opt_string(s: &Option<String>) -> (res: Option<String>)
    ensures
        res == *s,
{
    match s {
        Some(v) => Some(v.clone()),
        None => None,
    }
}

fn count_as_host(x: Option<i64>) -> (res: Option<u64>)
    ensures
        res == count_to_host(x),
{
    match x {
        Some(n) => Some(n as u64),
        None => None,
    }
}

impl<K> Api<K> {
    /// The host's address of the resource this handle names.
    pub fn get_wit_api_resource(&self) -> (res: host::ApiResource)
        ensures
            res == self@.resource,
    {
        self.resource_clone()
    }

    /// The scope of whole-object calls: metadata only when the handle asks
    /// for metadata, else the full object.
    pub fn get_wit_api_scope(&self) -> (scope: host::Scope)
        ensures
            scope == scope_of(self@.metadata_api),
            self@.metadata_api ==> scope == host::Scope::MetadataOnly,
            !self@.metadata_api ==> scope == host::Scope::Full,
    {
        if self.is_metadata_api() {
            host::Scope::MetadataOnly
        } else {
            host::Scope::Full
        }
    }

    /// The host's patch type of `kube_patch`.
    pub fn get_wit_patch_type(&self, kube_patch: &Patch) -> (t: host::PatchType)
        ensures
            t == patch_type_of(*kube_patch),
            kube_patch is Apply ==> t == host::PatchType::Apply,
            kube_patch is Json ==> t == host::PatchType::Json,
            kube_patch is Merge ==> t == host::PatchType::Merge,
            kube_patch is Strategic ==> t == host::PatchType::Strategic,
    {
        match kube_patch {
            Patch::Apply(_) => host::PatchType::Apply,
            Patch::Json(_) => host::PatchType::Json,
            Patch::Merge(_) => host::PatchType::Merge,
            Patch::Strategic(_) => host::PatchType::Strategic,
        }
    }

    /// The host parameters of a create or replace call.
    pub fn convert_post_params(&self, pp: &PostParams) -> (res: host::CreateParams)
        ensures
            res == post_params_to_host(*pp),
            res.dry_run == pp.dry_run,
            res.field_manager == pp.field_manager,
    {
        host::CreateParams { dry_run: pp.dry_run, field_manager: clone_opt_string(&pp.field_manager) }
    }

    /// The host's name of a propagation policy.
    pub fn convert_propagation_policy(&self, p: &PropagationPolicy) -> (res: host::PropagationPolicy)
        ensures
            res == propagation_policy_to_host(*p),
            *p == PropagationPolicy::Orphan ==> res == host::PropagationPolicy::Orphan,
            *p == PropagationPolicy::Background ==> res == host::PropagationPolicy::Background,
            *p == PropagationPolicy::Foreground ==> res == host::PropagationPolicy::Foreground,
    {
        match p {
            PropagationPolicy::Orphan => host::PropagationPolicy::Orphan,
            PropagationPolicy::Background => host::PropagationPolicy::Background,
            PropagationPolicy::Foreground => host::PropagationPolicy::Foreground,
        }
    }

    /// The host's form of delete preconditions.
    pub fn convert_preconditions(&self, p: &Preconditions) -> (res: host::Preconditions)
        ensures
            res == preconditions_to_host(*p),
            res.uid == p.uid,
            res.resource_version == p.resource_version,
    {
        host::Preconditions {
            uid: clone_opt_string(&p.uid),
            resource_version: clone_opt_string(&p.resource_version),
        }
    }

    /// The host parameters of a delete call.
    pub fn convert_delete_params(&self, dp: &DeleteParams) -> (res: host::DeleteParams)
        ensures
            res == delete_params_to_host(*dp),
            res.dry_run == dp.dry_run,
            res.grace_period_seconds == dp.grace_period_seconds,
            dp.propagation_policy is None ==> res.propagation_policy is None,
            dp.propagation_policy == Some(PropagationPolicy::Orphan) ==> res.propagation_policy
                == Some(host::PropagationPolicy::Orphan),
            dp.propagation_policy == Some(PropagationPolicy::Background) ==> res.propagation_policy
                == Some(host::PropagationPolicy::Background),
            dp.propagation_policy == Some(PropagationPolicy::Foreground) ==> res.propagation_policy
                == Some(host::PropagationPolicy::Foreground),
            dp.preconditions is None ==> res.preconditions is None,
            dp.preconditions matches Some(p) ==> (res.preconditions matches Some(q) && q.uid == p.uid
                && q.resource_version == p.resource_version),
    {
        host::DeleteParams {
            dry_run: dp.dry_run,
            grace_period_seconds: dp.grace_period_seconds,
            propagation_policy: match &dp.propagation_policy {
                Some(p) => Some(self.convert_propagation_policy(p)),
                None => None,
            },
            preconditions: match &dp.preconditions {
                Some(p) => Some(self.convert_preconditions(p)),
                None => None,
            },
        }
    }

    /// The host parameters of a list call.
    pub fn convert_list_params(&self, lp: &ListParams) -> (res: host::ListParams)
        ensures
            res == list_params_to_host(*lp),
            res.label_selector == lp.label_selector,
            res.field_selector == lp.field_selector,
            res.timeout == lp.timeout,
            res.limit == lp.limit,
            res.continue_token == lp.continue_token,
            res.resource_version == lp.resource_version,
            lp.version_match is None ==> res.version_match is None,
            lp.version_match == Some(VersionMatch::Exact) ==> res.version_match == Some(
                host::VersionMatch::Exact,
            ),
            lp.version_match == Some(VersionMatch::NotOlderThan) ==> res.version_match == Some(
                host::VersionMatch::NotLater,
            ),
    {
        host::ListParams {
            label_selector: clone_opt_string(&lp.label_selector),
            field_selector: clone_opt_string(&lp.field_selector),
            timeout: lp.timeout,
            limit: lp.limit,
            continue_token: clone_opt_string(&lp.continue_token),
            version_match: match &lp.version_match {
                Some(VersionMatch::Exact) => Some(host::VersionMatch::Exact),
                Some(VersionMatch::NotOlderThan) => Some(host::VersionMatch::NotLater),
                None => None,
            },
            resource_version: clone_opt_string(&lp.resource_version),
        }
    }

    /// The host's name of a validation directive.
    pub fn convert_validation_directive(&self, vd: &ValidationDirective) -> (res:
        host::ValidationDirective)
        ensures
            res == validation_directive_to_host(*vd),
            *vd == ValidationDirective::Strict ==> res == host::ValidationDirective::Strict,
            *vd == ValidationDirective::Warn ==> res == host::ValidationDirective::Warn,
            *vd == ValidationDirective::Ignore ==> res == host::ValidationDirective::Ignore,
    {
        match vd {
            ValidationDirective::Strict => host::ValidationDirective::Strict,
            ValidationDirective::Warn => host::ValidationDirective::Warn,
            ValidationDirective::Ignore => host::ValidationDirective::Ignore,
        }
    }

    /// The host parameters of a patch call.
    pub fn convert_patch_params(&self, pp: &PatchParams) -> (res: host::PatchParams)
        ensures
            res == patch_params_to_host(*pp),
            res.dry_run == pp.dry_run,
            res.force == pp.force,
            res.field_manager == pp.field_manager,
            pp.field_validation is None ==> res.field_validation is None,
            pp.field_validation == Some(ValidationDirective::Strict) ==> res.field_validation == Some(
                host::ValidationDirective::Strict,
            ),
            pp.field_validation == Some(ValidationDirective::Warn) ==> res.field_validation == Some(
                host::ValidationDirective::Warn,
            ),
            pp.field_validation == Some(ValidationDirective::Ignore) ==> res.field_validation == Some(
                host::ValidationDirective::Ignore,
            ),
    {
        host::PatchParams {
            dry_run: pp.dry_run,
            field_manager: clone_opt_string(&pp.field_manager),
            field_validation: match &pp.field_validation {
                Some(vd) => Some(self.convert_validation_directive(vd)),
                None => None,
            },
            force: pp.force,
        }
    }

    /// The host parameters of a watch subscription.
    pub fn convert_watch_params(&self, wp: &WatchParams) -> (res: host::WatchParams)
        ensures
            res == watch_params_to_host(*wp),
            res.label_selector == wp.label_selector,
            res.field_selector == wp.field_selector,
            res.bookmark == wp.bookmarks,
            res.send_initial_events == wp.send_initial_events,
    {
        host::WatchParams {
            label_selector: clone_opt_string(&wp.label_selector),
            field_selector: clone_opt_string(&wp.field_selector),
            bookmark: wp.bookmarks,
            send_initial_events: wp.send_initial_events,
        }
    }

    /// The host parameters of a log read.
    pub fn convert_log_params(&self, lp: &LogParams) -> (res: host::LogParams)
        ensures
            log_params_match(*lp, res),
            res.container == lp.container,
            res.follow == lp.follow,
            res.pretty == lp.pretty,
            res.previous == lp.previous,
            res.timestamps == lp.timestamps,
            lp.limit_bytes is None ==> res.limit_bytes is None,
            lp.limit_bytes matches Some(n) ==> res.limit_bytes == Some(n as u64),
            lp.since_seconds is None ==> res.since_seconds is None,
            lp.since_seconds matches Some(n) ==> res.since_seconds == Some(n as u64),
            lp.tail_lines is None ==> res.tail_lines is None,
            lp.tail_lines matches Some(n) ==> res.tail_lines == Some(n as u64),
            lp.since_time is None ==> res.since_time is None,
            lp.since_time matches Some(t) ==> (res.since_time matches Some(text) && text@
                == rfc3339_text(t@)),
    {
        host::LogParams {
            container: clone_opt_string(&lp.container),
            follow: lp.follow,
            limit_bytes: count_as_host(lp.limit_bytes),
            pretty: lp.pretty,
            previous: lp.previous,
            since_seconds: count_as_host(lp.since_seconds),
            since_time: match &lp.since_time {
                Some(t) => Some(t.to_rfc3339()),
                None => None,
            },
            tail_lines: count_as_host(lp.tail_lines),
            timestamps: lp.timestamps,
        }
    }

    /// The host parameters of an eviction.
    pub fn convert_evict_params(&self, ep: &EvictParams) -> (res: host::EvictParams)
        ensures
            res == evict_params_to_host(*ep),
            ep.delete_options is None ==> res.delete_options is None,
            ep.delete_options matches Some(dp) ==> (res.delete_options matches Some(hp) && hp.dry_run
                == dp.dry_run && hp.grace_period_seconds == dp.grace_period_seconds),
            res.post_options.dry_run == ep.post_options.dry_run,
            res.post_options.field_manager is None,
    {
        host::EvictParams {
            delete_options: match &ep.delete_options {
                Some(dp) => Some(self.convert_delete_params(dp)),
                None => None,
            },
            post_options: host::CreateParams { dry_run: ep.post_options.dry_run, field_manager: None },
        }
    }
}

} // verus!
