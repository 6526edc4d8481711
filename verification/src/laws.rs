//! Laws of the library: what namespace inference picks, and that every
//! parameter conversion hands the caller's values to the host unchanged,
//! each enum value under the host's name for it.

use vstd::prelude::*;

use crate::calls::{patch_body, patch_call_of};
use crate::config::inferred_namespace;
use crate::convert::{
    count_to_host, delete_params_to_host, evict_params_to_host, list_params_to_host,
    log_params_match, patch_params_to_host, patch_type_of, post_params_to_host,
    preconditions_to_host, propagation_policy_to_host, scope_of, validation_directive_to_host,
    version_match_to_host, watch_params_to_host,
};
use crate::host;
use crate::params::{
    DeleteParams, EvictParams, ListParams, LogParams, Patch, PatchParams, PostParams,
    Preconditions, PropagationPolicy, ValidationDirective, VersionMatch, WatchParams,
};
use crate::api::ResourceType;
use crate::config::opt_view;
use crate::error::ClientError;
use crate::response::{
    is_api_error_of, is_error_code, is_status_answer, json_str_field, json_u64_field,
    status_summary_of, StatusSummary,
};
use crate::time::rfc3339_text;
use crate::util::default_patch_params;

verus! {

/// Inference honours the precedence of its sources: a non-empty
/// `KUBE_NAMESPACE` wins; else a non-empty `POD_NAMESPACE`; else a non-empty
/// answer of the host; else the namespace `default`.
pub proof fn law_namespace_precedence(
    kube: Option<Seq<char>>,
    pod: Option<Seq<char>>,
    host_answer: Option<Seq<char>>,
)
    ensures
        kube is Some && kube->0.len() > 0 ==> inferred_namespace(kube, pod, host_answer) == kube->0,
        !(kube is Some && kube->0.len() > 0) && pod is Some && pod->0.len() > 0 ==> inferred_namespace(
            kube,
            pod,
            host_answer,
        ) == pod->0,
        !(kube is Some && kube->0.len() > 0) && !(pod is Some && pod->0.len() > 0) && host_answer
            is Some && host_answer->0.len() > 0 ==> inferred_namespace(kube, pod, host_answer)
            == host_answer->0,
        !(kube is Some && kube->0.len() > 0) && !(pod is Some && pod->0.len() > 0) && !(host_answer
            is Some && host_answer->0.len() > 0) ==> inferred_namespace(kube, pod, host_answer)
            == seq!['d', 'e', 'f', 'a', 'u', 'l', 't'],
{
}

/// Create and replace calls carry the caller's dry-run flag and field manager.
pub proof fn law_post_params(pp: PostParams)
    ensures
        post_params_to_host(pp).dry_run == pp.dry_run,
        post_params_to_host(pp).field_manager == pp.field_manager,
{
}

/// Each propagation policy reaches the host under its own name.
pub proof fn law_propagation_policy()
    ensures
        propagation_policy_to_host(PropagationPolicy::Orphan) == host::PropagationPolicy::Orphan,
        propagation_policy_to_host(PropagationPolicy::Background)
            == host::PropagationPolicy::Background,
        propagation_policy_to_host(PropagationPolicy::Foreground)
            == host::PropagationPolicy::Foreground,
{
}

/// Delete preconditions reach the host unchanged.
pub proof fn law_preconditions(p: Preconditions)
    ensures
        preconditions_to_host(p).uid == p.uid,
        preconditions_to_host(p).resource_version == p.resource_version,
{
}

/// Delete calls carry the caller's dry-run flag, grace period, propagation
/// policy (under the same name) and preconditions.
pub proof fn law_delete_params(dp: DeleteParams)
    ensures
        delete_params_to_host(dp).dry_run == dp.dry_run,
        delete_params_to_host(dp).grace_period_seconds == dp.grace_period_seconds,
        dp.propagation_policy is None ==> delete_params_to_host(dp).propagation_policy is None,
        dp.propagation_policy == Some(PropagationPolicy::Orphan) ==> delete_params_to_host(
            dp,
        ).propagation_policy == Some(host::PropagationPolicy::Orphan),
        dp.propagation_policy == Some(PropagationPolicy::Background) ==> delete_params_to_host(
            dp,
        ).propagation_policy == Some(host::PropagationPolicy::Background),
        dp.propagation_policy == Some(PropagationPolicy::Foreground) ==> delete_params_to_host(
            dp,
        ).propagation_policy == Some(host::PropagationPolicy::Foreground),
        dp.preconditions is None ==> delete_params_to_host(dp).preconditions is None,
        dp.preconditions is Some ==> delete_params_to_host(dp).preconditions == Some(
            host::Preconditions {
                uid: dp.preconditions->0.uid,
                resource_version: dp.preconditions->0.resource_version,
            },
        ),
{
}

/// A list call selects exactly what the caller asked for: both selectors,
/// timeout, limit, continue token and resource version pass through, and the
/// version match keeps its meaning (`NotOlderThan` is the host's `NotLater`).
pub proof fn law_list_params(lp: ListParams)
    ensures
        list_params_to_host(lp).label_selector == lp.label_selector,
        list_params_to_host(lp).field_selector == lp.field_selector,
        list_params_to_host(lp).timeout == lp.timeout,
        list_params_to_host(lp).limit == lp.limit,
        list_params_to_host(lp).continue_token == lp.continue_token,
        list_params_to_host(lp).resource_version == lp.resource_version,
        lp.version_match is None ==> list_params_to_host(lp).version_match is None,
        lp.version_match == Some(VersionMatch::Exact) ==> list_params_to_host(lp).version_match
            == Some(host::VersionMatch::Exact),
        lp.version_match == Some(VersionMatch::NotOlderThan) ==> list_params_to_host(
            lp,
        ).version_match == Some(host::VersionMatch::NotLater),
        version_match_to_host(VersionMatch::Exact) == host::VersionMatch::Exact,
        version_match_to_host(VersionMatch::NotOlderThan) == host::VersionMatch::NotLater,
{
}

/// A patch call carries the caller's dry-run flag, force flag, field manager
/// and validation directive (under the same name).
pub proof fn law_patch_params(pp: PatchParams)
    ensures
        patch_params_to_host(pp).dry_run == pp.dry_run,
        patch_params_to_host(pp).force == pp.force,
        patch_params_to_host(pp).field_manager == pp.field_manager,
        pp.field_validation is None ==> patch_params_to_host(pp).field_validation is None,
        pp.field_validation == Some(ValidationDirective::Strict) ==> patch_params_to_host(
            pp,
        ).field_validation == Some(host::ValidationDirective::Strict),
        pp.field_validation == Some(ValidationDirective::Warn) ==> patch_params_to_host(
            pp,
        ).field_validation == Some(host::ValidationDirective::Warn),
        pp.field_validation == Some(ValidationDirective::Ignore) ==> patch_params_to_host(
            pp,
        ).field_validation == Some(host::ValidationDirective::Ignore),
        validation_directive_to_host(ValidationDirective::Strict) == host::ValidationDirective::Strict,
        validation_directive_to_host(ValidationDirective::Warn) == host::ValidationDirective::Warn,
        validation_directive_to_host(ValidationDirective::Ignore) == host::ValidationDirective::Ignore,
{
}

/// A patch call sends the patch's own body under the patch type of the same
/// name, for every kind of patch.
pub proof fn law_patch_kind(
    api: host::ApiResource,
    name: String,
    pp: PatchParams,
    body: String,
    scope: host::Scope,
)
    ensures
        patch_type_of(Patch::Apply(body)) == host::PatchType::Apply,
        patch_type_of(Patch::Json(body)) == host::PatchType::Json,
        patch_type_of(Patch::Merge(body)) == host::PatchType::Merge,
        patch_type_of(Patch::Strategic(body)) == host::PatchType::Strategic,
        patch_body(Patch::Apply(body)) == body,
        patch_body(Patch::Json(body)) == body,
        patch_body(Patch::Merge(body)) == body,
        patch_body(Patch::Strategic(body)) == body,
        patch_call_of(api, name, pp, Patch::Merge(body), scope) matches host::HostCall::PatchResource {
            api: a,
            name: n,
            patch: b,
            scope: s,
            ..
        } && a == api && n == name && b == body && s == scope,
{
}

/// Whole-object calls read metadata only exactly for metadata handles.
pub proof fn law_scope()
    ensures
        scope_of(true) == host::Scope::MetadataOnly,
        scope_of(false) == host::Scope::Full,
{
}

/// A watch subscription carries the caller's selectors and flags.
pub proof fn law_watch_params(wp: WatchParams)
    ensures
        watch_params_to_host(wp).label_selector == wp.label_selector,
        watch_params_to_host(wp).field_selector == wp.field_selector,
        watch_params_to_host(wp).bookmark == wp.bookmarks,
        watch_params_to_host(wp).send_initial_events == wp.send_initial_events,
{
}

/// A log read carries the caller's container, flags and counts (each count
/// as `as u64` makes it), and the start time as its RFC 3339 text.
pub proof fn law_log_params(lp: LogParams, hp: host::LogParams)
    requires
        log_params_match(lp, hp),
    ensures
        hp.container == lp.container,
        hp.follow == lp.follow,
        hp.pretty == lp.pretty,
        hp.previous == lp.previous,
        hp.timestamps == lp.timestamps,
        lp.tail_lines is None ==> hp.tail_lines is None,
        lp.tail_lines is Some ==> hp.tail_lines == Some(lp.tail_lines->0 as u64),
        lp.limit_bytes is None ==> hp.limit_bytes is None,
        lp.limit_bytes is Some ==> hp.limit_bytes == Some(lp.limit_bytes->0 as u64),
        lp.since_seconds is None ==> hp.since_seconds is None,
        lp.since_seconds is Some ==> hp.since_seconds == Some(lp.since_seconds->0 as u64),
        lp.since_time is None ==> hp.since_time is None,
        lp.since_time is Some ==> (hp.since_time is Some && hp.since_time->0@ == rfc3339_text(
            lp.since_time->0@,
        )),
{
}

/// Counts keep their value when it is not negative.
pub proof fn law_count(x: Option<i64>)
    ensures
        x is None ==> count_to_host(x) is None,
        x is Some && x->0 >= 0 ==> count_to_host(x) == Some(x->0 as u64) && count_to_host(x)->0
            == x->0,
{
}

/// An eviction carries the caller's delete options and dry-run flag, and no
/// field manager.
pub proof fn law_evict_params(ep: EvictParams)
    ensures
        ep.delete_options is None ==> evict_params_to_host(ep).delete_options is None,
        ep.delete_options is Some ==> evict_params_to_host(ep).delete_options == Some(
            delete_params_to_host(ep.delete_options->0),
        ),
        evict_params_to_host(ep).post_options.dry_run == ep.post_options.dry_run,
        evict_params_to_host(ep).post_options.field_manager is None,
{
}

/// A delete answer is a status exactly when its `kind` is `Status`; it is an
/// error of the API exactly when its `code` is 4XX or 5XX, and the error
/// carries that code, the answer's message and reason (empty when absent).
pub proof fn law_delete_answer_parts(body: Seq<char>, c: u64, e: ClientError)
    ensures
        is_status_answer(body) <==> json_str_field(body, "kind"@) == Some("Status"@),
        is_error_code(Some(c)) <==> 400 <= c && c < 600,
        !is_error_code(None),
        is_api_error_of(e, body) ==> (e matches ClientError::Api(st) && st.code
            == json_u64_field(body, "code"@)->0),
        json_str_field(body, "message"@) is Some && is_api_error_of(e, body) ==> (e matches ClientError::Api(
            st,
        ) && st.message@ == json_str_field(body, "message"@)->0),
        json_str_field(body, "message"@) is None && is_api_error_of(e, body) ==> (e matches ClientError::Api(
            st,
        ) && st.message@.len() == 0),
        json_str_field(body, "reason"@) is Some && is_api_error_of(e, body) ==> (e matches ClientError::Api(
            st,
        ) && st.reason@ == json_str_field(body, "reason"@)->0),
        status_summary_of(Some("Success"@)) == Some(StatusSummary::Success),
        status_summary_of(Some("Failure"@)) == Some(StatusSummary::Failure),
        status_summary_of(None) is None,
{
    reveal_strlit("Success");
    reveal_strlit("Failure");
    assert("Success"@[0] != "Failure"@[0]);
    assert(Some("Failure"@) != Some("Success"@));
}

/// A handle of a resource type addresses that type's group, version, kind and
/// plural in the given namespace.
pub proof fn law_resource_in(rt: ResourceType, namespace: Option<String>)
    ensures
        rt.resource_in(namespace).group == rt.group,
        rt.resource_in(namespace).version == rt.version,
        rt.resource_in(namespace).kind == rt.kind,
        rt.resource_in(namespace).plural == rt.plural,
        rt.resource_in(namespace).namespace == namespace,
        namespace is Some ==> opt_view(namespace) == Some(namespace->0@),
        namespace is None ==> opt_view(namespace) is None,
{
}

/// A subresource scope names its subresource, and a call's scope is the one
/// it was given.
pub proof fn law_scopes(name: String, call: host::HostCall)
    ensures
        host::Scope::Subresource(name).is_subresource(name@),
        !host::Scope::Full.is_subresource(name@),
        !host::Scope::MetadataOnly.is_subresource(name@),
        call matches host::HostCall::GetResource { scope, .. } ==> call.scope() == scope,
        call matches host::HostCall::PatchResource { scope, .. } ==> call.scope() == scope,
        call matches host::HostCall::ReplaceResource { scope, .. } ==> call.scope() == scope,
        call matches host::HostCall::ListResources { scope, .. } ==> call.scope() == scope,
        call matches host::HostCall::DeleteResource { scope, .. } ==> call.scope() == scope,
{
}

/// Patches that a workload restart or a cordon sends use the parameters that
/// all default: no dry run, no force, no field manager, no validation.
pub proof fn law_default_patch_params()
    ensures
        patch_params_to_host(default_patch_params()).dry_run == false,
        patch_params_to_host(default_patch_params()).force == false,
        patch_params_to_host(default_patch_params()).field_manager is None,
        patch_params_to_host(default_patch_params()).field_validation is None,
{
}

} // verus!
