//! Operations of particular resource types: restarting workloads, cordoning
//! nodes, requesting service account tokens and approving certificate
//! signing requests.

use vstd::prelude::*;

use crate::api::Api;
use crate::calls::patch_call_of;
use crate::convert::post_params_to_host;
use crate::error::ClientError;
use crate::host::HostCall;
use crate::params::{Patch, PatchParams, PostParams};
use crate::time::{rfc3339_text, Timestamp};

verus! {

#[verifier::external_type_specification]
#[verifier::external_body]
pub struct ExNode(k8s_openapi::api::core::v1::Node);

#[verifier::external_type_specification]
#[verifier::external_body]
pub struct ExServiceAccount(k8s_openapi::api::core::v1::ServiceAccount);

#[verifier::external_type_specification]
#[verifier::external_body]
pub struct ExCertificateSigningRequest(
    k8s_openapi::api::certificates::v1::CertificateSigningRequest,
);

/// The JSON text that `serde_json` writes for the value it reads from
/// `text`, or `None` when `text` is not JSON.
pub uninterp spec fn json_reformatted(text: Seq<char>) -> Option<Seq<char>>;

/// Reads `text` with `serde_json::from_str::<serde_json::Value>` and writes
/// the value back with `serde_json::to_string`. Claimed: the outcome is
/// `json_reformatted` of the text, an error exactly where it is `None`.
#[verifier::external_body]
fn serde_json_reformat(text: &str) -> (res: Result<String, serde_json::Error>)
    ensures
        res is Ok <==> json_reformatted(text@) is Some,
        res matches Ok(s) ==> Some(s@) == json_reformatted(text@),
{
    match serde_json::from_str::<serde_json::Value>(text) {
        Ok(v) => serde_json::to_string(&v),
        Err(e) => Err(e),
    }
}

/// The patch parameters that all fields default.
pub open spec fn default_patch_params() -> PatchParams {
    PatchParams { dry_run: false, force: false, field_manager: None, field_validation: None }
}

fn default_patch_params_exec() -> (pp: PatchParams)
    ensures
        pp == default_patch_params(),
{
    PatchParams { dry_run: false, force: false, field_manager: None, field_validation: None }
}

/// The merge patch text that marks a workload as restarted at `at`.
pub open spec fn restart_annotation(at: Seq<char>) -> Seq<char> {
    "{\"metadata\":{\"annotations\":{\"kubectl.kubernetes.io/restartedAt\":\""@ + at + "\"}}}"@
}

/// The merge patch text that marks a node unschedulable (or not).
pub open spec fn unschedulable_patch(unschedulable: bool) -> Seq<char> {
    if unschedulable {
        "{\"spec\":{\"unschedulable\":true}}"@
    } else {
        "{\"spec\":{\"unschedulable\":false}}"@
    }
}

fn restart_annotation_text(at: &Timestamp) -> (text: String)
    ensures
        text@ == restart_annotation(rfc3339_text(at@)),
{
    let mut text = "{\"metadata\":{\"annotations\":{\"kubectl.kubernetes.io/restartedAt\":\"".to_owned();
    let stamp = at.to_rfc3339();
    text.append(stamp.as_str());
    text.append("\"}}}");
    text
}

impl<K> Api<K> {
    /// The call that restarts the workload `name` by merging an annotation
    /// with the restart time `now` into its pod template metadata.
    pub fn restart(&self, name: String, now: &Timestamp) -> (res: Result<HostCall, ClientError>)
        ensures
            json_reformatted(restart_annotation(rfc3339_text(now@))) matches Some(body) ==> (res
                matches Ok(call) && call == patch_call_of(
                self@.resource,
                name,
                default_patch_params(),
                Patch::Merge(call->PatchResource_patch),
                crate::convert::scope_of(self@.metadata_api),
            ) && call->PatchResource_patch@ == body),
            json_reformatted(restart_annotation(rfc3339_text(now@))) is None ==> (res matches Err(
                e,
            ) && e is SerdeError),
    {
        let annotation = restart_annotation_text(now);
        match serde_json_reformat(annotation.as_str()) {
            Ok(body) => {
                let pp = default_patch_params_exec();
                Ok(self.patch(name, &pp, &Patch::Merge(body)))
            },
            Err(e) => Err(ClientError::SerdeError(e)),
        }
    }
}

impl Api<k8s_openapi::api::core::v1::Node> {
    /// The call that marks the node `name` unschedulable.
    pub fn cordon(&self, name: String) -> (call: HostCall)
        ensures
            call == patch_call_of(
                self@.resource,
                name,
                default_patch_params(),
                Patch::Merge(call->PatchResource_patch),
                crate::convert::scope_of(self@.metadata_api),
            ),
            call->PatchResource_patch@ == unschedulable_patch(true),
    {
        let pp = default_patch_params_exec();
        let body = "{\"spec\":{\"unschedulable\":true}}".to_owned();
        self.patch(name, &pp, &Patch::Merge(body))
    }

    /// The call that marks the node `name` schedulable again.
    pub fn uncordon(&self, name: String) -> (call: HostCall)
        ensures
            call == patch_call_of(
                self@.resource,
                name,
                default_patch_params(),
                Patch::Merge(call->PatchResource_patch),
                crate::convert::scope_of(self@.metadata_api),
            ),
            call->PatchResource_patch@ == unschedulable_patch(false),
    {
        let pp = default_patch_params_exec();
        let body = "{\"spec\":{\"unschedulable\":false}}".to_owned();
        self.patch(name, &pp, &Patch::Merge(body))
    }
}

impl Api<k8s_openapi::api::core::v1::ServiceAccount> {
    /// The call that creates a token for the service account `name` from the
    /// token request serialized as `token_request`.
    pub fn create_token_request(&self, name: String, pp: &PostParams, token_request: String) -> (call:
        HostCall)
        ensures
            call == (HostCall::CreateSubresource {
                api: self@.resource,
                name,
                subresource: call->CreateSubresource_subresource,
                data: token_request,
                params: post_params_to_host(*pp),
            }),
            call->CreateSubresource_subresource@ == "token"@,
    {
        self.create_subresource("token".to_owned(), name, pp, token_request)
    }
}

impl Api<k8s_openapi::api::certificates::v1::CertificateSigningRequest> {
    /// The call that patches the approval of the signing request `name`.
    pub fn patch_approval(&self, name: String, pp: &PatchParams, patch: &Patch) -> (call: HostCall)
        ensures
            call == patch_call_of(self@.resource, name, *pp, *patch, call.scope()),
            call.scope().is_subresource("approval"@),
    {
        self.patch_subresource("approval".to_owned(), name, pp, patch)
    }

    /// The call that reads the signing request `name` through its approval
    /// subresource.
    pub fn get_approval(&self, name: String) -> (call: HostCall)
        ensures
            call == (HostCall::GetResource {
                api: self@.resource,
                name,
                resource_version: None,
                scope: call.scope(),
            }),
            call.scope().is_subresource("approval"@),
    {
        self.get_subresource("approval".to_owned(), name)
    }
}

} // verus!
