//! Answers of the host read as the concrete Kubernetes types they carry.

use vstd::prelude::*;

use crate::error::ClientError;

verus! {

#[verifier::external_type_specification]
#[verifier::external_body]
pub struct ExScale(k8s_openapi::api::autoscaling::v1::Scale);

/// Whether `text` reads as a `Scale` through `serde_json::from_str`.
pub uninterp spec fn parses_as_scale(text: Seq<char>) -> bool;

/// `serde_json::from_str::<Scale>`. Claimed: an error exactly when `text` does
/// not read as a `Scale` (`parses_as_scale`); nothing is claimed of the value.
#[verifier::external_body]
fn serde_json_scale(text: &str) -> (res: Result<k8s_openapi::api::autoscaling::v1::Scale, serde_json::Error>)
    ensures
        res is Ok <==> parses_as_scale(text@),
{
    serde_json::from_str(text)
}

/// The scale subresource in the answer of a scale call. An answer that does not read as one is a serialization error.
pub fn scale_answer(text: &str) -> (res: Result<k8s_openapi::api::autoscaling::v1::Scale, ClientError>)
    ensures
        res is Ok <==> parses_as_scale(text@),
        res matches Err(e) ==> e is SerdeError,
{
    match serde_json_scale(text) {
        Ok(v) => Ok(v),
        Err(e) => Err(ClientError::SerdeError(e)),
    }
}

#[verifier::external_type_specification]
#[verifier::external_body]
pub struct ExStatus(kube_core::response::Status);

/// Whether `text` reads as a `Status` through `serde_json::from_str`.
pub uninterp spec fn parses_as_status(text: Seq<char>) -> bool;

/// `serde_json::from_str::<Status>`. Claimed: an error exactly when `text` does
/// not read as a `Status` (`parses_as_status`); nothing is claimed of the value.
#[verifier::external_body]
fn serde_json_status(text: &str) -> (res: Result<kube_core::response::Status, serde_json::Error>)
    ensures
        res is Ok <==> parses_as_status(text@),
{
    serde_json::from_str(text)
}

/// The status in the answer of an eviction, or of a delete that is confirmed. An answer that does not read as one is a serialization error.
pub fn status_answer(text: &str) -> (res: Result<kube_core::response::Status, ClientError>)
    ensures
        res is Ok <==> parses_as_status(text@),
        res matches Err(e) ==> e is SerdeError,
{
    match serde_json_status(text) {
        Ok(v) => Ok(v),
        Err(e) => Err(ClientError::SerdeError(e)),
    }
}

#[verifier::external_type_specification]
#[verifier::external_body]
pub struct ExBookmark(kube_core::watch::Bookmark);

/// Whether `text` reads as a `Bookmark` through `serde_json::from_str`.
pub uninterp spec fn parses_as_bookmark(text: Seq<char>) -> bool;

/// `serde_json::from_str::<Bookmark>`. Claimed: an error exactly when `text` does
/// not read as a `Bookmark` (`parses_as_bookmark`); nothing is claimed of the value.
#[verifier::external_body]
fn serde_json_bookmark(text: &str) -> (res: Result<kube_core::watch::Bookmark, serde_json::Error>)
    ensures
        res is Ok <==> parses_as_bookmark(text@),
{
    serde_json::from_str(text)
}

/// The bookmark in the payload of a bookmark event of a watch stream. An answer that does not read as one is a serialization error.
pub fn bookmark_answer(text: &str) -> (res: Result<kube_core::watch::Bookmark, ClientError>)
    ensures
        res is Ok <==> parses_as_bookmark(text@),
        res matches Err(e) ==> e is SerdeError,
{
    match serde_json_bookmark(text) {
        Ok(v) => Ok(v),
        Err(e) => Err(ClientError::SerdeError(e)),
    }
}

#[verifier::external_type_specification]
#[verifier::external_body]
pub struct ExInfo(k8s_openapi::apimachinery::pkg::version::Info);

/// Whether `text` reads as a `Info` through `serde_json::from_str`.
pub uninterp spec fn parses_as_version_info(text: Seq<char>) -> bool;

/// `serde_json::from_str::<Info>`. Claimed: an error exactly when `text` does
/// not read as a `Info` (`parses_as_version_info`); nothing is claimed of the value.
#[verifier::external_body]
fn serde_json_version_info(text: &str) -> (res: Result<k8s_openapi::apimachinery::pkg::version::Info, serde_json::Error>)
    ensures
        res is Ok <==> parses_as_version_info(text@),
{
    serde_json::from_str(text)
}

/// The version information in the answer of an API server version call. An answer that does not read as one is a serialization error.
pub fn version_info_answer(text: &str) -> (res: Result<k8s_openapi::apimachinery::pkg::version::Info, ClientError>)
    ensures
        res is Ok <==> parses_as_version_info(text@),
        res matches Err(e) ==> e is SerdeError,
{
    match serde_json_version_info(text) {
        Ok(v) => Ok(v),
        Err(e) => Err(ClientError::SerdeError(e)),
    }
}

#[verifier::external_type_specification]
#[verifier::external_body]
pub struct ExAPIGroupList(k8s_openapi::apimachinery::pkg::apis::meta::v1::APIGroupList);

/// Whether `text` reads as a `APIGroupList` through `serde_json::from_str`.
pub uninterp spec fn parses_as_api_group_list(text: Seq<char>) -> bool;

/// `serde_json::from_str::<APIGroupList>`. Claimed: an error exactly when `text` does
/// not read as a `APIGroupList` (`parses_as_api_group_list`); nothing is claimed of the value.
#[verifier::external_body]
fn serde_json_api_group_list(text: &str) -> (res: Result<k8s_openapi::apimachinery::pkg::apis::meta::v1::APIGroupList, serde_json::Error>)
    ensures
        res is Ok <==> parses_as_api_group_list(text@),
{
    serde_json::from_str(text)
}

/// The API group list in the answer of a named-group listing. An answer that does not read as one is a serialization error.
pub fn api_group_list_answer(text: &str) -> (res: Result<k8s_openapi::apimachinery::pkg::apis::meta::v1::APIGroupList, ClientError>)
    ensures
        res is Ok <==> parses_as_api_group_list(text@),
        res matches Err(e) ==> e is SerdeError,
{
    match serde_json_api_group_list(text) {
        Ok(v) => Ok(v),
        Err(e) => Err(ClientError::SerdeError(e)),
    }
}

#[verifier::external_type_specification]
#[verifier::external_body]
pub struct ExAPIResourceList(k8s_openapi::apimachinery::pkg::apis::meta::v1::APIResourceList);

/// Whether `text` reads as a `APIResourceList` through `serde_json::from_str`.
pub uninterp spec fn parses_as_api_resource_list(text: Seq<char>) -> bool;

/// `serde_json::from_str::<APIResourceList>`. Claimed: an error exactly when `text` does
/// not read as a `APIResourceList` (`parses_as_api_resource_list`); nothing is claimed of the value.
#[verifier::external_body]
fn serde_json_api_resource_list(text: &str) -> (res: Result<k8s_openapi::apimachinery::pkg::apis::meta::v1::APIResourceList, serde_json::Error>)
    ensures
        res is Ok <==> parses_as_api_resource_list(text@),
{
    serde_json::from_str(text)
}

/// The resource list in the answer of a group version resource listing. An answer that does not read as one is a serialization error.
pub fn api_resource_list_answer(text: &str) -> (res: Result<k8s_openapi::apimachinery::pkg::apis::meta::v1::APIResourceList, ClientError>)
    ensures
        res is Ok <==> parses_as_api_resource_list(text@),
        res matches Err(e) ==> e is SerdeError,
{
    match serde_json_api_resource_list(text) {
        Ok(v) => Ok(v),
        Err(e) => Err(ClientError::SerdeError(e)),
    }
}

#[verifier::external_type_specification]
#[verifier::external_body]
pub struct ExAPIVersions(k8s_openapi::apimachinery::pkg::apis::meta::v1::APIVersions);

/// Whether `text` reads as a `APIVersions` through `serde_json::from_str`.
pub uninterp spec fn parses_as_api_versions(text: Seq<char>) -> bool;

/// `serde_json::from_str::<APIVersions>`. Claimed: an error exactly when `text` does
/// not read as a `APIVersions` (`parses_as_api_versions`); nothing is claimed of the value.
#[verifier::external_body]
fn serde_json_api_versions(text: &str) -> (res: Result<k8s_openapi::apimachinery::pkg::apis::meta::v1::APIVersions, serde_json::Error>)
    ensures
        res is Ok <==> parses_as_api_versions(text@),
{
    serde_json::from_str(text)
}

/// The version list in the answer of a core version listing. An answer that does not read as one is a serialization error.
pub fn api_versions_answer(text: &str) -> (res: Result<k8s_openapi::apimachinery::pkg::apis::meta::v1::APIVersions, ClientError>)
    ensures
        res is Ok <==> parses_as_api_versions(text@),
        res matches Err(e) ==> e is SerdeError,
{
    match serde_json_api_versions(text) {
        Ok(v) => Ok(v),
        Err(e) => Err(ClientError::SerdeError(e)),
    }
}

#[verifier::external_type_specification]
#[verifier::external_body]
pub struct ExAPIGroupDiscoveryList(kube_core::discovery::v2::APIGroupDiscoveryList);

/// Whether `text` reads as a `APIGroupDiscoveryList` through `serde_json::from_str`.
pub uninterp spec fn parses_as_api_group_discovery_list(text: Seq<char>) -> bool;

/// `serde_json::from_str::<APIGroupDiscoveryList>`. Claimed: an error exactly when `text` does
/// not read as a `APIGroupDiscoveryList` (`parses_as_api_group_discovery_list`); nothing is claimed of the value.
#[verifier::external_body]
fn serde_json_api_group_discovery_list(text: &str) -> (res: Result<kube_core::discovery::v2::APIGroupDiscoveryList, serde_json::Error>)
    ensures
        res is Ok <==> parses_as_api_group_discovery_list(text@),
{
    serde_json::from_str(text)
}

/// The aggregated discovery list in the answer of an aggregated listing. An answer that does not read as one is a serialization error.
pub fn api_group_discovery_list_answer(text: &str) -> (res: Result<kube_core::discovery::v2::APIGroupDiscoveryList, ClientError>)
    ensures
        res is Ok <==> parses_as_api_group_discovery_list(text@),
        res matches Err(e) ==> e is SerdeError,
{
    match serde_json_api_group_discovery_list(text) {
        Ok(v) => Ok(v),
        Err(e) => Err(ClientError::SerdeError(e)),
    }
}

} // verus!
