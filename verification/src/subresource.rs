//! The host calls of subresources: scale, status, ephemeral containers,
//! resize, logs, eviction, and arbitrary named subresources.

use vstd::prelude::*;

use crate::api::Api;
use crate::calls::patch_call_of;
use crate::convert::{evict_params_to_host, log_params_match, post_params_to_host};
use crate::host::{HostCall, Scope};
use crate::params::{EvictParams, LogParams, Patch, PatchParams, PostParams};

verus! {

#[verifier::external_type_specification]
#[verifier::external_body]
pub struct ExPod(k8s_openapi::api::core::v1::Pod);

/// Marker trait for objects that support the ephemeral containers subresource.
pub trait Ephemeral {}

impl Ephemeral for k8s_openapi::api::core::v1::Pod {}

/// Marker trait for objects that support the resize subresource.
pub trait Resize {}

impl Resize for k8s_openapi::api::core::v1::Pod {}

/// Marker trait for objects that have logs.
pub trait Log {}

impl Log for k8s_openapi::api::core::v1::Pod {}

/// Marker trait for objects that can be evicted.
pub trait Evict {}

impl Evict for k8s_openapi::api::core::v1::Pod {}

/// The scope of the subresource `name`.
pub fn subresource_scope(name: &str) -> (scope: Scope)
    ensures
        scope.is_subresource(name@),
{
    Scope::Subresource(name.to_owned())
}

impl<K> Api<K> {
    /// The call that reads the subresource `sub` of the object `name`.
    fn get_in(&self, name: String, sub: &str) -> (call: HostCall)
        ensures
            call == (HostCall::GetResource {
                api: self@.resource,
                name,
                resource_version: None,
                scope: call.scope(),
            }),
            call.scope().is_subresource(sub@),
    {
        HostCall::GetResource {
            api: self.get_wit_api_resource(),
            name,
            resource_version: None,
            scope: subresource_scope(sub),
        }
    }

    /// The call that replaces the subresource `sub` of the object `name`.
    fn replace_in(&self, name: String, pp: &PostParams, data: String, sub: &str) -> (call:
        HostCall)
        ensures
            call == (HostCall::ReplaceResource {
                api: self@.resource,
                name,
                data,
                params: post_params_to_host(*pp),
                scope: call.scope(),
            }),
            call.scope().is_subresource(sub@),
    {
        HostCall::ReplaceResource {
            api: self.get_wit_api_resource(),
            name,
            data,
            params: self.convert_post_params(pp),
            scope: subresource_scope(sub),
        }
    }

    /// The call that patches the subresource `sub` of the object `name`.
    fn patch_in(&self, name: String, pp: &PatchParams, patch: &Patch, sub: &str) -> (call: HostCall)
        ensures
            call == patch_call_of(self@.resource, name, *pp, *patch, call.scope()),
            call.scope().is_subresource(sub@),
    {
        self.patch_call(name, pp, patch, subresource_scope(sub))
    }

    /// The call that reads the scale subresource of the object `name`.
    pub fn get_scale(&self, name: String) -> (call: HostCall)
        ensures
            call == (HostCall::GetResource {
                api: self@.resource,
                name,
                resource_version: None,
                scope: call.scope(),
            }),
            call.scope().is_subresource("scale"@),
    {
        self.get_in(name, "scale")
    }

    /// The call that patches the scale subresource of the object `name`.
    pub fn patch_scale(&self, name: String, pp: &PatchParams, patch: &Patch) -> (call: HostCall)
        ensures
            call == patch_call_of(self@.resource, name, *pp, *patch, call.scope()),
            call.scope().is_subresource("scale"@),
    {
        self.patch_in(name, pp, patch, "scale")
    }

    /// The call that replaces the scale subresource of the object `name` by
    /// the scale serialized as `data`.
    pub fn replace_scale(&self, name: String, pp: &PostParams, data: String) -> (call: HostCall)
        ensures
            call == (HostCall::ReplaceResource {
                api: self@.resource,
                name,
                data,
                params: post_params_to_host(*pp),
                scope: call.scope(),
            }),
            call.scope().is_subresource("scale"@),
    {
        self.replace_in(name, pp, data, "scale")
    }

    /// The call that reads the subresource `subresource_name` of the object `name`.
    pub fn get_subresource(&self, subresource_name: String, name: String) -> (call: HostCall)
        ensures
            call == (HostCall::GetResource {
                api: self@.resource,
                name,
                resource_version: None,
                scope: Scope::Subresource(subresource_name),
            }),
    {
        HostCall::GetResource {
            api: self.get_wit_api_resource(),
            name,
            resource_version: None,
            scope: Scope::Subresource(subresource_name),
        }
    }

    /// The call that creates an instance of the subresource `subresource_name`
    /// of the object `name` from the value serialized as `data`.
    pub fn create_subresource(
        &self,
        subresource_name: String,
        name: String,
        pp: &PostParams,
        data: String,
    ) -> (call: HostCall)
        ensures
            call == (HostCall::CreateSubresource {
                api: self@.resource,
                name,
                subresource: subresource_name,
                data,
                params: post_params_to_host(*pp),
            }),
    {
        HostCall::CreateSubresource {
            api: self.get_wit_api_resource(),
            name,
            subresource: subresource_name,
            data,
            params: self.convert_post_params(pp),
        }
    }

    /// The call that patches the subresource `subresource_name` of the object `name`.
    pub fn patch_subresource(
        &self,
        subresource_name: String,
        name: String,
        pp: &PatchParams,
        patch: &Patch,
    ) -> (call: HostCall)
        ensures
            call == patch_call_of(
                self@.resource,
                name,
                *pp,
                *patch,
                Scope::Subresource(subresource_name),
            ),
    {
        self.patch_call(name, pp, patch, Scope::Subresource(subresource_name))
    }

    /// The call that replaces the subresource `subresource_name` of the object
    /// `name` by the value serialized as `data`.
    pub fn replace_subresource(
        &self,
        subresource_name: String,
        name: String,
        pp: &PostParams,
        data: String,
    ) -> (call: HostCall)
        ensures
            call == (HostCall::ReplaceResource {
                api: self@.resource,
                name,
                data,
                params: post_params_to_host(*pp),
                scope: Scope::Subresource(subresource_name),
            }),
    {
        HostCall::ReplaceResource {
            api: self.get_wit_api_resource(),
            name,
            data,
            params: self.convert_post_params(pp),
            scope: Scope::Subresource(subresource_name),
        }
    }

    /// The call that reads the object `name` through its status subresource.
    pub fn get_status(&self, name: String) -> (call: HostCall)
        ensures
            call == (HostCall::GetResource {
                api: self@.resource,
                name,
                resource_version: None,
                scope: call.scope(),
            }),
            call.scope().is_subresource("status"@),
    {
        self.get_in(name, "status")
    }

    /// The call that patches the status of the object `name`.
    pub fn patch_status(&self, name: String, pp: &PatchParams, patch: &Patch) -> (call: HostCall)
        ensures
            call == patch_call_of(self@.resource, name, *pp, *patch, call.scope()),
            call.scope().is_subresource("status"@),
    {
        self.patch_in(name, pp, patch, "status")
    }

    /// The call that replaces the status of the object `name` by that of the
    /// object serialized as `data`.
    pub fn replace_status(&self, name: String, pp: &PostParams, data: String) -> (call: HostCall)
        ensures
            call == (HostCall::ReplaceResource {
                api: self@.resource,
                name,
                data,
                params: post_params_to_host(*pp),
                scope: call.scope(),
            }),
            call.scope().is_subresource("status"@),
    {
        self.replace_in(name, pp, data, "status")
    }
}

impl<K: Ephemeral> Api<K> {
    /// The call that replaces the ephemeral containers of the object `name`
    /// by those of the object serialized as `data`.
    pub fn replace_ephemeral_containers(&self, name: String, pp: &PostParams, data: String) -> (call:
        HostCall)
        ensures
            call == (HostCall::ReplaceResource {
                api: self@.resource,
                name,
                data,
                params: post_params_to_host(*pp),
                scope: call.scope(),
            }),
            call.scope().is_subresource("ephemeralcontainers"@),
    {
        self.replace_in(name, pp, data, "ephemeralcontainers")
    }

    /// The call that patches the ephemeral containers of the object `name`.
    pub fn patch_ephemeral_containers(&self, name: String, pp: &PatchParams, patch: &Patch) -> (call:
        HostCall)
        ensures
            call == patch_call_of(self@.resource, name, *pp, *patch, call.scope()),
            call.scope().is_subresource("ephemeralcontainers"@),
    {
        self.patch_in(name, pp, patch, "ephemeralcontainers")
    }

    /// The call that reads the object `name` through its ephemeral containers
    /// subresource.
    pub fn get_ephemeral_containers(&self, name: String) -> (call: HostCall)
        ensures
            call == (HostCall::GetResource {
                api: self@.resource,
                name,
                resource_version: None,
                scope: call.scope(),
            }),
            call.scope().is_subresource("ephemeralcontainers"@),
    {
        self.get_in(name, "ephemeralcontainers")
    }
}

impl<K: Resize> Api<K> {
    /// The call that reads the object `name` through its resize subresource.
    pub fn get_resize(&self, name: String) -> (call: HostCall)
        ensures
            call == (HostCall::GetResource {
                api: self@.resource,
                name,
                resource_version: None,
                scope: call.scope(),
            }),
            call.scope().is_subresource("resize"@),
    {
        self.get_in(name, "resize")
    }

    /// The call that patches the resize subresource of the object `name`.
    pub fn patch_resize(&self, name: String, pp: &PatchParams, patch: &Patch) -> (call: HostCall)
        ensures
            call == patch_call_of(self@.resource, name, *pp, *patch, call.scope()),
            call.scope().is_subresource("resize"@),
    {
        self.patch_in(name, pp, patch, "resize")
    }

    /// The call that replaces the resize subresource of the object `name` by
    /// that of the object serialized as `data`.
    pub fn replace_resize(&self, name: String, pp: &PostParams, data: String) -> (call: HostCall)
        ensures
            call == (HostCall::ReplaceResource {
                api: self@.resource,
                name,
                data,
                params: post_params_to_host(*pp),
                scope: call.scope(),
            }),
            call.scope().is_subresource("resize"@),
    {
        self.replace_in(name, pp, data, "resize")
    }
}

impl<K: Log> Api<K> {
    /// The call that reads the logs of the object `name` as text.
    pub fn logs(&self, name: String, lp: &LogParams) -> (call: HostCall)
        ensures
            call matches HostCall::GetLogs { api, name: n, params } && api == self@.resource && n
                == name && log_params_match(*lp, params),
    {
        HostCall::GetLogs {
            api: self.get_wit_api_resource(),
            name,
            params: self.convert_log_params(lp),
        }
    }
}

impl<K: Evict> Api<K> {
    /// The call that evicts the object `name`.
    pub fn evict(&self, name: String, ep: &EvictParams) -> (call: HostCall)
        ensures
            call == (HostCall::Evict {
                api: self@.resource,
                name,
                params: evict_params_to_host(*ep),
            }),
    {
        HostCall::Evict {
            api: self.get_wit_api_resource(),
            name,
            params: self.convert_evict_params(ep),
        }
    }
}

} // verus!
