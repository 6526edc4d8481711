//! The host calls that the object operations of an [`Api`] make.

use vstd::prelude::*;

use crate::api::Api;
use crate::convert::{
    delete_params_to_host, list_params_to_host, patch_params_to_host, patch_type_of,
    post_params_to_host, scope_of, watch_params_to_host,
};
use crate::host::{HostCall, Scope};
use crate::params::{DeleteParams, GetParams, ListParams, Patch, PatchParams, PostParams, WatchParams};

verus! {

/// The serialized body that a patch sends.
pub open spec fn patch_body(patch: Patch) -> String {
    match patch {
        Patch::Apply(p) => p,
        Patch::Json(p) => p,
        Patch::Merge(p) => p,
        Patch::Strategic(p) => p,
    }
}

/// The patch call on the object `name` of `api` in `scope`.
pub open spec fn patch_call_of(
    api: crate::host::ApiResource,
    name: String,
    pp: PatchParams,
    patch: Patch,
    scope: Scope,
) -> HostCall {
    HostCall::PatchResource {
        api,
        name,
        patch_type: patch_type_of(patch),
        patch: patch_body(patch),
        params: patch_params_to_host(pp),
        scope,
    }
}

/// The body of a patch.
pub fn patch_payload(patch: &Patch) -> (body: String)
    ensures
        body == patch_body(*patch),
{
    match patch {
        Patch::Apply(p) => p.clone(),
        Patch::Json(p) => p.clone(),
        Patch::Strategic(p) => p.clone(),
        Patch::Merge(p) => p.clone(),
    }
}

impl<K> Api<K> {
    /// The patch call on `name` in `scope`.
    pub(crate) fn patch_call(&self, name: String, pp: &PatchParams, patch: &Patch, scope: Scope) -> (call:
        HostCall)
        ensures
            call == patch_call_of(self@.resource, name, *pp, *patch, scope),
    {
        HostCall::PatchResource {
            api: self.get_wit_api_resource(),
            name,
            patch_type: self.get_wit_patch_type(patch),
            patch: patch_payload(patch),
            params: self.convert_patch_params(pp),
            scope,
        }
    }

    /// The call that gets the object `name`.
    pub fn get(&self, name: String) -> (call: HostCall)
        ensures
            call == (HostCall::GetResource {
                api: self@.resource,
                name,
                resource_version: None,
                scope: scope_of(self@.metadata_api),
            }),
    {
        self.get_with(name, &GetParams { resource_version: None })
    }

    /// The call that gets the metadata of the object `name`.
    pub fn get_metadata(&self, name: String) -> (call: HostCall)
        ensures
            call == (HostCall::GetResource {
                api: self@.resource,
                name,
                resource_version: None,
                scope: Scope::MetadataOnly,
            }),
    {
        self.get_metadata_with(name, &GetParams { resource_version: None })
    }

    /// The call that gets the object `name` at the resource version of `gp`.
    pub fn get_with(&self, name: String, gp: &GetParams) -> (call: HostCall)
        ensures
            call == (HostCall::GetResource {
                api: self@.resource,
                name,
                resource_version: gp.resource_version,
                scope: scope_of(self@.metadata_api),
            }),
    {
        HostCall::GetResource {
            api: self.get_wit_api_resource(),
            name,
            resource_version: match &gp.resource_version {
                Some(rv) => Some(rv.clone()),
                None => None,
            },
            scope: self.get_wit_api_scope(),
        }
    }

    /// The call that gets the metadata of the object `name` at the resource
    /// version of `gp`.
    pub fn get_metadata_with(&self, name: String, gp: &GetParams) -> (call: HostCall)
        ensures
            call == (HostCall::GetResource {
                api: self@.resource,
                name,
                resource_version: gp.resource_version,
                scope: Scope::MetadataOnly,
            }),
    {
        HostCall::GetResource {
            api: self.get_wit_api_resource(),
            name,
            resource_version: match &gp.resource_version {
                Some(rv) => Some(rv.clone()),
                None => None,
            },
            scope: Scope::MetadataOnly,
        }
    }

    /// The call that lists the objects that `lp` selects.
    pub fn list(&self, lp: &ListParams) -> (call: HostCall)
        ensures
            call == (HostCall::ListResources {
                api: self@.resource,
                params: list_params_to_host(*lp),
                scope: scope_of(self@.metadata_api),
            }),
    {
        HostCall::ListResources {
            api: self.get_wit_api_resource(),
            params: self.convert_list_params(lp),
            scope: self.get_wit_api_scope(),
        }
    }

    /// The call that lists the metadata of the objects that `lp` selects.
    pub fn list_metadata(&self, lp: &ListParams) -> (call: HostCall)
        ensures
            call == (HostCall::ListResources {
                api: self@.resource,
                params: list_params_to_host(*lp),
                scope: Scope::MetadataOnly,
            }),
    {
        HostCall::ListResources {
            api: self.get_wit_api_resource(),
            params: self.convert_list_params(lp),
            scope: Scope::MetadataOnly,
        }
    }

    /// The call that creates the object serialized as `data`.
    pub fn create(&self, pp: &PostParams, data: String) -> (call: HostCall)
        ensures
            call == (HostCall::CreateResource {
                api: self@.resource,
                data,
                params: post_params_to_host(*pp),
            }),
    {
        HostCall::CreateResource {
            api: self.get_wit_api_resource(),
            data,
            params: self.convert_post_params(pp),
        }
    }

    /// The call that deletes the object `name`.
    pub fn delete(&self, name: String, dp: &DeleteParams) -> (call: HostCall)
        ensures
            call == (HostCall::DeleteResource {
                api: self@.resource,
                name,
                params: delete_params_to_host(*dp),
                scope: scope_of(self@.metadata_api),
            }),
    {
        HostCall::DeleteResource {
            api: self.get_wit_api_resource(),
            name,
            params: self.convert_delete_params(dp),
            scope: self.get_wit_api_scope(),
        }
    }

    /// The call that deletes the objects that `lp` selects.
    pub fn delete_collection(&self, dp: &DeleteParams, lp: &ListParams) -> (call: HostCall)
        ensures
            call == (HostCall::DeleteCollection {
                api: self@.resource,
                delete_params: delete_params_to_host(*dp),
                list_params: list_params_to_host(*lp),
                scope: scope_of(self@.metadata_api),
            }),
    {
        HostCall::DeleteCollection {
            api: self.get_wit_api_resource(),
            delete_params: self.convert_delete_params(dp),
            list_params: self.convert_list_params(lp),
            scope: self.get_wit_api_scope(),
        }
    }

    /// The call that patches the object `name`.
    pub fn patch(&self, name: String, pp: &PatchParams, patch: &Patch) -> (call: HostCall)
        ensures
            call == patch_call_of(self@.resource, name, *pp, *patch, scope_of(self@.metadata_api)),
    {
        self.patch_call(name, pp, patch, self.get_wit_api_scope())
    }

    /// The call that patches the object `name` and answers with its metadata.
    pub fn patch_metadata(&self, name: String, pp: &PatchParams, patch: &Patch) -> (call: HostCall)
        ensures
            call == patch_call_of(self@.resource, name, *pp, *patch, Scope::MetadataOnly),
    {
        self.patch_call(name, pp, patch, Scope::MetadataOnly)
    }

    /// The call that replaces the object `name` by the one serialized as `data`.
    pub fn replace(&self, name: String, pp: &PostParams, data: String) -> (call: HostCall)
        ensures
            call == (HostCall::ReplaceResource {
                api: self@.resource,
                name,
                data,
                params: post_params_to_host(*pp),
                scope: scope_of(self@.metadata_api),
            }),
    {
        HostCall::ReplaceResource {
            api: self.get_wit_api_resource(),
            name,
            data,
            params: self.convert_post_params(pp),
            scope: self.get_wit_api_scope(),
        }
    }

    /// The call that subscribes to changes from resource version `version` on.
    pub fn watch(&self, wp: &WatchParams, version: String) -> (call: HostCall)
        ensures
            call == (HostCall::SubscribeWatch {
                api: self@.resource,
                version,
                params: watch_params_to_host(*wp),
                scope: scope_of(self@.metadata_api),
            }),
    {
        HostCall::SubscribeWatch {
            api: self.get_wit_api_resource(),
            version,
            params: self.convert_watch_params(wp),
            scope: self.get_wit_api_scope(),
        }
    }

    /// The call that subscribes to metadata changes from resource version
    /// `version` on.
    pub fn watch_metadata(&self, wp: &WatchParams, version: String) -> (call: HostCall)
        ensures
            call == (HostCall::SubscribeWatch {
                api: self@.resource,
                version,
                params: watch_params_to_host(*wp),
                scope: Scope::MetadataOnly,
            }),
    {
        HostCall::SubscribeWatch {
            api: self.get_wit_api_resource(),
            version,
            params: self.convert_watch_params(wp),
            scope: Scope::MetadataOnly,
        }
    }
}

} // verus!
