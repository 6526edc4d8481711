//! The typed API handle: which resource type and namespace it addresses, and
//! how the caller's parameters become the host's.

use vstd::prelude::*;

use crate::client::Client;
use crate::config::opt_view;
use crate::host;
use crate::response::{debug_quoted, str_debug};

verus! {

#[verifier::external_type_specification]
#[verifier::external_body]
#[verifier::reject_recursive_types(T)]
pub struct ExEmpty<T>(std::iter::Empty<T>);

/// `std::iter::empty`: an iterator that yields nothing. Nothing is claimed of
/// it; a handle holds one only to name `K` without holding a `K`, which keeps
/// the handle `Send` and `Sync` whatever `K` is.
#[verifier::external_body]
fn no_objects<K>() -> std::iter::Empty<K> {
    std::iter::empty()
}

/// Where objects of a resource type live.
#[derive(Debug, Clone, Copy, PartialEq, Eq)]
pub enum ResourceScope {
    /// Cluster-wide objects, outside any namespace.
    Cluster,
    /// Objects in a namespace.
    Namespaced,
    /// Subresources of other objects.
    Subresource,
    /// Types whose scope is known only at run time.
    Dynamic,
}

/// What a resource type reports of itself: its group, version, kind and
/// plural name, its scope, and whether requests for it ask for metadata only.
#[derive(Debug, Clone, PartialEq, Eq)]
pub struct ResourceType {
    pub group: String,
    pub version: String,
    pub kind: String,
    pub plural: String,
    pub scope: ResourceScope,
    pub metadata_api: bool,
}

impl ResourceType {
    /// The host's address of this resource type in `namespace`.
    pub open spec fn resource_in(self, namespace: Option<String>) -> host::ApiResource {
        host::ApiResource {
            group: self.group,
            version: self.version,
            kind: self.kind,
            plural: self.plural,
            namespace,
        }
    }
}

/// What an [`Api`] holds: its client, the resource it addresses, and whether
/// it reads metadata only.
pub struct ApiView {
    pub client: Client,
    pub resource: host::ApiResource,
    pub metadata_api: bool,
}

/// The generic API handle for objects of type `K`.
#[verifier::reject_recursive_types(K)]
pub struct Api<K> {
    client: Client,
    namespace: Option<String>,
    metadata_api: bool,
    _phantom: std::iter::Empty<K>,
    group: String,
    version: String,
    kind: String,
    plural: String,
}

impl<K> View for Api<K> {
    type V = ApiView;

    closed spec fn view(&self) -> ApiView {
        ApiView {
            client: self.client,
            resource: host::ApiResource {
                group: self.group,
                version: self.version,
                kind: self.kind,
                plural: self.plural,
                namespace: self.namespace,
            },
            metadata_api: self.metadata_api,
        }
    }
}

impl<K> Api<K> {
    pub(crate) fn resource_clone(&self) -> (res: host::ApiResource)
        ensures
            res == self@.resource,
    {
        host::ApiResource {
            group: self.group.clone(),
            version: self.version.clone(),
            kind: self.kind.clone(),
            plural: self.plural.clone(),
            namespace: match &self.namespace {
                Some(ns) => Some(ns.clone()),
                None => None,
            },
        }
    }

    pub(crate) fn is_metadata_api(&self) -> (b: bool)
        ensures
            b == self@.metadata_api,
    {
        self.metadata_api
    }

    /// The namespace of this handle, if any.
    pub fn namespace(&self) -> (ns: Option<&str>)
        ensures
            ns is Some <==> self@.resource.namespace is Some,
            ns matches Some(s) ==> s@ == self@.resource.namespace->0@,
    {
        match &self.namespace {
            Some(s) => Some(s.as_str()),
            None => None,
        }
    }

    /// Cluster level resources, or resources viewed across all namespaces.
    pub fn all_with(client: Client, dyntype: &ResourceType) -> (api: Self)
        ensures
            api@ == (ApiView {
                client,
                resource: dyntype.resource_in(None),
                metadata_api: dyntype.metadata_api,
            }),
    {
        Self {
            client,
            namespace: None,
            metadata_api: dyntype.metadata_api,
            _phantom: no_objects(),
            group: dyntype.group.clone(),
            version: dyntype.version.clone(),
            kind: dyntype.kind.clone(),
            plural: dyntype.plural.clone(),
        }
    }

    /// Namespaced resource within the namespace `ns`, of a resource type
    /// whose scope is known only at run time.
    pub fn namespaced_with(client: Client, ns: &str, dyntype: &ResourceType) -> (api: Self)
        requires
            dyntype.scope == ResourceScope::Dynamic,
        ensures
            api@.client == client,
            api@.metadata_api == dyntype.metadata_api,
            api@.resource == dyntype.resource_in(api@.resource.namespace),
            opt_view(api@.resource.namespace) == Some(ns@),
    {
        Self {
            client,
            namespace: Some(ns.to_owned()),
            metadata_api: dyntype.metadata_api,
            _phantom: no_objects(),
            group: dyntype.group.clone(),
            version: dyntype.version.clone(),
            kind: dyntype.kind.clone(),
            plural: dyntype.plural.clone(),
        }
    }

    /// Namespaced resource within the client's default namespace, of a
    /// resource type whose scope is known only at run time.
    pub fn default_namespaced_with(client: Client, dyntype: &ResourceType) -> (api: Self)
        requires
            dyntype.scope == ResourceScope::Dynamic,
        ensures
            api@.client == client,
            api@.metadata_api == dyntype.metadata_api,
            api@.resource == dyntype.resource_in(api@.resource.namespace),
            opt_view(api@.resource.namespace) == Some(client@.default_namespace),
    {
        let ns = client.default_namespace().to_owned();
        Self::namespaced_with(client, ns.as_str(), dyntype)
    }

    /// Consume the handle and return its client.
    pub fn into_client(self) -> (client: Client)
        ensures
            client == self@.client,
    {
        self.client
    }

    /// Cluster level resources, or resources viewed across all namespaces, of
    /// a resource type with a default dynamic type.
    pub fn all(client: Client, dyntype: &ResourceType) -> (api: Self)
        ensures
            api@ == (ApiView {
                client,
                resource: dyntype.resource_in(None),
                metadata_api: dyntype.metadata_api,
            }),
    {
        Self::all_with(client, dyntype)
    }

    /// Namespaced resource within the namespace `ns`, of a namespaced
    /// resource type with a default dynamic type; cluster-scoped types are
    /// refused.
    pub fn namespaced(client: Client, ns: &str, dyntype: &ResourceType) -> (api: Self)
        requires
            dyntype.scope == ResourceScope::Namespaced,
        ensures
            api@.client == client,
            api@.metadata_api == dyntype.metadata_api,
            api@.resource == dyntype.resource_in(api@.resource.namespace),
            opt_view(api@.resource.namespace) == Some(ns@),
    {
        Self {
            client,
            namespace: Some(ns.to_owned()),
            metadata_api: dyntype.metadata_api,
            _phantom: no_objects(),
            group: dyntype.group.clone(),
            version: dyntype.version.clone(),
            kind: dyntype.kind.clone(),
            plural: dyntype.plural.clone(),
        }
    }

    /// Namespaced resource within the client's default namespace, of a
    /// namespaced resource type with a default dynamic type.
    pub fn default_namespaced(client: Client, dyntype: &ResourceType) -> (api: Self)
        requires
            dyntype.scope == ResourceScope::Namespaced,
        ensures
            api@.client == client,
            api@.metadata_api == dyntype.metadata_api,
            api@.resource == dyntype.resource_in(api@.resource.namespace),
            opt_view(api@.resource.namespace) == Some(client@.default_namespace),
    {
        let ns = client.default_namespace().to_owned();
        Self::namespaced(client, ns.as_str(), dyntype)
    }
}

/// The text that a handle's `Debug` writes: the client elided, the namespace
/// as `{:?}` writes an optional string.
pub open spec fn api_debug(namespace: Option<Seq<char>>) -> Seq<char> {
    "Api { client: \"...\", namespace: "@ + match namespace {
        Some(ns) => "Some("@ + debug_quoted(ns) + ")"@,
        None => "None"@,
    } + " }"@
}

impl<K> Api<K> {
    /// The text of this handle's `Debug` output.
    pub fn debug_text(&self) -> (text: String)
        ensures
            text@ == api_debug(opt_view(self@.resource.namespace)),
    {
        let mut text = "Api { client: \"...\", namespace: ".to_owned();
        match &self.namespace {
            Some(ns) => {
                text.append("Some(");
                let quoted = str_debug(ns.as_str());
                text.append(quoted.as_str());
                text.append(")");
            },
            None => {
                text.append("None");
            },
        }
        text.append(" }");
        text
    }
}

impl<K> Clone for Api<K> {
    fn clone(&self) -> (api: Self)
        ensures
            api@ == self@,
    {
        Api {
            client: self.client.clone(),
            namespace: match &self.namespace {
                Some(ns) => Some(ns.clone()),
                None => None,
            },
            metadata_api: self.metadata_api,
            _phantom: no_objects(),
            group: self.group.clone(),
            version: self.version.clone(),
            kind: self.kind.clone(),
            plural: self.plural.clone(),
        }
    }
}

impl<K> From<Api<K>> for Client {
    fn from(api: Api<K>) -> (client: Client) {
        api.client
    }
}

impl<K> vstd::std_specs::convert::FromSpecImpl<Api<K>> for Client {
    open spec fn obeys_from_spec() -> bool {
        true
    }

    open spec fn from_spec(api: Api<K>) -> Client {
        api@.client
    }
}

} // verus!
