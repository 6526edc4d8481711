//! The client handle: its default namespace, an optional expiry, and the
//! discovery calls it makes.

use vstd::prelude::*;

use crate::config::Config;
use crate::error::ClientError;
use crate::host::{ApiCategory, HostCall};
use crate::time::Timestamp;

verus! {

/// Errors of authentication: there are none, the host authenticates.
pub type AuthError = std::convert::Infallible;

/// What a client holds: its default namespace and an optional expiry.
pub struct ClientView {
    pub default_namespace: Seq<char>,
    pub valid_until: Option<Timestamp>,
}

/// A client for the host's Kubernetes interface.
#[derive(Debug)]
pub struct Client {
    default_ns: String,
    valid_until: Option<Timestamp>,
}

impl View for Client {
    type V = ClientView;

    closed spec fn view(&self) -> ClientView {
        ClientView { default_namespace: self.default_ns@, valid_until: self.valid_until }
    }
}

impl Clone for Client {
    fn clone(&self) -> (client: Self)
        ensures
            client == *self,
    {
        Client { default_ns: self.default_ns.clone(), valid_until: self.valid_until }
    }
}

impl Client {
    fn new_raw(default_ns: String, valid_until: Option<Timestamp>) -> (client: Self)
        ensures
            client == (Client { default_ns, valid_until }),
            client@ == (ClientView { default_namespace: default_ns@, valid_until }),
    {
        Self { default_ns, valid_until }
    }

    /// A client whose default namespace is `default_namespace`, without expiry.
    /// The service is not used: calls go to the host.
    pub fn new<S, B>(_service: S, default_namespace: String) -> (client: Self)
        ensures
            client@ == (ClientView { default_namespace: default_namespace@, valid_until: None }),
    {
        Self { default_ns: default_namespace, valid_until: None }
    }

    /// The same client with the given expiry.
    pub fn with_valid_until(self, valid_until: Option<Timestamp>) -> (client: Self)
        ensures
            client@ == (ClientView { valid_until, ..self@ }),
    {
        Client { valid_until, ..self }
    }

    /// The client's expiry, if any.
    pub fn valid_until(&self) -> (valid_until: &Option<Timestamp>)
        ensures
            *valid_until == self@.valid_until,
    {
        &self.valid_until
    }

    /// The client's default namespace.
    pub fn default_namespace(&self) -> (ns: &str)
        ensures
            ns@ == self@.default_namespace,
    {
        self.default_ns.as_str()
    }

    /// The call that reads the API server's version.
    pub fn apiserver_version(&self) -> (call: HostCall)
        ensures
            call == HostCall::ApiServerVersion,
    {
        HostCall::ApiServerVersion
    }

    /// The call that lists the named API groups.
    pub fn list_api_groups(&self) -> (call: HostCall)
        ensures
            call == (HostCall::ListApiVersions { category: ApiCategory::Named, aggregated: false }),
    {
        HostCall::ListApiVersions { category: ApiCategory::Named, aggregated: false }
    }

    /// The call that lists the resources of the named group version `apiversion`.
    pub fn list_api_group_resources(&self, apiversion: &str) -> (call: HostCall)
        ensures
            call matches HostCall::ListApiResources { category: ApiCategory::Named, version }
                && version@ == apiversion@,
    {
        HostCall::ListApiResources { category: ApiCategory::Named, version: apiversion.to_owned() }
    }

    /// The call that lists the versions of the core group.
    pub fn list_core_api_versions(&self) -> (call: HostCall)
        ensures
            call == (HostCall::ListApiVersions { category: ApiCategory::Core, aggregated: false }),
    {
        HostCall::ListApiVersions { category: ApiCategory::Core, aggregated: false }
    }

    /// The call that lists the resources of the core group version `version`.
    pub fn list_core_api_resources(&self, version: &str) -> (call: HostCall)
        ensures
            call matches HostCall::ListApiResources { category: ApiCategory::Core, version: v }
                && v@ == version@,
    {
        HostCall::ListApiResources { category: ApiCategory::Core, version: version.to_owned() }
    }

    /// The call that lists the named API groups in aggregated discovery form.
    pub fn list_api_groups_aggregated(&self) -> (call: HostCall)
        ensures
            call == (HostCall::ListApiVersions { category: ApiCategory::Named, aggregated: true }),
    {
        HostCall::ListApiVersions { category: ApiCategory::Named, aggregated: true }
    }

    /// The call that lists the core group in aggregated discovery form.
    pub fn list_core_api_versions_aggregated(&self) -> (call: HostCall)
        ensures
            call == (HostCall::ListApiVersions { category: ApiCategory::Core, aggregated: true }),
    {
        HostCall::ListApiVersions { category: ApiCategory::Core, aggregated: true }
    }
}

/// Builder of a [`Client`].
pub struct ClientBuilder {
    default_ns: String,
    valid_until: Option<Timestamp>,
}

impl View for ClientBuilder {
    type V = ClientView;

    closed spec fn view(&self) -> ClientView {
        ClientView { default_namespace: self.default_ns@, valid_until: self.valid_until }
    }
}

impl ClientBuilder {
    /// A builder for a client in `default_namespace`, without expiry.
    pub fn new(default_namespace: String) -> (builder: Self)
        ensures
            builder@ == (ClientView { default_namespace: default_namespace@, valid_until: None }),
    {
        Self { default_ns: default_namespace, valid_until: None }
    }

    /// The same builder: layers do not apply to host calls.
    pub fn with_layer<L>(self, _layer: &L) -> (builder: Self)
        ensures
            builder@ == self@,
    {
        self
    }

    /// The same builder with the given expiry.
    pub fn with_valid_until(self, valid_until: Option<Timestamp>) -> (builder: Self)
        ensures
            builder@ == (ClientView { valid_until, ..self@ }),
    {
        let mut b = self;
        b.valid_until = valid_until;
        b
    }

    /// The client that this builder describes.
    pub fn build(self) -> (client: Client)
        ensures
            client@ == self@,
            client == self.build_spec(),
    {
        Client::new_raw(self.default_ns, self.valid_until)
    }
}

impl TryFrom<Config> for ClientBuilder {
    type Error = ClientError;

    fn try_from(config: Config) -> (res: Result<Self, ClientError>) {
        Ok(Self { default_ns: config.default_namespace, valid_until: None })
    }
}

impl vstd::std_specs::convert::TryFromSpecImpl<Config> for ClientBuilder {
    open spec fn obeys_try_from_spec() -> bool {
        true
    }

    open spec fn try_from_spec(config: Config) -> Result<Self, ClientError> {
        Ok(ClientBuilder::from_config_spec(config))
    }
}

impl ClientBuilder {
    /// The client that `build` makes.
    pub closed spec fn build_spec(self) -> Client {
        Client { default_ns: self.default_ns, valid_until: self.valid_until }
    }

    /// The builder made from a configuration.
    pub closed spec fn from_config_spec(config: Config) -> ClientBuilder {
        ClientBuilder { default_ns: config.default_namespace, valid_until: None }
    }

    /// The builder made from a configuration has its namespace and no expiry.
    pub proof fn lemma_from_config(config: Config)
        ensures
            ClientBuilder::from_config_spec(config)@ == (ClientView {
                default_namespace: config.default_namespace@,
                valid_until: None,
            }),
    {
    }
}

impl TryFrom<Config> for Client {
    type Error = ClientError;

    fn try_from(config: Config) -> (res: Result<Self, ClientError>) {
        match ClientBuilder::try_from(config) {
            Ok(builder) => Ok(builder.build()),
            Err(e) => Err(e),
        }
    }
}

impl vstd::std_specs::convert::TryFromSpecImpl<Config> for Client {
    open spec fn obeys_try_from_spec() -> bool {
        true
    }

    open spec fn try_from_spec(config: Config) -> Result<Self, ClientError> {
        Ok(Client::from_config_spec(config))
    }
}

impl Client {
    /// The client made from a configuration.
    pub closed spec fn from_config_spec(config: Config) -> Client {
        ClientBuilder::from_config_spec(config).build_spec()
    }

    /// The client made from a configuration has its namespace and no expiry.
    pub proof fn lemma_from_config(config: Config)
        ensures
            Client::from_config_spec(config)@ == (ClientView {
                default_namespace: config.default_namespace@,
                valid_until: None,
            }),
    {
    }
}

} // verus!
