use vstd::prelude::*;

use crate::host::HostError;
use crate::response::ApiStatus;

verus! {

#[verifier::external_type_specification]
#[verifier::external_body]
pub struct ExJsonError(serde_json::Error);

/// Errors of the client.
#[derive(Debug)]
pub enum ClientError {
    /// The host answered a call with an error.
    Wit(HostError),
    /// A payload could not be (de)serialized.
    SerdeError(serde_json::Error),
    /// The API answered with an error status (a 4XX or 5XX code).
    Api(ApiStatus),
    /// The request cannot be made under WASI.
    Wasi(String),
    /// The configuration could not be inferred.
    InferConfig(InferConfigError),
}

/// Failed to infer configuration under WASI.
#[derive(Debug)]
pub struct InferConfigError(pub Box<ClientError>);

impl From<ClientError> for InferConfigError {
    fn from(e: ClientError) -> (res: Self) {
        InferConfigError(Box::new(e))
    }
}

impl vstd::std_specs::convert::FromSpecImpl<ClientError> for InferConfigError {
    open spec fn obeys_from_spec() -> bool {
        true
    }

    open spec fn from_spec(e: ClientError) -> Self {
        InferConfigError(Box::new(e))
    }
}

} // verus!
