//! Request and response bodies, held as `bytes::Bytes`.

use vstd::prelude::*;

use crate::error::ClientError;

verus! {

#[verifier::external_type_specification]
#[verifier::external_body]
pub struct ExBytes(bytes::Bytes);

/// The bytes that a `bytes::Bytes` buffer holds.
pub uninterp spec fn bytes_contents(b: bytes::Bytes) -> Seq<u8>;

/// `bytes::Bytes::new`: claimed to hold no bytes.
#[verifier::external_body]
fn bytes_new() -> (b: bytes::Bytes)
    ensures
        bytes_contents(b) == Seq::<u8>::empty(),
{
    bytes::Bytes::new()
}

/// `bytes::Bytes::from(Vec<u8>)`: claimed to hold the vector's bytes.
#[verifier::external_body]
fn bytes_from_vec(v: Vec<u8>) -> (b: bytes::Bytes)
    ensures
        bytes_contents(b) == v@,
{
    bytes::Bytes::from(v)
}

/// `<bytes::Bytes as Clone>::clone`: claimed to hold the same bytes.
#[verifier::external_body]
fn bytes_clone(b: &bytes::Bytes) -> (c: bytes::Bytes)
    ensures
        bytes_contents(c) == bytes_contents(*b),
{
    b.clone()
}

/// A body of bytes.
pub struct Body {
    bytes: bytes::Bytes,
}

impl View for Body {
    type V = Seq<u8>;

    closed spec fn view(&self) -> Seq<u8> {
        bytes_contents(self.bytes)
    }
}

impl Clone for Body {
    fn clone(&self) -> (body: Self)
        ensures
            body@ == self@,
    {
        Body { bytes: bytes_clone(&self.bytes) }
    }
}

impl Body {
    /// The empty body.
    pub fn empty() -> (body: Self)
        ensures
            body@ == Seq::<u8>::empty(),
    {
        Self { bytes: bytes_new() }
    }

    /// The body's bytes.
    pub fn collect_bytes(self) -> (res: Result<bytes::Bytes, ClientError>)
        ensures
            res matches Ok(b) && bytes_contents(b) == self@,
    {
        Ok(self.bytes)
    }

    /// A copy of the body; bodies can always be copied.
    pub fn try_clone(&self) -> (res: Option<Self>)
        ensures
            res matches Some(b) && b@ == self@,
    {
        Some(self.clone())
    }

    /// The text of a body's `Debug` output, which shows no bytes.
    pub fn debug_text(&self) -> (text: String)
        ensures
            text@ == "Body"@,
    {
        "Body".to_owned()
    }

    /// The body holding the bytes of `vec`.
    pub fn from_vec(vec: Vec<u8>) -> (body: Self)
        ensures
            body@ == vec@,
    {
        Self { bytes: bytes_from_vec(vec) }
    }
}

impl From<bytes::Bytes> for Body {
    fn from(bytes: bytes::Bytes) -> (body: Self) {
        Self { bytes }
    }
}

impl vstd::std_specs::convert::FromSpecImpl<bytes::Bytes> for Body {
    open spec fn obeys_from_spec() -> bool {
        true
    }

    open spec fn from_spec(bytes: bytes::Bytes) -> Self {
        Body::holding(bytes)
    }
}

impl From<Vec<u8>> for Body {
    fn from(vec: Vec<u8>) -> (body: Self)
        ensures
            body@ == vec@,
    {
        Body::from_vec(vec)
    }
}

/// Two buffers made from equal vectors are different allocations, so no
/// single value is what `from` returns: this conversion does not obey a
/// `from_spec`. What the body holds is stated on `from` itself.
impl vstd::std_specs::convert::FromSpecImpl<Vec<u8>> for Body {
    open spec fn obeys_from_spec() -> bool {
        false
    }

    open spec fn from_spec(vec: Vec<u8>) -> Self {
        arbitrary()
    }
}

impl Body {
    /// The body that holds the buffer `bytes`.
    pub closed spec fn holding(bytes: bytes::Bytes) -> Body {
        Body { bytes }
    }

    /// A body made from a buffer holds the buffer's bytes.
    pub proof fn lemma_holding(bytes: bytes::Bytes)
        ensures
            Body::holding(bytes)@ == bytes_contents(bytes),
    {
    }
}

} // verus!
