use std::marker::PhantomData;
use vstd::prelude::*;
use vstd::utf8::encode_utf8;

verus! {

/// A stored payload: the closed set of kinds that both sides of a session know.
#[derive(Debug)]
pub enum Resource {
    Bytes(Vec<u8>),
    String(String),
}

/// The ways in which resolving a reference, or registering a payload, can fail.
#[derive(Debug, Clone, Copy, PartialEq, Eq, Structural)]
pub enum ResourceError {
    /// The id was never issued by this store.
    ResourceNotFound,
    /// The id resolves, but the stored payload is of another kind.
    TypeMismatch,
    /// The channel to the store failed while a call was in flight.
    TransportFailure,
    /// The store has no fresh id left to hand out.
    StoreExhausted,
}

/// A handle to a stored payload: the bare id, tagged with the payload's
/// expected type so that call sites cannot mix up kinds of handles.
#[derive(Debug)]
pub struct ResourceRef<T> {
    pub id: u64,
    pub marker: PhantomData<T>,
}

impl<T> ResourceRef<T> {
    /// A typed handle to the payload stored under `id`.
    pub fn from_id(id: u64) -> (r: Self)
        ensures
            r.id == id,
    {
        ResourceRef { id, marker: PhantomData }
    }

    /// The id that this handle denotes.
    pub fn id(&self) -> (r: u64)
        ensures
            r == self.id,
    {
        self.id
    }
}

/// A Rust type that can be stored as a payload and recovered from one by a
/// checked downcast.
pub trait Payload: Sized {
    /// The payload that stores `v`.
    spec fn erase(v: Self) -> Resource;

    /// The value of this type that `r` holds, if `r` is of this type's kind.
    spec fn recover(r: Resource) -> Option<Self>;

    /// Storing a value and recovering it gives back that value.
    proof fn lemma_recover_erase(v: Self)
        ensures
            Self::recover(Self::erase(v)) == Some(v),
    ;

    fn into_resource(self) -> (r: Resource)
        ensures
            r == Self::erase(self),
    ;

    fn from_resource(r: &Resource) -> (out: Option<&Self>)
        ensures
            match out {
                Some(v) => Self::recover(*r) == Some(*v),
                None => Self::recover(*r) is None,
            },
    ;
}

impl Payload for Vec<u8> {
    open spec fn erase(v: Self) -> Resource {
        Resource::Bytes(v)
    }

    open spec fn recover(r: Resource) -> Option<Self> {
        match r {
            Resource::Bytes(b) => Some(b),
            _ => None,
        }
    }

    proof fn lemma_recover_erase(v: Self) {
    }

    fn into_resource(self) -> (r: Resource) {
        Resource::Bytes(self)
    }

    fn from_resource(r: &Resource) -> (out: Option<&Self>) {
        match r {
            Resource::Bytes(b) => Some(b),
            _ => None,
        }
    }
}

impl Payload for String {
    open spec fn erase(v: Self) -> Resource {
        Resource::String(v)
    }

    open spec fn recover(r: Resource) -> Option<Self> {
        match r {
            Resource::String(s) => Some(s),
            _ => None,
        }
    }

    proof fn lemma_recover_erase(v: Self) {
    }

    fn into_resource(self) -> (r: Resource) {
        Resource::String(self)
    }

    fn from_resource(r: &Resource) -> (out: Option<&Self>) {
        match r {
            Resource::String(s) => Some(s),
            _ => None,
        }
    }
}

impl From<Vec<u8>> for Resource {
    fn from(inner: Vec<u8>) -> (r: Self) {
        Resource::Bytes(inner)
    }
}

impl vstd::std_specs::convert::FromSpecImpl<Vec<u8>> for Resource {
    open spec fn obeys_from_spec() -> bool {
        true
    }

    open spec fn from_spec(inner: Vec<u8>) -> Self {
        Resource::Bytes(inner)
    }
}

impl From<String> for Resource {
    fn from(inner: String) -> (r: Self) {
        Resource::String(inner)
    }
}

impl vstd::std_specs::convert::FromSpecImpl<String> for Resource {
    open spec fn obeys_from_spec() -> bool {
        true
    }

    open spec fn from_spec(inner: String) -> Self {
        Resource::String(inner)
    }
}

/// What a typed resolution of `found` gives: `found` is the stored payload,
/// if there is one.
pub open spec fn downcast_spec<T: Payload>(found: Option<Resource>) -> Result<T, ResourceError> {
    match found {
        None => Err(ResourceError::ResourceNotFound),
        Some(r) => match T::recover(r) {
            Some(v) => Ok(v),
            None => Err(ResourceError::TypeMismatch),
        },
    }
}

/// The checked downcast of a stored payload to the type that an operation
/// expects: it fails rather than reinterpret a payload of another kind.
pub fn downcast<T: Payload>(resource: &Resource) -> (out: Result<&T, ResourceError>)
    ensures
        match out {
            Ok(v) => downcast_spec::<T>(Some(*resource)) == Ok::<T, ResourceError>(*v),
            Err(e) => downcast_spec::<T>(Some(*resource)) == Err::<T, ResourceError>(e),
        },
{
    match T::from_resource(resource) {
        Some(v) => Ok(v),
        None => Err(ResourceError::TypeMismatch),
    }
}

/// The length of the text that `found` holds: `found` is what the store gave
/// for a reference, `None` where it holds nothing under that id.
pub open spec fn length_spec(found: Option<Resource>) -> Result<usize, ResourceError> {
    match downcast_spec::<String>(found) {
        Ok(s) => Ok(encode_utf8(s@).len() as usize),
        Err(e) => Err(e),
    }
}

/// The `length` operation on what the store gave for a reference: the byte
/// length of a stored text in UTF-8, and the resolution error otherwise.
pub fn length_of(found: Option<&Resource>) -> (out: Result<usize, ResourceError>)
    ensures
        out == length_spec(
            match found {
                Some(r) => Some(*r),
                None => None,
            },
        ),
{
    match found {
        None => Err(ResourceError::ResourceNotFound),
        Some(r) => match downcast::<String>(r) {
            Ok(s) => Ok(s.as_str().len()),
            Err(e) => Err(e),
        },
    }
}

} // verus!
