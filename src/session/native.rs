use std::collections::HashMap;
use std::marker::PhantomData;
use vstd::prelude::*;

use crate::resource::{downcast, downcast_spec, Payload, Resource, ResourceError, ResourceRef};

verus! {

broadcast use {
    vstd::std_specs::hash::group_hash_axioms,
    vstd::std_specs::hash::axiom_random_state_builds_valid_hashers,
};

/// A store owned by a single session: ids are issued from 1 upwards, and each
/// payload stays under its id for as long as the session lives.
pub struct NativeSession {
    resource_id: u64,
    resources: HashMap<u64, Resource>,
}

impl View for NativeSession {
    type V = Map<u64, Resource>;

    /// The stored payloads, by id.
    closed spec fn view(&self) -> Map<u64, Resource> {
        self.resources@
    }
}

impl NativeSession {
    /// The id most recently issued, or 0 before the first registration.
    pub closed spec fn last_id(&self) -> u64 {
        self.resource_id
    }

    /// Every stored id was issued: it lies between 1 and the last id.
    pub closed spec fn wf(&self) -> bool {
        forall|k: u64| #[trigger] self.resources@.contains_key(k) ==> 1 <= k <= self.resource_id
    }

    /// The payload stored under `id`, if any.
    pub open spec fn stored(&self, id: u64) -> Option<Resource> {
        if self@.contains_key(id) {
            Some(self@[id])
        } else {
            None
        }
    }

    /// An empty store.
    pub fn new() -> (s: Self)
        ensures
            s.wf(),
            s@ == Map::<u64, Resource>::empty(),
            s.last_id() == 0,
    {
        NativeSession { resource_id: 0, resources: HashMap::new() }
    }

    /// Stores `resource` under a fresh id and returns that id.
    pub fn register_resource(&mut self, resource: Resource) -> (r: Result<u64, ResourceError>)
        requires
            old(self).wf(),
        ensures
            final(self).wf(),
            r is Ok <==> old(self).last_id() < u64::MAX,
            match r {
                Ok(id) => registered(*old(self), resource, *final(self), id),
                Err(e) => e == ResourceError::StoreExhausted && *final(self) == *old(self),
            },
    {
        if self.resource_id == u64::MAX {
            return Err(ResourceError::StoreExhausted);
        }
        self.resource_id = self.resource_id + 1;
        let id = self.resource_id;
        self.resources.insert(id, resource);
        Ok(id)
    }

    /// Stores `data` and returns a handle typed by what was stored.
    pub fn register<T: Payload>(&mut self, data: T) -> (r: Result<ResourceRef<T>, ResourceError>)
        requires
            old(self).wf(),
        ensures
            final(self).wf(),
            r is Ok <==> old(self).last_id() < u64::MAX,
            match r {
                Ok(rr) => registered(*old(self), T::erase(data), *final(self), rr.id),
                Err(e) => e == ResourceError::StoreExhausted && *final(self) == *old(self),
            },
    {
        let id = self.register_resource(data.into_resource())?;
        Ok(ResourceRef { id, marker: PhantomData })
    }

    /// The payload stored under `id`.
    pub fn resolve(&self, id: u64) -> (r: Result<&Resource, ResourceError>)
        ensures
            match r {
                Ok(v) => self.stored(id) == Some(*v),
                Err(e) => self.stored(id) is None && e == ResourceError::ResourceNotFound,
            },
    {
        match self.resources.get(&id) {
            Some(v) => Ok(v),
            None => Err(ResourceError::ResourceNotFound),
        }
    }

    /// The stored value that `resource` denotes, downcast to its tagged type.
    pub fn resolve_typed<T: Payload>(&self, resource: &ResourceRef<T>) -> (r: Result<
        &T,
        ResourceError,
    >)
        ensures
            match r {
                Ok(v) => downcast_spec::<T>(self.stored(resource.id)) == Ok::<T, ResourceError>(*v),
                Err(e) => downcast_spec::<T>(self.stored(resource.id)) == Err::<T, ResourceError>(e),
            },
    {
        let found = self.resolve(resource.id)?;
        downcast::<T>(found)
    }

    /// The stored value that `resource` denotes, if it is there and of the
    /// tagged type.
    pub fn get_resource<T: Payload>(&self, resource: &ResourceRef<T>) -> (r: Option<&T>)
        ensures
            match r {
                Some(v) => downcast_spec::<T>(self.stored(resource.id)) == Ok::<T, ResourceError>(*v),
                None => downcast_spec::<T>(self.stored(resource.id)) is Err,
            },
    {
        match self.resolve_typed(resource) {
            Ok(v) => Some(v),
            Err(_) => None,
        }
    }

    /// Runs the operation `op` on the value that `resource` denotes. When the
    /// reference does not resolve to a value of its tagged type, the call
    /// fails with that error and `op` does not run; otherwise whatever `op`
    /// returns is passed on unchanged.
    pub fn invoke<T: Payload, R, F: Fn(&T) -> Result<R, ResourceError>>(
        &self,
        resource: &ResourceRef<T>,
        op: F,
    ) -> (r: Result<R, ResourceError>)
        requires
            forall|v: &T| #[trigger] op.requires((v,)),
        ensures
            match downcast_spec::<T>(self.stored(resource.id)) {
                Ok(v) => op.ensures((&v,), r),
                Err(e) => r == Err::<R, ResourceError>(e),
            },
    {
        let v = self.resolve_typed(resource)?;
        op(v)
    }
}

/// `post` is `pre` after storing `p` under the fresh id `id`.
pub open spec fn registered(pre: NativeSession, p: Resource, post: NativeSession, id: u64) -> bool {
    &&& pre.last_id() < u64::MAX
    &&& id == pre.last_id() + 1
    &&& !pre@.contains_key(id)
    &&& post@ == pre@.insert(id, p)
    &&& post.last_id() == id
}

/// Each registration in a run issues the id one past the one before it.
proof fn lemma_ids_follow_start(
    sessions: Seq<NativeSession>,
    payloads: Seq<Resource>,
    ids: Seq<u64>,
    i: int,
)
    requires
        sessions.len() == ids.len() + 1,
        payloads.len() == ids.len(),
        forall|j: int|
            0 <= j < ids.len() ==> registered(
                sessions[j],
                payloads[j],
                sessions[j + 1],
                #[trigger] ids[j],
            ),
        0 <= i < ids.len(),
    ensures
        ids[i] == sessions[0].last_id() + i + 1,
    decreases i,
{
    if i > 0 {
        lemma_ids_follow_start(sessions, payloads, ids, i - 1);
    }
}

/// Uniqueness: the ids that a run of registrations on one store returns are
/// pairwise distinct.
pub proof fn lemma_register_ids_unique(
    sessions: Seq<NativeSession>,
    payloads: Seq<Resource>,
    ids: Seq<u64>,
)
    requires
        sessions.len() == ids.len() + 1,
        payloads.len() == ids.len(),
        forall|j: int|
            0 <= j < ids.len() ==> registered(
                sessions[j],
                payloads[j],
                sessions[j + 1],
                #[trigger] ids[j],
            ),
    ensures
        forall|i: int, j: int| 0 <= i < j < ids.len() ==> ids[i] != ids[j],
{
    assert forall|i: int, j: int| 0 <= i < j < ids.len() implies ids[i] != ids[j] by {
        lemma_ids_follow_start(sessions, payloads, ids, i);
        lemma_ids_follow_start(sessions, payloads, ids, j);
    }
}

/// Round trip: right after `p` is registered under `id`, resolving `id`
/// gives `p`.
pub proof fn lemma_round_trip(pre: NativeSession, p: Resource, post: NativeSession, id: u64)
    requires
        registered(pre, p, post, id),
    ensures
        post.stored(id) == Some(p),
{
}

/// Typed round trip: resolving the id of a registered value through a handle
/// of the value's own type gives back that value.
pub proof fn lemma_typed_round_trip<T: Payload>(
    pre: NativeSession,
    v: T,
    post: NativeSession,
    id: u64,
)
    requires
        registered(pre, T::erase(v), post, id),
    ensures
        downcast_spec::<T>(post.stored(id)) == Ok::<T, ResourceError>(v),
{
    T::lemma_recover_erase(v);
}

/// A registration leaves every payload stored before it as it was, so an id
/// keeps resolving to its payload for the store's whole lifetime.
pub proof fn lemma_register_keeps_entries(
    pre: NativeSession,
    p: Resource,
    post: NativeSession,
    id: u64,
    k: u64,
)
    requires
        registered(pre, p, post, id),
        pre.stored(k) is Some,
    ensures
        post.stored(k) == pre.stored(k),
{
}

/// Unknown id: an id that this store has not issued (0, or one past the last
/// issued) resolves to nothing, and a typed resolution of it fails with
/// `ResourceNotFound`.
pub proof fn lemma_unknown_id<T: Payload>(s: NativeSession, id: u64)
    requires
        s.wf(),
        id == 0 || id > s.last_id(),
    ensures
        s.stored(id) is None,
        downcast_spec::<T>(s.stored(id)) == Err::<T, ResourceError>(ResourceError::ResourceNotFound),
{
}

/// Type enforcement: a stored text resolved as bytes fails with
/// `TypeMismatch`, and a stored byte blob resolved as text fails the same way.
pub proof fn lemma_type_enforcement(s: NativeSession, id: u64)
    requires
        s.stored(id) is Some,
    ensures
        s.stored(id).unwrap() is String ==> downcast_spec::<Vec<u8>>(s.stored(id)) == Err::<
            Vec<u8>,
            ResourceError,
        >(ResourceError::TypeMismatch),
        s.stored(id).unwrap() is Bytes ==> downcast_spec::<String>(s.stored(id)) == Err::<
            String,
            ResourceError,
        >(ResourceError::TypeMismatch),
{
}

} // verus!
