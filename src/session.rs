pub mod native;

use std::sync::atomic::{AtomicU64, Ordering};
use std::sync::Arc;
use vstd::prelude::*;

use dashmap::DashMap;

use crate::resource::{length_of, Resource, ResourceError, ResourceRef};

verus! {

#[verifier::external_type_specification]
#[verifier::external_body]
#[verifier::reject_recursive_types(K)]
#[verifier::reject_recursive_types(V)]
#[verifier::reject_recursive_types(S)]
pub struct ExDashMap<K, V, S>(DashMap<K, V, S>);

/// The RPC surface that a session offers its clients.
pub trait Vaccel {
    /// Stores `resource` for later calls and returns the id it is stored under.
    fn register_resource(&self, resource: Resource) -> (r: Result<u64, ResourceError>)
        ensures
            r matches Err(e) ==> e == ResourceError::StoreExhausted,
    ;

    /// The byte length of the text that `data` denotes.
    fn length(&self, data: ResourceRef<String>) -> (r: Result<usize, ResourceError>)
        ensures
            r matches Err(e) ==> e == ResourceError::ResourceNotFound || e
                == ResourceError::TypeMismatch,
    ;
}

/// The state that every request of a session shares: the id counter and the
/// concurrent map from id to payload.
pub struct VaccelState {
    resource_id: AtomicU64,
    resources: DashMap<u64, Arc<Resource>>,
}

/// Serves the requests of one session; each clone shares the same state.
#[derive(Clone)]
pub struct VaccelHandler(Arc<VaccelState>);

/// The counter's successor, unless the counter has reached the last id.
fn next_id(id: u64) -> (r: Option<u64>)
    ensures
        r == (if id < u64::MAX {
            Some((id + 1) as u64)
        } else {
            None::<u64>
        }),
{
    if id < u64::MAX {
        Some(id + 1)
    } else {
        None
    }
}

/// Relies on AtomicU64::fetch_update, which applies `next_id` atomically and
/// returns `Ok` with the value it replaced when `next_id` gave a successor,
/// `Err` with the value it left in place when `next_id` gave `None`.
#[verifier::external_body]
fn claim_id(counter: &AtomicU64) -> (r: Result<u64, u64>)
    ensures
        match r {
            Ok(id) => id < u64::MAX,
            Err(id) => id == u64::MAX,
        },
{
    counter.fetch_update(Ordering::SeqCst, Ordering::SeqCst, next_id)
}

/// Relies on DashMap::new: an empty map.
#[verifier::external_body]
fn new_resource_map() -> DashMap<u64, Arc<Resource>> {
    DashMap::new()
}

/// Relies on DashMap::insert: stores `resource` under `id`, locking only the
/// shard that holds `id`.
#[verifier::external_body]
fn insert_resource(map: &DashMap<u64, Arc<Resource>>, id: u64, resource: Arc<Resource>) {
    map.insert(id, resource);
}

/// Relies on DashMap::get: a shared handle to the payload under `id`, if any.
#[verifier::external_body]
fn lookup_resource(map: &DashMap<u64, Arc<Resource>>, id: u64) -> Option<Arc<Resource>> {
    map.get(&id).map(|entry| Arc::clone(entry.value()))
}

impl VaccelState {
    /// An empty store whose first id is 0.
    pub fn new() -> Self {
        VaccelState { resource_id: AtomicU64::new(0), resources: new_resource_map() }
    }
}

impl VaccelHandler {
    /// A handler over a fresh, empty store.
    pub fn new() -> Self {
        VaccelHandler(Arc::new(VaccelState::new()))
    }

    /// The payload that `resource` denotes, shared with the store, if the
    /// store holds one under its id. Requests may run concurrently, so only
    /// shared handles are given out.
    pub fn get_resource<T>(&self, resource: &ResourceRef<T>) -> Option<Arc<Resource>> {
        lookup_resource(&self.0.resources, resource.id)
    }
}

impl Vaccel for VaccelHandler {
    /// Takes the next id atomically and stores `resource` under it. Once the
    /// counter has reached the last id, fails without changing the store.
    fn register_resource(&self, resource: Resource) -> (r: Result<u64, ResourceError>)
        ensures
            r matches Ok(id) ==> id < u64::MAX,
    {
        match claim_id(&self.0.resource_id) {
            Ok(id) => {
                insert_resource(&self.0.resources, id, Arc::new(resource));
                Ok(id)
            },
            Err(_) => Err(ResourceError::StoreExhausted),
        }
    }

    fn length(&self, data: ResourceRef<String>) -> (r: Result<usize, ResourceError>) {
        match self.get_resource(&data) {
            Some(found) => length_of(Some(&*found)),
            None => length_of(None),
        }
    }
}

} // verus!
