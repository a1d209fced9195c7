use vstd::prelude::*;
use std::any::TypeId;
use std::sync::MutexGuard;

use crate::Error;
use crate::ServiceProviderExtensions;

verus! {

/// Relies on `<TypeId as Debug>::fmt`: the debug text of a type's runtime
/// identity, which tells types apart in diagnostics but is not the type's
/// source name. Nothing is stated of it: the compiler fixes the identity.
#[verifier::external_body]
fn type_id_text(type_id: &TypeId) -> (r: String) {
    format!("{:?}", type_id)
}

/// Relies on `<MutexGuard as Deref>::deref`: the type map that the guard
/// protects.
#[verifier::external_body]
fn guarded<'a, 'b>(guard: &'b MutexGuard<'a, ServiceProviderExtensions>) -> (r:
    &'b ServiceProviderExtensions) {
    &**guard
}

/// Relies on `<MutexGuard as DerefMut>::deref_mut`: the type map that the
/// guard protects, for writing.
#[verifier::external_body]
fn guarded_mut<'a, 'b>(guard: &'b mut MutexGuard<'a, ServiceProviderExtensions>) -> (r:
    &'b mut ServiceProviderExtensions) {
    &mut **guard
}

/// The outcome of a typed lookup: a clone of the value that was found, or the
/// lookup failure that carries `missing`, the text that identifies the
/// requested type.
pub fn lookup_outcome<T: Clone>(found: Option<&T>, missing: String) -> (r: Result<T, Error>)
    ensures
        found.is_some() <==> r.is_ok(),
        found matches Some(v) ==> r matches Ok(w) && cloned(*v, w),
        found.is_none() ==> r == Err::<T, Error>(Error::InjectLookupError(missing)),
{
    match found {
        Some(service) => Ok(service.clone()),
        None => Err(Error::InjectLookupError(missing)),
    }
}

/// A clone of the value of type `T` in the type map `ext`, or the lookup
/// failure carrying the debug text of `T`'s identity when `ext` holds no value of that type; in particular,
/// an empty map fails for every type.
pub fn find_in<T>(ext: &ServiceProviderExtensions) -> (r: Result<T, Error>)
    where
        T: 'static + Send + Sync + Clone,
    ensures
        ext@ == Set::<TypeId>::empty() ==> r.is_err(),
        r.is_ok() ==> exists|k: TypeId| #[trigger] ext@.contains(k),
{
    let found = ext.get::<T>();
    lookup_outcome(found, type_id_text(&TypeId::of::<T>()))
}

/// Typed access to the type map of any host that can lock one.
///
/// Each operation holds the lock only while it reads or writes the map, and
/// lookups hand out clones, never references into the guarded map.
pub trait ServiceProvider {
    /// Exclusive access to the host's type map.
    fn extensions(&self) -> MutexGuard<'_, ServiceProviderExtensions>;

    /// Stores `elem` as the value of its type, replacing the value that type
    /// held before.
    fn inject<T>(&mut self, elem: T) where T: 'static + Send + Sync + Clone, Self: Sized {
        let mut ext = self.extensions();
        guarded_mut(&mut ext).insert(elem);
    }

    /// A clone of the value of type `T`, or the lookup failure carrying the
    /// debug text of `T`'s identity when no value of that type is stored.
    fn find<T>(&self) -> (r: Result<T, Error>) where T: 'static + Send + Sync + Clone {
        let ext = self.extensions();
        find_in(guarded(&ext))
    }

    /// The number of types that hold a value.
    fn count(&self) -> usize {
        let ext = self.extensions();
        guarded(&ext).len()
    }
}

} // verus!
