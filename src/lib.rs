//! A dependency-injection container: a registry that holds at most one value
//! of each type and hands out clones of it by type alone.
use vstd::prelude::*;
use std::sync::Mutex;
use std::sync::MutexGuard;

pub mod service_provider;
pub mod service_provider_extensions;

pub use service_provider::ServiceProvider;
pub use service_provider_extensions::ServiceProviderExtensions;

verus! {

#[verifier::external_type_specification]
#[verifier::external_body]
#[verifier::reject_recursive_types(T)]
pub struct ExMutex<T: ?Sized>(std::sync::Mutex<T>);

#[verifier::external_type_specification]
#[verifier::external_body]
#[verifier::reject_recursive_types(T)]
pub struct ExMutexGuard<'a, T: ?Sized + 'a>(std::sync::MutexGuard<'a, T>);

/// A new, unlocked mutex around the value.
pub assume_specification<T>[ std::sync::Mutex::<T>::new ](t: T) -> std::sync::Mutex<T>;

/// The one way a lookup can fail.
#[derive(Debug, PartialEq)]
pub enum Error {
    /// No value of the requested type is stored; holds the debug text of the
    /// type's runtime identity.
    InjectLookupError(String),
}

/// A container that owns its type map behind a mutex.
pub struct Container {
    extensions: Mutex<ServiceProviderExtensions>,
}

impl Container {
    /// A container that holds no value.
    pub fn new() -> Self {
        Container { extensions: Mutex::new(ServiceProviderExtensions::new()) }
    }
}

impl Default for Container {
    fn default() -> Self {
        Container::new()
    }
}

/// Relies on `Mutex::lock`, which blocks until the lock is free. A poisoned
/// lock (a holder panicked) is fatal: the map may be inconsistent, so this
/// panics rather than recover it.
#[verifier::external_body]
fn lock_extensions(m: &Mutex<ServiceProviderExtensions>) -> MutexGuard<
    '_,
    ServiceProviderExtensions,
> {
    m.lock().unwrap()
}

impl ServiceProvider for Container {
    fn extensions(&self) -> MutexGuard<'_, ServiceProviderExtensions> {
        lock_extensions(&self.extensions)
    }
}

} // verus!
