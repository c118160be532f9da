use vstd::prelude::*;

use crate::empty::Null;

verus! {

/// Holds a resource together with the free-operation that releases it,
/// coupling acquisition and freeing in one place. The guard is treated as
/// the contained resource until [`Self::release`] hands the resource to the
/// free-operation.
///
/// Freeing happens only through [`Self::release`]: destructor contracts are
/// not supported here, so the guard has no destructor, and a guard that
/// merely goes out of scope does not free its resource. The coupling the
/// guard offers is keeping resource and free-operation in one value until
/// the explicit release.
pub struct ResGuard<R: Copy, F: FnOnce(R)> {
    resource: R,
    free_fn: F,
}

impl<R: Copy, F: FnOnce(R)> ResGuard<R, F> {
    /// The held resource, as seen by specifications.
    pub closed spec fn resource_spec(self) -> R {
        self.resource
    }

    /// The held free-operation, as seen by specifications.
    pub closed spec fn free_fn_spec(self) -> F {
        self.free_fn
    }

    /// Wraps an already acquired resource. Should normally not be needed.
    pub fn new(resource: R, free: F) -> (r: Self)
        ensures
            r.resource_spec() == resource,
            r.free_fn_spec() == free,
    {
        Self { resource, free_fn: free }
    }

    /// For use with acquisition operations that return the resource.
    /// A failed acquisition is handed through unchanged.
    pub fn with_acquisition<A, E>(acquire: A, free: F) -> (r: Result<Self, E>) where
        A: FnOnce() -> Result<R, E>,

        requires
            call_requires(acquire, ()),
        ensures
            exists|acquired: Result<R, E>|
                #[trigger] call_ensures(acquire, (), acquired) && (match acquired {
                    Ok(resource) => r matches Ok(g) && g.resource_spec() == resource
                        && g.free_fn_spec() == free,
                    Err(e) => r == Err::<Self, E>(e),
                }),
    {
        match acquire() {
            Ok(resource) => Ok(Self { resource, free_fn: free }),
            Err(e) => Err(e),
        }
    }

    /// For use with acquisition operations that fill a caller-provided slot:
    /// the operation receives the type's null value and hands back the slot's
    /// new content beside its outcome. A failed acquisition is handed through
    /// unchanged.
    pub fn with_mut_acquisition<A, T, E>(acquire: A, free: F) -> (r: Result<Self, E>) where
        R: Null,
        A: FnOnce(R) -> (R, Result<T, E>),

        requires
            call_requires(acquire, (R::null_spec(),)),
        ensures
            exists|filled: R, outcome: Result<T, E>|
                #[trigger] call_ensures(acquire, (R::null_spec(),), (filled, outcome)) && (
                match outcome {
                    Ok(_) => r matches Ok(g) && g.resource_spec() == filled && g.free_fn_spec()
                        == free,
                    Err(e) => r == Err::<Self, E>(e),
                }),
    {
        let slot = R::null();
        let (filled, outcome) = acquire(slot);
        match outcome {
            Ok(_) => Ok(Self { resource: filled, free_fn: free }),
            Err(e) => Err(e),
        }
    }

    /// For acquisition operations that fill two caller-provided slots at
    /// once. Both slots start at the type's null value; on success each
    /// filled slot is wrapped with its own free-operation. A failed
    /// acquisition is handed through unchanged.
    pub fn two_with_mut_acquisition<A, T, E, FB>(acquire_both: A, free_first: F, free_second: FB)
        -> (r: Result<(ResGuard<R, F>, ResGuard<R, FB>), E>) where
        R: Null,
        A: FnOnce(R, R) -> (R, R, Result<T, E>),
        FB: FnOnce(R),

        requires
            call_requires(acquire_both, (R::null_spec(), R::null_spec())),
        ensures
            exists|first: R, second: R, outcome: Result<T, E>|
                #[trigger] call_ensures(
                    acquire_both,
                    (R::null_spec(), R::null_spec()),
                    (first, second, outcome),
                ) && (match outcome {
                    Ok(_) => r matches Ok(pair) && pair.0.resource_spec() == first
                        && pair.0.free_fn_spec() == free_first && pair.1.resource_spec() == second
                        && pair.1.free_fn_spec() == free_second,
                    Err(e) => r == Err::<(ResGuard<R, F>, ResGuard<R, FB>), E>(e),
                }),
    {
        let first_slot = R::null();
        let second_slot = R::null();
        let (first, second, outcome) = acquire_both(first_slot, second_slot);
        match outcome {
            Ok(_) => Ok(
                (
                    ResGuard { resource: first, free_fn: free_first },
                    ResGuard { resource: second, free_fn: free_second },
                ),
            ),
            Err(e) => Err(e),
        }
    }

    /// A reference to the held resource.
    pub fn resource(&self) -> (r: &R)
        ensures
            *r == self.resource_spec(),
    {
        &self.resource
    }

    /// Hands the resource to the free-operation, consuming the guard.
    pub fn release(self)
        requires
            call_requires(self.free_fn_spec(), (self.resource_spec(),)),
    {
        let Self { resource, free_fn } = self;
        free_fn(resource);
    }
}

} // verus!
