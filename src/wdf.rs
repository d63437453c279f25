//! Lifetime-checked wrappers for driver-framework handles.
use vstd::prelude::*;

verus! {

/// Relies on `core::marker::PhantomPinned`, a zero-sized marker that is
/// `!Unpin`; nothing is read from it.
#[verifier::external_type_specification]
#[verifier::external_body]
pub struct ExPhantomPinned(core::marker::PhantomPinned);

/// Generic type that fixes the variance and the auto traits of every WDF
/// object type: covariant in `'a` and `T`, neither `Send` nor `Sync` nor
/// `Unpin`.
pub struct Object<'a, T> {
    /// Zero-sized, so that the type has the layout of `inner` alone.
    pub _data: [u8; 0],
    /// `Rc` makes the type `!Send` and `!Sync`; `PhantomPinned` makes it `!Unpin`.
    pub _marker: core::marker::PhantomData<(std::rc::Rc<()>, core::marker::PhantomPinned, &'a T)>,
    /// The framework handle that the object wraps.
    pub inner: T,
}

/// Status code returned by the driver framework.
pub type NtStatus = i32;

/// Whether a status code reports success: every non-negative status does.
pub fn nt_success(nt_status: NtStatus) -> (r: bool)
    ensures
        r == (nt_status >= 0),
{
    nt_status >= 0
}

impl<'a, T> Object<'a, T> {
    /// Wraps a handle that the framework handed back.
    pub fn new(inner: T) -> (r: Self)
        ensures
            r.inner == inner,
    {
        Object { _data: [], _marker: core::marker::PhantomData, inner }
    }
}

} // verus!
