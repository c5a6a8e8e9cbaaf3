//! COM initialization.
//!
//! The shell's context-menu interfaces need COM in single-threaded
//! apartment mode on the calling thread. `CoInitializeEx` itself is called
//! by the application crate, which hands its `HRESULT` here; a [`ComGuard`]
//! exists only when that call succeeded.

use vstd::prelude::*;
use crate::error::{hresult_succeeded, succeeded, Error, Result};

verus! {

/// Witness that COM was initialized in single-threaded apartment mode on
/// the current thread. It can only be obtained from a successful
/// initialization. It is neither `Send` nor `Sync`: the apartment belongs
/// to the thread that entered it.
#[derive(Debug)]
pub struct ComGuard {
    init_code: i32,
    not_send: core::marker::PhantomData<std::rc::Rc<()>>,
}

impl ComGuard {
    /// The `HRESULT` that the successful initialization returned (`S_OK`,
    /// or `S_FALSE` when COM was already initialized on this thread).
    pub closed spec fn spec_init_code(&self) -> i32 {
        self.init_code
    }

    #[verifier::type_invariant]
    spec fn inv(&self) -> bool {
        hresult_succeeded(self.init_code)
    }

    /// Accepts the result of `CoInitializeEx(COINIT_APARTMENTTHREADED |
    /// COINIT_DISABLE_OLE1DDE)`.
    ///
    /// Returns [`Error::ComInit`] when COM has already been initialized with
    /// an incompatible threading model (any failing `HRESULT`).
    pub fn new(init_result: i32) -> (res: Result<ComGuard>)
        ensures
            hresult_succeeded(init_result) <==> res is Ok,
            res matches Ok(g) ==> g.spec_init_code() == init_result,
            !hresult_succeeded(init_result) ==> res == Err::<ComGuard, Error>(
                Error::ComInit(init_result),
            ),
    {
        if succeeded(init_result) {
            Ok(ComGuard { init_code: init_result, not_send: core::marker::PhantomData })
        } else {
            Err(Error::ComInit(init_result))
        }
    }

    /// The `HRESULT` of the successful initialization.
    pub fn init_code(&self) -> (res: i32)
        ensures
            res == self.spec_init_code(),
            hresult_succeeded(res),
    {
        proof {
            use_type_invariant(self);
        }
        self.init_code
    }
}

/// Initializes COM for the current thread in STA mode, given the result of
/// the `CoInitializeEx` call.
///
/// Returns [`Error::ComInit`] if COM has already been initialized with an
/// incompatible threading model.
pub fn init_com(init_result: i32) -> (res: Result<ComGuard>)
    ensures
        hresult_succeeded(init_result) <==> res is Ok,
        res matches Ok(g) ==> g.spec_init_code() == init_result,
        !hresult_succeeded(init_result) ==> res == Err::<ComGuard, Error>(
            Error::ComInit(init_result),
        ),
{
    ComGuard::new(init_result)
}

} // verus!
