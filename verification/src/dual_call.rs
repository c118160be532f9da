use vstd::prelude::*;
use vstd::std_specs::cmp::PartialEqSpec;

use crate::error::spec_hresult_from_win32;
use crate::error::Error;
use crate::error::HResult;
use crate::error::E_UNEXPECTED;

verus! {

/// The return value of the first of the two calls made by [`dual_call`] that
/// is the precondition to continue with the second call.
#[non_exhaustive]
pub enum FirstCallExpectation<T> {
    /// The first call succeeds, with any value.
    AnyOk,
    /// The first call succeeds with exactly this value.
    OkValue(T),
    /// The first call fails with the error this system error code maps to.
    Win32Error(u32),
    /// The first call fails with this result code.
    HResultError(HResult),
}

/// Whether the first call's outcome meets the expectation, so that the
/// second call is owed.
pub open spec fn spec_expectation_met<T: PartialEq>(
    exp: FirstCallExpectation<T>,
    first: Result<T, Error>,
) -> bool {
    match exp {
        FirstCallExpectation::AnyOk => first is Ok,
        FirstCallExpectation::OkValue(expected) => first matches Ok(t) && t.eq_spec(&expected),
        FirstCallExpectation::Win32Error(code) => first matches Err(e) && e.code
            == spec_hresult_from_win32(code),
        FirstCallExpectation::HResultError(h) => first matches Err(e) && e.code == h,
    }
}

/// What [`dual_call`] returns when the first call's outcome does not meet
/// the expectation: a first-call failure is handed through unchanged, while
/// an unexpected first-call success yields the unexpected-outcome error.
pub open spec fn spec_unmet_result<T>(first: Result<T, Error>) -> Result<T, Error> {
    if first is Err {
        first
    } else {
        Err(Error { code: HResult(E_UNEXPECTED) })
    }
}

/// For operations that are to be performed with a preparation step, normally
/// a first call that only discovers the required buffer size and a second
/// call that fills the buffer.
///
/// The call receives `true` on the first (preparing) call and `false` on the
/// second, together with the caller's state, which it hands back updated.
/// When the first call's outcome meets the expectation, the second call is
/// made and its state and result are returned. When it does not, the state
/// after the first call is returned, together with the first call's own
/// error, or with an unexpected-outcome error where the first call succeeded
/// against an expectation of failure (or of a different success value).
pub fn dual_call<S, T, F>(first_call_expectation: FirstCallExpectation<T>, state: S, call: F) -> (r:
    (S, Result<T, Error>)) where T: PartialEq, F: Fn(bool, S) -> (S, Result<T, Error>)
    requires
        first_call_expectation matches FirstCallExpectation::OkValue(_)
            ==> T::obeys_eq_spec(),
        call_requires(call, (true, state)),
        forall|s1: S, first: Result<T, Error>|
            #[trigger] call_ensures(call, (true, state), (s1, first)) ==> call_requires(
                call,
                (false, s1),
            ),
    ensures
        exists|s1: S, first: Result<T, Error>|
            #[trigger] call_ensures(call, (true, state), (s1, first)) && (if spec_expectation_met(
                first_call_expectation,
                first,
            ) {
                call_ensures(call, (false, s1), r)
            } else {
                r.0 == s1 && r.1 == spec_unmet_result(first)
            }),
{
    match first_call_expectation {
        FirstCallExpectation::AnyOk => {
            let (s1, first) = call(true, state);
            match first {
                Ok(_) => call(false, s1),
                Err(e) => (s1, Err(e)),
            }
        },
        FirstCallExpectation::OkValue(expected_value) => {
            let (s1, first) = call(true, state);
            match first {
                Ok(value) => {
                    if value == expected_value {
                        call(false, s1)
                    } else {
                        (s1, Err(Error { code: HResult(E_UNEXPECTED) }))
                    }
                },
                Err(e) => (s1, Err(e)),
            }
        },
        FirstCallExpectation::Win32Error(code) => {
            let expected_h_result = HResult::from_win32(code);
            let (s1, first) = call(true, state);
            match first {
                Err(e) => {
                    if e.code.0 == expected_h_result.0 {
                        call(false, s1)
                    } else {
                        (s1, Err(e))
                    }
                },
                Ok(_) => (s1, Err(Error { code: HResult(E_UNEXPECTED) })),
            }
        },
        FirstCallExpectation::HResultError(expected_h_result) => {
            let (s1, first) = call(true, state);
            match first {
                Err(e) => {
                    if e.code.0 == expected_h_result.0 {
                        call(false, s1)
                    } else {
                        (s1, Err(e))
                    }
                },
                Ok(_) => (s1, Err(Error { code: HResult(E_UNEXPECTED) })),
            }
        },
    }
}

} // verus!
