use vstd::prelude::*;

use crate::empty::Null;
use crate::empty::ValidateHandle;

verus! {

/// Success: the operation completed normally.
pub const S_OK: u32 = 0;

/// Success with a secondary meaning (for calls that distinguish two success
/// outcomes).
pub const S_FALSE: u32 = 1;

/// Unspecified failure.
pub const E_FAIL: u32 = 0x80004005;

/// Invalid handle.
pub const E_HANDLE: u32 = 0x80070006;

/// Catastrophic failure: an expectation about a call's outcome was not met.
pub const E_UNEXPECTED: u32 = 0x8000FFFF;

/// A 32-bit operation result code. The high bit set means failure; clear
/// means success. The word is carried as the unsigned reading of the
/// conventional signed code, so failures are the values at or above
/// `0x8000_0000`.
#[derive(Clone, Copy, Debug, Eq)]
pub struct HResult(pub u32);

impl PartialEq for HResult {
    fn eq(&self, other: &HResult) -> (r: bool) {
        self.0 == other.0
    }
}

impl vstd::std_specs::cmp::PartialEqSpecImpl for HResult {
    open spec fn obeys_eq_spec() -> bool {
        true
    }

    open spec fn eq_spec(&self, other: &HResult) -> bool {
        self.0 == other.0
    }
}

/// Whether `h` is a success code (high bit clear).
pub open spec fn spec_hresult_is_ok(h: HResult) -> bool {
    h.0 < 0x80000000
}

/// The result code that a system error code (as reported by the thread's
/// last-error slot) maps to: 0 stays success, a code that already has the
/// high bit set passes through unchanged, and anything else becomes a
/// failure code carrying the low 16 bits of the error in the Win32 facility.
pub open spec fn spec_hresult_from_win32(code: u32) -> HResult {
    if code == 0 || code >= 0x80000000 {
        HResult(code)
    } else {
        HResult((code & 0xFFFF) | 0x80070000)
    }
}

/// A nonzero system error code always maps to a failure code: a remapped
/// code carries the failure facility's high bit, and a passed-through code
/// had the high bit already.
pub proof fn lemma_win32_failure_code(code: u32)
    by (bit_vector)
    requires
        code != 0,
    ensures
        ((code & 0xFFFF) | 0x80070000) >= 0x80000000,
{
}

impl HResult {
    /// Whether this is a success code.
    pub fn is_ok(&self) -> (r: bool)
        ensures
            r == spec_hresult_is_ok(*self),
    {
        self.0 < 0x80000000
    }

    /// Maps a system error code to a result code, as
    /// [`spec_hresult_from_win32`] describes.
    pub fn from_win32(code: u32) -> (r: HResult)
        ensures
            r == spec_hresult_from_win32(code),
    {
        if code == 0 || code >= 0x80000000 {
            HResult(code)
        } else {
            HResult((code & 0xFFFF) | 0x80070000)
        }
    }
}

/// An operation failure, identified by its result code.
#[derive(Clone, Copy, Debug, PartialEq, Eq)]
pub struct Error {
    pub code: HResult,
}

/// The error that a system error code maps to.
pub open spec fn spec_error_from_win32(code: u32) -> Error {
    Error { code: spec_hresult_from_win32(code) }
}

/// The error carrying a bare result code.
pub open spec fn spec_error_from_hresult(h: HResult) -> Error {
    Error { code: h }
}

/// Returns `Ok(())` when the system error code reports success (it is 0), or
/// the error that the code maps to.
pub fn from_win32(last_error: u32) -> (r: Result<(), Error>)
    ensures
        r is Ok <==> last_error == 0,
        r matches Err(e) ==> e == spec_error_from_win32(last_error),
{
    proof {
        if last_error != 0 {
            lemma_win32_failure_code(last_error);
        }
    }
    let code = HResult::from_win32(last_error);
    if code.is_ok() {
        Ok(())
    } else {
        Err(Error { code })
    }
}

/// Returns `Err` with the error that the system error code maps to,
/// unconditionally.
pub fn err_from_win32<T>(last_error: u32) -> (r: Result<T, Error>)
    ensures
        r == Err::<T, Error>(spec_error_from_win32(last_error)),
{
    Err(Error { code: HResult::from_win32(last_error) })
}

/// Passes `t` through to an `Ok` value when the check accepts it, or returns
/// the error that the system error code maps to.
pub fn from_checked_or_win32<T, F: FnOnce(&T) -> bool>(t: T, check: F, last_error: u32) -> (r:
    Result<T, Error>)
    requires
        call_requires(check, (&t,)),
    ensures
        exists|accepted: bool|
            #[trigger] call_ensures(check, (&t,), accepted) && r == (if accepted {
                Ok::<T, Error>(t)
            } else {
                Err::<T, Error>(spec_error_from_win32(last_error))
            }),
{
    let accepted = check(&t);
    if accepted {
        Ok(t)
    } else {
        Err(Error { code: HResult::from_win32(last_error) })
    }
}

/// Passes `t` through to an `Ok` value when the check accepts it, or returns
/// an unspecified-failure error. For calls that do not report an error code.
pub fn from_checked_or_e_fail<T, F: FnOnce(&T) -> bool>(t: T, check: F) -> (r: Result<T, Error>)
    requires
        call_requires(check, (&t,)),
    ensures
        exists|accepted: bool|
            #[trigger] call_ensures(check, (&t,), accepted) && r == (if accepted {
                Ok::<T, Error>(t)
            } else {
                Err::<T, Error>((Error { code: HResult(E_FAIL) }))
            }),
{
    let accepted = check(&t);
    if accepted {
        Ok(t)
    } else {
        Err(Error { code: HResult(E_FAIL) })
    }
}

/// Numeric return values whose zero signals failure.
pub trait CheckNumberError: Sized {
    /// Whether the value is the zero of its type.
    spec fn is_zero_spec(self) -> bool;

    /// Passes a non-zero `self` through to an `Ok` value. For a zero, maps
    /// the system error code: a code of 0 still means success (some calls
    /// return 0 both for valid results and for failures), anything else is
    /// the failure it maps to.
    fn nonzero_with_win32_or_err(self, last_error: u32) -> (r: Result<Self, Error>)
        ensures
            !self.is_zero_spec() ==> r == Ok::<Self, Error>(self),
            self.is_zero_spec() && last_error == 0 ==> r == Ok::<Self, Error>(self),
            self.is_zero_spec() && last_error != 0 ==> r == Err::<Self, Error>(
                spec_error_from_win32(last_error),
            ),
    ;

    /// Passes a non-zero `self` through to an `Ok` value, or returns the
    /// error that the system error code maps to.
    fn nonzero_or_win32_err(self, last_error: u32) -> (r: Result<Self, Error>)
        ensures
            r is Ok <==> !self.is_zero_spec(),
            r matches Ok(v) ==> v == self,
            r matches Err(e) ==> e == spec_error_from_win32(last_error),
    ;

    /// Passes a non-zero `self` through to an `Ok` value, or returns an
    /// unspecified-failure error. For calls that do not report an error code.
    fn nonzero_or_e_fail(self) -> (r: Result<Self, Error>)
        ensures
            r is Ok <==> !self.is_zero_spec(),
            r matches Ok(v) ==> v == self,
            r matches Err(e) ==> e == (Error { code: HResult(E_FAIL) }),
    ;
}

impl CheckNumberError for u32 {
    open spec fn is_zero_spec(self) -> bool {
        self == 0
    }

    fn nonzero_with_win32_or_err(self, last_error: u32) -> (r: Result<Self, Error>) {
        if self == 0 {
            match from_win32(last_error) {
                Ok(_) => Ok(self),
                Err(e) => Err(e),
            }
        } else {
            Ok(self)
        }
    }

    fn nonzero_or_win32_err(self, last_error: u32) -> (r: Result<Self, Error>) {
        if self == 0 {
            err_from_win32(last_error)
        } else {
            Ok(self)
        }
    }

    fn nonzero_or_e_fail(self) -> (r: Result<Self, Error>) {
        if self == 0 {
            Err(Error { code: HResult(E_FAIL) })
        } else {
            Ok(self)
        }
    }
}

impl CheckNumberError for i32 {
    open spec fn is_zero_spec(self) -> bool {
        self == 0
    }

    fn nonzero_with_win32_or_err(self, last_error: u32) -> (r: Result<Self, Error>) {
        if self == 0 {
            match from_win32(last_error) {
                Ok(_) => Ok(self),
                Err(e) => Err(e),
            }
        } else {
            Ok(self)
        }
    }

    fn nonzero_or_win32_err(self, last_error: u32) -> (r: Result<Self, Error>) {
        if self == 0 {
            err_from_win32(last_error)
        } else {
            Ok(self)
        }
    }

    fn nonzero_or_e_fail(self) -> (r: Result<Self, Error>) {
        if self == 0 {
            Err(Error { code: HResult(E_FAIL) })
        } else {
            Ok(self)
        }
    }
}

impl CheckNumberError for usize {
    open spec fn is_zero_spec(self) -> bool {
        self == 0
    }

    fn nonzero_with_win32_or_err(self, last_error: u32) -> (r: Result<Self, Error>) {
        if self == 0 {
            match from_win32(last_error) {
                Ok(_) => Ok(self),
                Err(e) => Err(e),
            }
        } else {
            Ok(self)
        }
    }

    fn nonzero_or_win32_err(self, last_error: u32) -> (r: Result<Self, Error>) {
        if self == 0 {
            err_from_win32(last_error)
        } else {
            Ok(self)
        }
    }

    fn nonzero_or_e_fail(self) -> (r: Result<Self, Error>) {
        if self == 0 {
            Err(Error { code: HResult(E_FAIL) })
        } else {
            Ok(self)
        }
    }
}

impl CheckNumberError for isize {
    open spec fn is_zero_spec(self) -> bool {
        self == 0
    }

    fn nonzero_with_win32_or_err(self, last_error: u32) -> (r: Result<Self, Error>) {
        if self == 0 {
            match from_win32(last_error) {
                Ok(_) => Ok(self),
                Err(e) => Err(e),
            }
        } else {
            Ok(self)
        }
    }

    fn nonzero_or_win32_err(self, last_error: u32) -> (r: Result<Self, Error>) {
        if self == 0 {
            err_from_win32(last_error)
        } else {
            Ok(self)
        }
    }

    fn nonzero_or_e_fail(self) -> (r: Result<Self, Error>) {
        if self == 0 {
            Err(Error { code: HResult(E_FAIL) })
        } else {
            Ok(self)
        }
    }
}

/// Passes a non-zero `t` through to an `Ok` value, or returns the error that
/// the system error code maps to.
pub fn from_nonzero_or_win32<T: CheckNumberError>(t: T, last_error: u32) -> (r: Result<T, Error>)
    ensures
        r is Ok <==> !t.is_zero_spec(),
        r matches Ok(v) ==> v == t,
        r matches Err(e) ==> e == spec_error_from_win32(last_error),
{
    t.nonzero_or_win32_err(last_error)
}

/// Passes a non-zero `t` through to an `Ok` value, or returns an
/// unspecified-failure error.
pub fn from_nonzero_or_e_fail<T: CheckNumberError>(t: T) -> (r: Result<T, Error>)
    ensures
        r is Ok <==> !t.is_zero_spec(),
        r matches Ok(v) ==> v == t,
        r matches Err(e) ==> e == (Error { code: HResult(E_FAIL) }),
{
    t.nonzero_or_e_fail()
}

/// Handle-like return values whose null signals failure.
pub trait CheckNullError: Null + Sized {
    /// Passes a non-null `self` through to an `Ok` value, and returns an
    /// invalid-handle error exactly for the null value. For calls that
    /// return a handle or null without reporting an error code.
    fn nonnull_or_e_handle(self) -> (r: Result<Self, Error>)
        ensures
            r is Ok <==> self != Self::null_spec(),
            r matches Ok(v) ==> v == self,
            r matches Err(e) ==> e == (Error { code: HResult(E_HANDLE) }),
    ;
}

impl<T: Null + Copy> CheckNullError for T {
    fn nonnull_or_e_handle(self) -> (r: Result<Self, Error>) {
        if self.is_null() {
            Err(Error { code: HResult(E_HANDLE) })
        } else {
            Ok(self)
        }
    }
}

/// Handle-like return values carrying their own validity test.
pub trait CheckHandleError: ValidateHandle + Sized {
    /// Passes a valid `self` through to an `Ok` value, and returns an
    /// invalid-handle error exactly for the values the validity test
    /// rejects.
    fn valid_or_e_handle(self) -> (r: Result<Self, Error>)
        ensures
            r is Ok <==> !self.is_invalid_spec(),
            r matches Ok(v) ==> v == self,
            r matches Err(e) ==> e == (Error { code: HResult(E_HANDLE) }),
    ;
}

impl<T: ValidateHandle + Copy> CheckHandleError for T {
    fn valid_or_e_handle(self) -> (r: Result<Self, Error>) {
        if self.is_invalid() {
            Err(Error { code: HResult(E_HANDLE) })
        } else {
            Ok(self)
        }
    }
}

/// Result codes promoted to a `Result`, with success codes forwarded.
pub trait HResultExt: Sized {
    /// Like a plain success test, but forwarding the success code itself,
    /// for calls that can return several distinct success values.
    fn ok_with_hresult(self) -> Result<HResult, Error>;
}

impl HResultExt for HResult {
    fn ok_with_hresult(self) -> (r: Result<HResult, Error>)
        ensures
            r is Ok <==> spec_hresult_is_ok(self),
            r matches Ok(v) ==> v == self,
            r matches Err(e) ==> e == spec_error_from_hresult(self),
    {
        if self.is_ok() {
            Ok(self)
        } else {
            Err(Error { code: self })
        }
    }
}

} // verus!
