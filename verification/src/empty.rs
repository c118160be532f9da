use vstd::prelude::*;

verus! {

/// For values that benefit from an alternative to a default constructor, to
/// be able to write more semantic code: an explicitly all-zero value.
pub trait Zeroed: Sized {
    /// The all-zero value of the type.
    spec fn zeroed_spec() -> Self;

    fn zeroed() -> (r: Self)
        ensures
            r == Self::zeroed_spec(),
    ;
}

/// Values with a distinguished null, for handle-like types whose null means
/// "no resource".
pub trait Null: Sized {
    /// The null value of the type.
    spec fn null_spec() -> Self;

    fn null() -> (r: Self)
        ensures
            r == Self::null_spec(),
    ;

    fn is_null(&self) -> (r: bool)
        ensures
            r == (*self == Self::null_spec()),
    ;
}

impl Null for isize {
    open spec fn null_spec() -> isize {
        0
    }

    fn null() -> (r: isize) {
        0
    }

    fn is_null(&self) -> (r: bool) {
        *self == 0
    }
}

impl Null for usize {
    open spec fn null_spec() -> usize {
        0
    }

    fn null() -> (r: usize) {
        0
    }

    fn is_null(&self) -> (r: bool) {
        *self == 0
    }
}

/// Handle-like values carrying their own validity test.
pub trait ValidateHandle: Sized {
    /// Whether the value is an invalid handle.
    spec fn is_invalid_spec(&self) -> bool;

    fn is_invalid(&self) -> (r: bool)
        ensures
            r == self.is_invalid_spec(),
    ;
}

impl ValidateHandle for isize {
    /// A handle word is invalid when it is null or the conventional
    /// invalid-handle value, -1.
    open spec fn is_invalid_spec(&self) -> bool {
        *self == 0 || *self == -1
    }

    fn is_invalid(&self) -> (r: bool) {
        *self == 0 || *self == -1
    }
}

} // verus!
