use vstd::prelude::*;

use crate::error::Error;
use crate::error::HResult;
use crate::error::E_FAIL;

verus! {

/// Success flags promoted to a `Result`.
pub trait BoolExt: Sized {
    /// Maps a success flag to `Ok(())`, or to an unspecified-failure error
    /// when it reports failure. For calls that do not report an error code.
    fn ok_or_e_fail(self) -> Result<(), Error>;
}

impl BoolExt for bool {
    fn ok_or_e_fail(self) -> (r: Result<(), Error>)
        ensures
            r is Ok <==> self,
            r matches Err(e) ==> e == (Error { code: HResult(E_FAIL) }),
    {
        if self {
            Ok(())
        } else {
            Err(Error { code: HResult(E_FAIL) })
        }
    }
}

} // verus!
