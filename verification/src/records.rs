//! Shared contract of the record services' owner checks.
use vstd::prelude::*;
use crate::text::owned;
use crate::OpenDeskResult;

verus! {

/// The outcome of an operation on a record that is first looked up as the
/// user's: a failed lookup is returned, a missing record is refused with
/// `missing`, and a found record leaves the outcome to the store's operation.
pub open spec fn owner_checked<T, U>(got: OpenDeskResult<Option<T>>, r: OpenDeskResult<U>, missing: Seq<char>) -> bool {
    match got {
        Err(e) => r == Err::<U, String>(e),
        Ok(None) => r matches Err(m) && m@ == missing,
        Ok(Some(_)) => true,
    }
}

/// The owned record of a lookup: its failure is returned, a missing record
/// is refused with `missing`, a found one lets the operation proceed.
pub fn owner_gate<'a, T>(got: &'a OpenDeskResult<Option<T>>, missing: &str) -> (r: Result<&'a T, String>)
    ensures
        match *got {
            Err(e) => r == Err::<&T, String>(e),
            Ok(None) => r matches Err(m) && m@ == missing@,
            Ok(Some(v)) => r matches Ok(x) && *x == v,
        },
{
    match got {
        Err(e) => Err(e.clone()),
        Ok(None) => Err(owned(missing)),
        Ok(Some(v)) => Ok(v),
    }
}

} // verus!
