//! Results that are looked at on their way to the caller.
use vstd::prelude::*;

verus! {

/// A result that can be looked at and handed on in one expression.
pub trait ResultExt: Sized {
    /// Hands the result on as it is. The error is not written to a log here: that is done where
    /// the log is.
    fn trace_err(self) -> (res: Self)
        ensures
            res == self,
    ;
}

impl<T, E> ResultExt for Result<T, E> {
    fn trace_err(self) -> (res: Self) {
        self
    }
}

/// A result is the same on both sides of the look at it.
pub proof fn results_are_handed_on<T, E>(result: Result<T, E>, res: Result<T, E>)
    requires
        call_ensures(Result::<T, E>::trace_err, (result,), res),
    ensures
        result is Ok <==> res is Ok,
        result is Ok ==> res->Ok_0 == result->Ok_0,
        result is Err ==> res->Err_0 == result->Err_0,
{
}

} // verus!
