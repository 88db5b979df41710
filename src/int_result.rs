//! How a fallible result crosses the boundary: an integer code beside an
//! out-parameter that holds the payload only on success.
use vstd::prelude::*;

use crate::error::{error_code, error_of_code, is_error_code, InputFlowError, Result};

verus! {

/// The code and payload that stand for a result: zero and the value on
/// success, the negated error code and nothing on failure.
pub open spec fn encoded<T>(r: Result<T>) -> (i32, Option<T>) {
    match r {
        Ok(v) => (0, Some(v)),
        Err(e) => ((-error_code(e)) as i32, None),
    }
}

/// The result that a code and payload stand for. A success code without a
/// payload, or a failure code outside the taxonomy, means that the two sides
/// disagree on the encoding, which is an ABI fault.
pub open spec fn decoded<T>(code: i32, payload: Option<T>) -> Result<T> {
    if code >= 0 {
        match payload {
            Some(v) => Ok(v),
            None => Err(InputFlowError::Abi),
        }
    } else if is_error_code(-code) {
        Err(error_of_code(-code))
    } else {
        Err(InputFlowError::Abi)
    }
}

/// Encodes a result for the boundary.
pub fn into_int_result<T>(r: Result<T>) -> (out: (i32, Option<T>))
    ensures
        out == encoded(r),
{
    match r {
        Ok(v) => (0, Some(v)),
        Err(e) => (-e.into_int_err(), None),
    }
}

/// Decodes a code and payload received from the boundary.
pub fn from_int_result<T>(code: i32, payload: Option<T>) -> (r: Result<T>)
    ensures
        r == decoded(code, payload),
{
    if code >= 0 {
        match payload {
            Some(v) => Ok(v),
            None => Err(InputFlowError::Abi),
        }
    } else if code >= -8 {
        Err(InputFlowError::from_int_err(-code))
    } else {
        Err(InputFlowError::Abi)
    }
}

/// Decoding what was encoded gives the same result back.
pub proof fn lemma_int_result_round_trip<T>(r: Result<T>)
    ensures
        decoded(encoded(r).0, encoded(r).1) == r,
{
    match r {
        Ok(v) => {},
        Err(e) => {
            assert(is_error_code(error_code(e)));
            assert(error_of_code(error_code(e)) == e);
        },
    }
}

} // verus!
