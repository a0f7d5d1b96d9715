//! Splitting a parameter list into the fixed prefix and the trailing parameter.
use vstd::prelude::*;

use crate::config::VarargError;

verus! {

/// One parameter of the declaration. Its type is never inspected.
#[derive(Clone, Debug)]
pub struct Param {
    pub name: String,
    /// Whether this is a `self` receiver.
    pub is_receiver: bool,
}

/// Why `params` has no trailing parameter to package into, if it has none.
pub open spec fn split_error(params: Seq<Param>) -> Option<VarargError> {
    if params.len() == 0 {
        Some(VarargError::NoParameters)
    } else if params.last().is_receiver {
        Some(VarargError::OnlyReceiver)
    } else {
        None
    }
}

/// Splits `params` into every parameter but the last, in order, and the last.
pub fn split_params(params: Vec<Param>) -> (r: Result<(Vec<Param>, Param), VarargError>)
    ensures
        match r {
            Ok((prefix, tail)) => split_error(params@) is None && prefix@ == params@.drop_last()
                && tail == params@.last(),
            Err(e) => split_error(params@) == Some(e),
        },
{
    let mut prefix = params;
    match prefix.pop() {
        None => Err(VarargError::NoParameters),
        Some(tail) => {
            if tail.is_receiver {
                Err(VarargError::OnlyReceiver)
            } else {
                Ok((prefix, tail))
            }
        },
    }
}

} // verus!
