//! Views of the standard types that carry an answer or the reason for none.

use vstd::prelude::*;

verus! {

/// The view of a result: the view of what it holds, on either side.
pub open spec fn result_view<T: DeepView, E: DeepView>(result: Result<T, E>) -> Result<T::V, E::V> {
    match result {
        Ok(value) => Ok(value.deep_view()),
        Err(error) => Err(error.deep_view()),
    }
}

} // verus!
