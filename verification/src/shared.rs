//! Immutable lists shared between definitions and the cards built from them.

use std::sync::Arc;
use vstd::prelude::*;

verus! {

/// `Arc::clone` of std: another handle to the same allocation, so the value
/// behind the new handle is the value behind the old one.
#[verifier::external_body]
pub(crate) fn share<T>(list: &Arc<T>) -> (handle: Arc<T>)
    ensures
        handle == *list,
{
    Arc::clone(list)
}

} // verus!
