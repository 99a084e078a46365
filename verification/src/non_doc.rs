//! Data structures for non-documentary verification.

use vstd::prelude::*;

verus! {

/// A request confirming non-documentary data.
#[derive(Debug)]
pub struct ConfirmNonDocDataRequest<'a> {
    pub consent: &'a str,
}

} // verus!
