//! What the service sends back around its data.
use vstd::prelude::*;

verus! {

/// The envelope of every successful answer: the data under one key.
#[derive(Debug, PartialEq, Eq)]
pub struct Data<T> {
    pub data: T,
}

} // verus!
