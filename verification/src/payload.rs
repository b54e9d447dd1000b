//! Data that may or may not carry a payload.

use vstd::prelude::*;
use vstd::slice::slice_to_vec;

verus! {

/// Data with an optional payload.
#[derive(Debug, Clone, PartialEq, Eq)]
pub struct InputData {
    pub payload: Option<Vec<u8>>,
}

/// The bytes as they are to be sent: a copy of `data`.
pub fn encrypt(data: &[u8]) -> (r: Vec<u8>)
    ensures
        r@ == data@,
{
    slice_to_vec(data)
}

impl InputData {
    /// The payload as it is to be sent; nothing where there is no payload.
    pub open spec fn spec_encrypted(self) -> Seq<u8> {
        match self.payload {
            Some(payload) => payload@,
            None => Seq::empty(),
        }
    }

    /// The payload as it is to be sent.
    pub fn encrypted(&self) -> (r: Vec<u8>)
        ensures
            r@ == self.spec_encrypted(),
    {
        match &self.payload {
            Some(payload) => encrypt(payload.as_slice()),
            None => Vec::new(),
        }
    }
}

} // verus!
