use vstd::prelude::*;
use crate::keymap::{decoded_values, keep_decoded};

verus! {

/// The bytes of a program image.
pub struct ROM {
    bytes: Vec<u8>,
}

impl View for ROM {
    type V = Seq<u8>;

    closed spec fn view(&self) -> Seq<u8> {
        self.bytes@
    }
}

impl ROM {
    pub fn new(vec: Vec<u8>) -> (r: ROM)
        ensures
            r@ == vec@,
    {
        ROM { bytes: vec }
    }

    /// A copy of the image's bytes.
    pub fn get_rom(&self) -> (r: Vec<u8>)
        ensures
            r@ == self@,
    {
        self.bytes.clone()
    }

    /// An image built from bytes that a host decoded one by one; the entries
    /// that did not decode are left out.
    pub fn from_js(array: Vec<Option<u8>>) -> (r: ROM)
        ensures
            r@ == decoded_values(array@),
    {
        ROM { bytes: keep_decoded(&array) }
    }
}

} // verus!
