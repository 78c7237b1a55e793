//! The icon of a segment.

use vstd::prelude::*;

verus! {

/// The icon of a segment: the bytes of an image file, kept as they were read
/// and never looked into. An icon without bytes stands for no icon.
pub struct Image {
    data: Vec<u8>,
}

impl View for Image {
    type V = Seq<u8>;

    closed spec fn view(&self) -> Seq<u8> {
        self.data@
    }
}

impl Image {
    /// The icon that holds `data`.
    pub fn new(data: Vec<u8>) -> (result: Image)
        ensures
            result@ == data@,
    {
        Image { data }
    }

    /// The bytes of the icon.
    pub fn data(&self) -> (result: &Vec<u8>)
        ensures
            result@ == self@,
    {
        &self.data
    }

    /// Whether the icon stands for no icon.
    pub fn is_empty(&self) -> (result: bool)
        ensures
            result == (self@.len() == 0),
    {
        self.data.len() == 0
    }
}

impl Default for Image {
    /// The icon without bytes.
    fn default() -> (result: Image)
        ensures
            result@ == Seq::<u8>::empty(),
    {
        Image { data: Vec::new() }
    }
}

} // verus!
