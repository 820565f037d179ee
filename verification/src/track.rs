use vstd::prelude::*;

use crate::heapless_vec::HeaplessString;

verus! {

/// An RGBA colour with 8-bit components.
#[derive(Clone, Copy, Debug, PartialEq, Eq, Structural)]
pub struct Colour {
    pub r: u8,
    pub g: u8,
    pub b: u8,
    pub a: u8,
}

/// Alternative spelling of `Colour`.
pub type Color = Colour;

/// Details of the track a plugin sits on, shared with plugins that show
/// them in their editor.
#[derive(Clone, Debug)]
pub struct Track {
    pub name: HeaplessString<64>,
    pub col: Colour,
}

} // verus!
