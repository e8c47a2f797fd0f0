//! What the host decides about the surface it draws to: whether a new size
//! is taken, and which of the formats on offer is used.

use vstd::prelude::*;

verus! {

/// The size of the surface in pixels.
#[derive(Clone, Copy, Debug, PartialEq, Eq, Structural)]
pub struct SurfaceSize {
    pub width: u32,
    pub height: u32,
}

impl SurfaceSize {
    /// A surface can be drawn to where neither side is zero.
    pub open spec fn is_drawable(self) -> bool {
        self.width > 0 && self.height > 0
    }

    /// Takes `new_size` where it can be drawn to, and keeps the old size
    /// where it cannot. Says whether the size was taken, which is when the
    /// surface has to be configured again.
    pub fn resize(&mut self, new_size: SurfaceSize) -> (taken: bool)
        ensures
            taken == new_size.is_drawable(),
            *final(self) == if taken {
                new_size
            } else {
                *old(self)
            },
    {
        if new_size.width > 0 && new_size.height > 0 {
            *self = new_size;
            true
        } else {
            false
        }
    }
}

/// The place of the format to use: that of the first sRGB format, or 0
/// where no format on offer is sRGB.
pub fn preferred_format(srgb: &[bool]) -> (index: usize)
    requires
        srgb@.len() > 0,
    ensures
        index < srgb@.len(),
        srgb@.contains(true) ==> srgb@[index as int] && forall|earlier: int|
            0 <= earlier < index ==> !srgb@[earlier],
        !srgb@.contains(true) ==> index == 0,
{
    let mut index: usize = 0;
    while index < srgb.len()
        invariant
            index <= srgb@.len(),
            forall|earlier: int| 0 <= earlier < index ==> !srgb@[earlier],
        decreases srgb@.len() - index,
    {
        if srgb[index] {
            return index;
        }
        index += 1;
    }
    0
}

} // verus!
