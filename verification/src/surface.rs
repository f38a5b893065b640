//! The presentation surface and the viewport.

use vstd::prelude::*;

verus! {

/// Whether `i` is the surface format to use among formats with the given
/// sRGB flags: the first format that is not sRGB, or the first format when
/// all are sRGB (the shaders already output the final colour values).
pub open spec fn is_chosen_format(is_srgb: Seq<bool>, i: int) -> bool {
    &&& 0 <= i < is_srgb.len()
    &&& forall|j: int| 0 <= j < i ==> #[trigger] is_srgb[j]
    &&& !is_srgb[i] || (i == 0 && forall|j: int| 0 <= j < is_srgb.len() ==> #[trigger] is_srgb[j])
}

/// Chooses the surface format among the supported ones, given which of
/// them are sRGB.
pub fn choose_surface_format(is_srgb: &[bool]) -> (i: usize)
    requires
        is_srgb@.len() > 0,
    ensures
        is_chosen_format(is_srgb@, i as int),
{
    let mut i: usize = 0;
    while i < is_srgb.len()
        invariant
            0 <= i <= is_srgb@.len(),
            forall|j: int| 0 <= j < i ==> #[trigger] is_srgb@[j],
        decreases is_srgb@.len() - i,
    {
        if !is_srgb[i] {
            return i;
        }
        i = i + 1;
    }
    0
}

/// Size of the area the puppets are drawn into.
#[derive(Debug, Clone, Copy, PartialEq, Eq, Structural)]
pub struct Viewport {
    pub width: u32,
    pub height: u32,
}

impl Viewport {
    /// Resizes the viewport; a size with a zero side is ignored (a minimised
    /// window). Returns whether the size was taken, in which case the
    /// surface and the depth target must be recreated.
    pub fn resize(&mut self, width: u32, height: u32) -> (taken: bool)
        ensures
            taken == (width > 0 && height > 0),
            taken ==> *final(self) == (Viewport { width, height }),
            !taken ==> *final(self) == *old(self),
    {
        if width > 0 && height > 0 {
            self.width = width;
            self.height = height;
            true
        } else {
            false
        }
    }
}

/// Whether the composite targets must be (re)created for the viewport:
/// there are none yet, or they were made for another size.
pub fn composite_targets_stale(existing: Option<(u32, u32)>, viewport: Viewport) -> (stale: bool)
    ensures
        stale == match existing {
            None => true,
            Some((w, h)) => w != viewport.width || h != viewport.height,
        },
{
    match existing {
        None => true,
        Some((w, h)) => w != viewport.width || h != viewport.height,
    }
}

} // verus!
