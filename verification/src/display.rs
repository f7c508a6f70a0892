//! The surface that pointer positions refer to: its size, positions on it,
//! and positions as fractions of its size.

use vstd::prelude::*;

verus! {

/// An exact fraction: `numer` over `denom`.
#[derive(Clone, Copy, Debug, PartialEq, Eq)]
pub struct Ratio {
    pub numer: i64,
    pub denom: u32,
}

/// A pointer position in device pixels, as last observed.
#[derive(Clone, Copy, Debug, PartialEq, Eq)]
pub struct CursorSample {
    pub x: i32,
    pub y: i32,
}

/// The size of a drawing surface in device pixels. Neither side is ever
/// zero, so that positions can be divided by it.
#[derive(Clone, Copy, Debug, PartialEq, Eq)]
pub struct Viewport {
    width: u32,
    height: u32,
}

impl Viewport {
    #[verifier::type_invariant]
    spec fn nonempty(self) -> bool {
        self.width > 0 && self.height > 0
    }

    /// The width in pixels.
    pub closed spec fn spec_width(&self) -> u32 {
        self.width
    }

    /// The height in pixels.
    pub closed spec fn spec_height(&self) -> u32 {
        self.height
    }

    /// Makes a viewport of the given size, unless one of the sides is zero.
    pub fn new(width: u32, height: u32) -> (made: Option<Viewport>)
        ensures
            made is Some <==> width > 0 && height > 0,
            made matches Some(viewport) ==> viewport.width() == width && viewport.height()
                == height,
    {
        if width > 0 && height > 0 {
            Some(Viewport { width, height })
        } else {
            None
        }
    }

    /// The width in pixels, which is never zero.
    #[verifier::when_used_as_spec(spec_width)]
    pub fn width(&self) -> (width: u32)
        ensures
            width == self.width(),
            width > 0,
    {
        proof {
            use_type_invariant(self);
        }
        self.width
    }

    /// The height in pixels, which is never zero.
    #[verifier::when_used_as_spec(spec_height)]
    pub fn height(&self) -> (height: u32)
        ensures
            height == self.height(),
            height > 0,
    {
        proof {
            use_type_invariant(self);
        }
        self.height
    }

    /// The width over the height.
    pub open spec fn spec_aspect_ratio(&self) -> Ratio {
        Ratio { numer: self.width() as i64, denom: self.height() }
    }

    /// The width over the height.
    #[verifier::when_used_as_spec(spec_aspect_ratio)]
    pub fn aspect_ratio(&self) -> (ratio: Ratio)
        ensures
            ratio == self.aspect_ratio(),
            ratio.denom > 0,
    {
        Ratio { numer: self.width() as i64, denom: self.height() }
    }

    /// Takes over a new size and tells whether it did. A size with a zero
    /// side, as a minimised window reports it, is ignored.
    pub fn resize(&mut self, width: u32, height: u32) -> (applied: bool)
        ensures
            applied == (width > 0 && height > 0),
            applied ==> final(self).width() == width && final(self).height() == height,
            !applied ==> *final(self) == *old(self),
    {
        if width > 0 && height > 0 {
            *self = Viewport { width, height };
            true
        } else {
            false
        }
    }
}

/// Picks the format to draw in from those that a surface offers, given for
/// each of them, in the order offered, whether it is an sRGB format: the
/// first sRGB format is taken, or the first format of all when none is sRGB.
/// Nothing can be picked from an empty offer.
pub fn preferred_format(srgb: &Vec<bool>) -> (choice: Option<usize>)
    ensures
        choice is None <==> srgb@.len() == 0,
        choice matches Some(index) ==> {
            &&& index < srgb@.len()
            &&& forall|j: int| 0 <= j < index ==> !srgb@[j]
            &&& srgb@[index as int] || (index == 0 && forall|j: int|
                0 <= j < srgb@.len() ==> !srgb@[j])
        },
{
    let mut index: usize = 0;
    while index < srgb.len()
        invariant
            index <= srgb@.len(),
            forall|j: int| 0 <= j < index ==> !srgb@[j],
        decreases srgb@.len() - index,
    {
        if srgb[index] {
            return Some(index);
        }
        index += 1;
    }
    if srgb.len() > 0 {
        Some(0)
    } else {
        None
    }
}

impl CursorSample {
    /// The position as fractions of the viewport's width and height. Both
    /// lie between 0 and 1 while the pointer is over the surface.
    pub open spec fn spec_normalized(&self, viewport: Viewport) -> (Ratio, Ratio) {
        (
            Ratio { numer: self.x as i64, denom: viewport.width() },
            Ratio { numer: self.y as i64, denom: viewport.height() },
        )
    }

    /// The position as fractions of the viewport's width and height.
    #[verifier::when_used_as_spec(spec_normalized)]
    pub fn normalized(&self, viewport: Viewport) -> (position: (Ratio, Ratio))
        ensures
            position == self.normalized(viewport),
            position.0.denom > 0,
            position.1.denom > 0,
    {
        (
            Ratio { numer: self.x as i64, denom: viewport.width() },
            Ratio { numer: self.y as i64, denom: viewport.height() },
        )
    }

    /// Tells whether two samples are the same position.
    pub fn same_as(&self, other: CursorSample) -> (same: bool)
        ensures
            same == (*self == other),
    {
        self.x == other.x && self.y == other.y
    }
}

} // verus!
