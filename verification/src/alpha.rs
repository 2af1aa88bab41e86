//! A color with an alpha (transparency) component.

use vstd::prelude::*;

verus! {

/// A color `C` together with its alpha component of type `T`.
#[derive(Debug)]
pub struct Alpha<C, T> {
    /// The color.
    pub color: C,
    /// The transparency: zero is fully transparent, the maximum intensity is
    /// fully opaque.
    pub alpha: T,
}

impl<C: Copy, T: Copy> Copy for Alpha<C, T> {}

impl<C: Clone, T: Clone> Clone for Alpha<C, T> {
    fn clone(&self) -> (c: Self)
        ensures
            cloned::<C>(self.color, c.color),
            cloned::<T>(self.alpha, c.alpha),
    {
        Alpha { color: self.color.clone(), alpha: self.alpha.clone() }
    }
}

} // verus!
