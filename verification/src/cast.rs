//! A color packed into a single value in a given channel order.

use core::marker::PhantomData;
use vstd::prelude::*;

use crate::channels::ComponentOrder;

verus! {

/// A color packed into a value of type `P` (by default `u32`), with the
/// channel order `O`.
pub struct Packed<O, P> {
    /// The packed value.
    pub color: P,
    /// The channel order, only a marker.
    pub channel_order: PhantomData<O>,
}

impl<O, P> Packed<O, P> {
    /// Packs a color in the channel order `O`.
    pub fn pack<C>(color: C) -> (p: Self) where O: ComponentOrder<C, P>
        ensures
            p.color == O::spec_pack(color),
    {
        Packed { color: O::pack(color), channel_order: PhantomData }
    }

    /// Unpacks the color that the packed value holds.
    pub fn unpack<C>(self) -> (c: C) where O: ComponentOrder<C, P>
        ensures
            c == O::spec_unpack(self.color),
    {
        O::unpack(self.color)
    }
}

} // verus!
