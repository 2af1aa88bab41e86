//! Equality of colors: component by component (the RGB standard is only a
//! marker and takes no part).

use vstd::prelude::*;
use vstd::std_specs::cmp::PartialEqSpec;
use vstd::std_specs::cmp::PartialEqSpecImpl;

use crate::alpha::Alpha;
use crate::rgb::Rgb;

verus! {

impl<S, T: PartialEq> PartialEq for Rgb<S, T> {
    fn eq(&self, other: &Self) -> (r: bool) {
        self.red == other.red && self.green == other.green && self.blue == other.blue
    }
}

impl<S, T: PartialEq> PartialEqSpecImpl for Rgb<S, T> {
    open spec fn obeys_eq_spec() -> bool {
        T::obeys_eq_spec()
    }

    open spec fn eq_spec(&self, other: &Self) -> bool {
        &&& self.red.eq_spec(&other.red)
        &&& self.green.eq_spec(&other.green)
        &&& self.blue.eq_spec(&other.blue)
    }
}

impl<S, T: Eq> Eq for Rgb<S, T> {}

impl<C: PartialEq, T: PartialEq> PartialEq for Alpha<C, T> {
    fn eq(&self, other: &Self) -> (r: bool) {
        self.color == other.color && self.alpha == other.alpha
    }
}

impl<C: PartialEq, T: PartialEq> PartialEqSpecImpl for Alpha<C, T> {
    open spec fn obeys_eq_spec() -> bool {
        C::obeys_eq_spec() && T::obeys_eq_spec()
    }

    open spec fn eq_spec(&self, other: &Self) -> bool {
        self.color.eq_spec(&other.color) && self.alpha.eq_spec(&other.alpha)
    }
}

impl<C: Eq, T: Eq> Eq for Alpha<C, T> {}

/// Two RGB colors are equal exactly when their red, green and blue components
/// are each equal: for components whose `==` is equality, `==` on colors is
/// equality too, and it obeys its specification whenever theirs does.
pub proof fn lemma_rgb_eq_is_componentwise<S, T: PartialEq>(a: Rgb<S, T>, b: Rgb<S, T>)
    requires
        forall|x: T, y: T| #[trigger] PartialEqSpec::eq_spec(&x, &y) <==> x == y,
    ensures
        <T as PartialEqSpec>::obeys_eq_spec() ==> <Rgb<S, T> as PartialEqSpec>::obeys_eq_spec(),
        PartialEqSpec::eq_spec(&a, &b) <==> (a.red == b.red && a.green == b.green && a.blue == b.blue),
        PartialEqSpec::eq_spec(&a, &b) <==> a == b,
{
    assert(PartialEqSpec::eq_spec(&a.red, &b.red) <==> a.red == b.red);
    assert(PartialEqSpec::eq_spec(&a.green, &b.green) <==> a.green == b.green);
    assert(PartialEqSpec::eq_spec(&a.blue, &b.blue) <==> a.blue == b.blue);
}

/// Two colors with alpha are equal exactly when their colors are equal and
/// their alphas are equal: for parts whose `==` is equality, `==` on the whole
/// is equality too, and it obeys its specification whenever theirs do.
pub proof fn lemma_alpha_eq_is_componentwise<C: PartialEq, T: PartialEq>(
    a: Alpha<C, T>,
    b: Alpha<C, T>,
)
    requires
        forall|x: C, y: C| #[trigger] PartialEqSpec::eq_spec(&x, &y) <==> x == y,
        forall|x: T, y: T| #[trigger] PartialEqSpec::eq_spec(&x, &y) <==> x == y,
    ensures
        <C as PartialEqSpec>::obeys_eq_spec() && <T as PartialEqSpec>::obeys_eq_spec() ==> <Alpha<C, T> as PartialEqSpec>::obeys_eq_spec(),
        PartialEqSpec::eq_spec(&a, &b) <==> (a.color == b.color && a.alpha == b.alpha),
        PartialEqSpec::eq_spec(&a, &b) <==> a == b,
{
    assert(PartialEqSpec::eq_spec(&a.color, &b.color) <==> a.color == b.color);
    assert(PartialEqSpec::eq_spec(&a.alpha, &b.alpha) <==> a.alpha == b.alpha);
}

/// RGBA colors are equal exactly when red, green, blue and alpha are each
/// equal, for components whose `==` is equality.
pub proof fn lemma_rgba_eq_is_componentwise<S, T: PartialEq>(a: Alpha<Rgb<S, T>, T>, b: Alpha<Rgb<S, T>, T>)
    requires
        forall|x: T, y: T| #[trigger] PartialEqSpec::eq_spec(&x, &y) <==> x == y,
    ensures
        <T as PartialEqSpec>::obeys_eq_spec() ==> <Alpha<Rgb<S, T>, T> as PartialEqSpec>::obeys_eq_spec(),
        PartialEqSpec::eq_spec(&a, &b) <==> (a.color.red == b.color.red && a.color.green == b.color.green
            && a.color.blue == b.color.blue && a.alpha == b.alpha),
{
    assert forall|x: Rgb<S, T>, y: Rgb<S, T>| #[trigger] PartialEqSpec::eq_spec(&x, &y) <==> x == y by {
        lemma_rgb_eq_is_componentwise(x, y);
    }
    lemma_rgb_eq_is_componentwise(a.color, b.color);
    lemma_alpha_eq_is_componentwise(a, b);
}

/// Colors with `u8` components compare by value: `==` obeys its
/// specification and holds exactly when every component is equal.
pub proof fn lemma_u8_colors_eq(a: Rgb<crate::encoding::Srgb, u8>, b: Rgb<crate::encoding::Srgb, u8>)
    ensures
        <Rgb<crate::encoding::Srgb, u8> as PartialEqSpec>::obeys_eq_spec(),
        PartialEqSpec::eq_spec(&a, &b) <==> (a.red == b.red && a.green == b.green && a.blue == b.blue),
{
    lemma_rgb_eq_is_componentwise(a, b);
}

} // verus!
