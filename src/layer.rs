//! Samplers: anything that gives a color for each projection.
use vstd::prelude::*;
use crate::color::Color;
use crate::geometry::{Projection, in_second_half, remap};

verus! {

/// A sampler. Drawing must be a pure function of the projection: the
/// canvas may ask for any pixel, in any order, any number of times.
/// An implementation outside verified code defines `sample` as `draw`.
pub trait Layer {
    /// The color that this layer gives at `projection`.
    spec fn sample(&self, projection: Projection) -> Color;

    fn draw(&self, projection: Projection) -> (c: Color)
        ensures
            c == self.sample(projection),
    ;
}

/// A layer split in two along the `y` axis: the first half of the range
/// is drawn by `first`, the second by `second`, each seeing its half
/// stretched over the whole range.
pub struct SplitLayer<A: Layer, B: Layer> {
    pub first: A,
    pub second: B,
}

impl<A: Layer, B: Layer> SplitLayer<A, B> {
    pub fn new(first: A, second: B) -> (s: Self)
        ensures
            s.first == first,
            s.second == second,
    {
        SplitLayer { first, second }
    }
}

impl<A: Layer, B: Layer> Layer for SplitLayer<A, B> {
    open spec fn sample(&self, projection: Projection) -> Color {
        if in_second_half(projection) {
            self.second.sample(remap(projection))
        } else {
            self.first.sample(remap(projection))
        }
    }

    fn draw(&self, projection: Projection) -> (c: Color) {
        let first = &self.first;
        let second = &self.second;
        let upper = |p: Projection| -> (c: Color)
            ensures
                c == first.sample(p),
            {
                first.draw(p)
            };
        let lower = |p: Projection| -> (c: Color)
            ensures
                c == second.sample(p),
            {
                second.draw(p)
            };
        projection.proxy_split(upper, lower)
    }
}

} // verus!
