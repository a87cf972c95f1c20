//! The parameters of the contrast sensitivity model.
//!
//! The model maps a spatial frequency `f`, in cycles per degree, to the
//! sensitivity `a * (exp(-f / omega) - k * exp(-(f / sigma)^2))`. The host
//! never evaluates it here: it compares parameter sets, to know when a table
//! sampled from the model is out of date, and checks that a set can be
//! evaluated at all.

use vstd::prelude::*;
use crate::scalar::Scalar;

verus! {

/// One set of model parameters: amplitude, low-frequency rolloff,
/// high-frequency rolloff and notch depth.
#[derive(Clone, Copy, Debug)]
pub struct Csf {
    pub a: Scalar,
    pub omega: Scalar,
    pub sigma: Scalar,
    pub k: Scalar,
}

impl Csf {
    /// Equality by value, field by field.
    pub open spec fn same_value(self, other: Csf) -> bool {
        &&& self.a.same_value(other.a)
        &&& self.omega.same_value(other.omega)
        &&& self.sigma.same_value(other.sigma)
        &&& self.k.same_value(other.k)
    }

    /// The set can be evaluated: all four parameters are finite, and the
    /// two rolloffs, by which the model divides, are not zero.
    pub open spec fn is_valid(self) -> bool {
        &&& self.a.is_finite()
        &&& self.omega.is_finite()
        &&& self.sigma.is_finite()
        &&& self.k.is_finite()
        &&& !self.omega.is_zero()
        &&& !self.sigma.is_zero()
    }

    /// Samples the model at `points` evenly spaced frequencies from `min`
    /// to `max`. The model is evaluated by `sample`, which is given the
    /// parameters, the two bounds, the index of a sample and the number of
    /// samples, and returns that sample's frequency and the sensitivity at
    /// it. It is called once for each index, in rising order, and the pairs
    /// are returned in that order.
    pub fn plot_points<F: Fn(Csf, Scalar, Scalar, usize, usize) -> (Scalar, Scalar)>(
        &self,
        min: Scalar,
        max: Scalar,
        points: usize,
        sample: F,
    ) -> (pairs: Vec<(Scalar, Scalar)>)
        requires
            self.is_valid(),
            forall|i: usize| i < points ==> call_requires(sample, (*self, min, max, i, points)),
        ensures
            pairs@.len() == points,
            forall|i: int|
                0 <= i < points ==> call_ensures(
                    sample,
                    (*self, min, max, i as usize, points),
                    #[trigger] pairs@[i],
                ),
    {
        let mut pairs: Vec<(Scalar, Scalar)> = Vec::new();
        let mut i: usize = 0;
        while i < points
            invariant
                i <= points,
                pairs@.len() == i,
                forall|j: usize| j < points ==> call_requires(sample, (*self, min, max, j, points)),
                forall|j: int|
                    0 <= j < i ==> call_ensures(
                        sample,
                        (*self, min, max, j as usize, points),
                        #[trigger] pairs@[j],
                    ),
            decreases points - i,
        {
            let pair = sample(*self, min, max, i, points);
            pairs.push(pair);
            i = i + 1;
        }
        pairs
    }

    /// Whether the set can be evaluated.
    pub fn valid(&self) -> (r: bool)
        ensures
            r == self.is_valid(),
    {
        self.a.finite() && self.omega.finite() && self.sigma.finite() && self.k.finite()
            && !self.omega.zero() && !self.sigma.zero()
    }
}

impl PartialEq for Csf {
    /// Equality by value, as `same_value` defines it.
    fn eq(&self, other: &Csf) -> (r: bool) {
        self.a == other.a && self.omega == other.omega && self.sigma == other.sigma && self.k
            == other.k
    }
}

impl vstd::std_specs::cmp::PartialEqSpecImpl for Csf {
    open spec fn obeys_eq_spec() -> bool {
        true
    }

    open spec fn eq_spec(&self, other: &Csf) -> bool {
        self.same_value(*other)
    }
}

} // verus!
