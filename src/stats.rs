//! Gaussian distributions, summed and multiplied as the scalar filters
//! combine beliefs.
use crate::scalar::{exact, lit, over, plus, times, total, Scalar};
use vstd::prelude::*;

verus! {

/// A Gaussian distribution given by its mean and variance.
#[derive(Clone, Copy, Debug)]
pub struct GaussianDistribution<F> {
    /// Mean of the distribution.
    pub mean: F,
    /// Variance of the distribution.
    pub var: F,
}

/// The distribution of the sum of two independent variables: means and
/// variances add.
pub open spec fn gaussian_sum<F: Scalar>(
    a: GaussianDistribution<F>,
    b: GaussianDistribution<F>,
) -> GaussianDistribution<F> {
    GaussianDistribution { mean: plus(a.mean, b.mean), var: plus(a.var, b.var) }
}

/// The normalized product of two densities: the mean is the variance-weighted
/// mean, the variance is the inverse of the sum of the inverse variances.
pub open spec fn gaussian_product<F: Scalar>(
    a: GaussianDistribution<F>,
    b: GaussianDistribution<F>,
) -> GaussianDistribution<F> {
    let one: F = lit(1);
    GaussianDistribution {
        mean: over(plus(times(a.var, b.mean), times(b.var, a.mean)), plus(a.var, b.var)),
        var: over(one, plus(over(one, a.var), over(one, b.var))),
    }
}

impl<F: Scalar> GaussianDistribution<F> {
    /// The distribution with the given mean and variance.
    pub fn new(mean: F, var: F) -> (r: GaussianDistribution<F>)
        ensures
            r == (GaussianDistribution { mean, var }),
    {
        GaussianDistribution { mean, var }
    }
}

impl<F: Scalar> core::ops::Add for GaussianDistribution<F> {
    type Output = GaussianDistribution<F>;

    fn add(self, other: GaussianDistribution<F>) -> GaussianDistribution<F> {
        GaussianDistribution { mean: self.mean + other.mean, var: self.var + other.var }
    }
}

impl<F: Scalar> vstd::std_specs::ops::AddSpecImpl for GaussianDistribution<F> {
    open spec fn obeys_add_spec() -> bool {
        exact::<F>()
    }

    open spec fn add_req(self, other: GaussianDistribution<F>) -> bool {
        total::<F>()
    }

    open spec fn add_spec(self, other: GaussianDistribution<F>) -> GaussianDistribution<F> {
        gaussian_sum(self, other)
    }
}

impl<F: Scalar> core::ops::Mul for GaussianDistribution<F> {
    type Output = GaussianDistribution<F>;

    fn mul(self, other: GaussianDistribution<F>) -> GaussianDistribution<F> {
        let one = F::from(1u8);
        let mean = (self.var * other.mean + other.var * self.mean) / (self.var + other.var);
        let var = one / (one / self.var + one / other.var);
        GaussianDistribution { mean, var }
    }
}

impl<F: Scalar> vstd::std_specs::ops::MulSpecImpl for GaussianDistribution<F> {
    open spec fn obeys_mul_spec() -> bool {
        exact::<F>()
    }

    open spec fn mul_req(self, other: GaussianDistribution<F>) -> bool {
        total::<F>()
    }

    open spec fn mul_spec(self, other: GaussianDistribution<F>) -> GaussianDistribution<F> {
        gaussian_product(self, other)
    }
}

} // verus!
