use vstd::prelude::*;

use crate::ieee::{Double, INFINITY_BITS, NEG_INFINITY_BITS, ONE_BITS, ZERO_BITS};

verus! {

/// Why a distribution could not be built.
#[derive(Debug, Clone, Copy, PartialEq, Eq, Structural)]
pub enum StatsError {
    BadParams,
}

/// Parameters that a Normal or a LogNormal accepts: neither is NaN and the
/// standard deviation is greater than zero (positive infinity included).
pub open spec fn valid_params(mean: Double, std_dev: Double) -> bool {
    !mean.nan() && !std_dev.nan() && std_dev.positive()
}

/// Validation shared by both distributions: `mean` is NaN, `std_dev` is NaN,
/// or `std_dev <= 0` is a bad parameter set.
pub fn validate_params(mean: Double, std_dev: Double) -> (r: Result<(), StatsError>)
    ensures
        r is Ok <==> valid_params(mean, std_dev),
        r is Err ==> r == Err::<(), StatsError>(StatsError::BadParams),
{
    if mean.is_nan() || std_dev.is_nan() || std_dev.le(&Double::zero()) {
        return Err(StatsError::BadParams);
    }
    Ok(())
}

/// The normal distribution with mean `mu` and standard deviation `sigma`.
#[derive(Debug, Clone, Copy)]
pub struct Normal {
    mu: Double,
    sigma: Double,
}

impl Normal {
    #[verifier::type_invariant]
    spec fn inv(self) -> bool {
        valid_params(self.mu, self.sigma)
    }

    pub closed spec fn spec_mu(self) -> Double {
        self.mu
    }

    pub closed spec fn spec_sigma(self) -> Double {
        self.sigma
    }

    /// Builds the distribution; `BadParams` when `mean` or `std_dev` is NaN
    /// or `std_dev <= 0`.
    pub fn new(mean: Double, std_dev: Double) -> (r: Result<Normal, StatsError>)
        ensures
            r is Ok <==> valid_params(mean, std_dev),
            r is Ok ==> r->Ok_0.spec_mu() == mean && r->Ok_0.spec_sigma() == std_dev,
            r is Err ==> r->Err_0 == StatsError::BadParams,
    {
        match validate_params(mean, std_dev) {
            Ok(()) => Ok(Normal { mu: mean, sigma: std_dev }),
            Err(e) => Err(e),
        }
    }

    pub fn mean(&self) -> (r: Double)
        ensures
            r == self.spec_mu(),
            !r.nan(),
    {
        proof {
            use_type_invariant(self);
        }
        self.mu
    }

    pub fn std_dev(&self) -> (r: Double)
        ensures
            r == self.spec_sigma(),
            !r.nan() && r.positive(),
    {
        proof {
            use_type_invariant(self);
        }
        self.sigma
    }

    /// The normal distribution is symmetric: its skewness is `0.0`.
    pub fn skewness(&self) -> (r: Double)
        ensures
            r.bits == ZERO_BITS,
    {
        Double::zero()
    }

    pub fn median(&self) -> (r: Option<Double>)
        ensures
            r == Some(self.spec_mu()),
    {
        Some(self.mu)
    }

    pub fn mode(&self) -> (r: Double)
        ensures
            r == self.spec_mu(),
    {
        self.mu
    }

    pub fn min(&self) -> (r: Double)
        ensures
            r.bits == NEG_INFINITY_BITS,
    {
        Double::neg_infinity()
    }

    pub fn max(&self) -> (r: Double)
        ensures
            r.bits == INFINITY_BITS,
    {
        Double::infinity()
    }
}

/// The log-normal distribution: the law of `exp(X)` for `X` normal with mean
/// `mu` and standard deviation `sigma`.
#[derive(Debug, Clone, Copy)]
pub struct LogNormal {
    mu: Double,
    sigma: Double,
}

impl LogNormal {
    #[verifier::type_invariant]
    spec fn inv(self) -> bool {
        valid_params(self.mu, self.sigma)
    }

    pub closed spec fn spec_mu(self) -> Double {
        self.mu
    }

    pub closed spec fn spec_sigma(self) -> Double {
        self.sigma
    }

    /// Builds the distribution from the parameters of the underlying normal;
    /// `BadParams` when `mean` or `std_dev` is NaN or `std_dev <= 0`.
    pub fn new(mean: Double, std_dev: Double) -> (r: Result<LogNormal, StatsError>)
        ensures
            r is Ok <==> valid_params(mean, std_dev),
            r is Ok ==> r->Ok_0.spec_mu() == mean && r->Ok_0.spec_sigma() == std_dev,
            r is Err ==> r->Err_0 == StatsError::BadParams,
    {
        match validate_params(mean, std_dev) {
            Ok(()) => Ok(LogNormal { mu: mean, sigma: std_dev }),
            Err(e) => Err(e),
        }
    }

    /// The mean of the underlying normal.
    pub fn mu(&self) -> (r: Double)
        ensures
            r == self.spec_mu(),
            !r.nan(),
    {
        proof {
            use_type_invariant(self);
        }
        self.mu
    }

    /// The standard deviation of the underlying normal.
    pub fn sigma(&self) -> (r: Double)
        ensures
            r == self.spec_sigma(),
            !r.nan() && r.positive(),
    {
        proof {
            use_type_invariant(self);
        }
        self.sigma
    }

    /// Whether `x` lies below the support `[0, +inf)`, i.e. `x < 0`.
    pub fn below_support(&self, x: Double) -> (r: bool)
        ensures
            r == x.negative(),
    {
        x.lt(&Double::zero())
    }

    /// The density where it is fixed by the support: exactly `0` for
    /// `x < 0`; `None` where the closed form applies.
    pub fn pdf_below_support(&self, x: Double) -> (r: Option<Double>)
        ensures
            x.negative() ==> r == Some(Double { bits: ZERO_BITS }),
            !x.negative() ==> r is None,
    {
        if self.below_support(x) {
            Some(Double::zero())
        } else {
            None
        }
    }

    /// The log density where it is fixed by the support: exactly negative
    /// infinity for `x < 0`; `None` where the closed form applies.
    pub fn ln_pdf_below_support(&self, x: Double) -> (r: Option<Double>)
        ensures
            x.negative() ==> r == Some(Double { bits: NEG_INFINITY_BITS }),
            !x.negative() ==> r is None,
    {
        if self.below_support(x) {
            Some(Double::neg_infinity())
        } else {
            None
        }
    }

    /// The distribution function where it is fixed by the support: exactly
    /// `0` for `x < 0`; `None` where the closed form applies.
    pub fn cdf_below_support(&self, x: Double) -> (r: Option<Double>)
        ensures
            x.negative() ==> r == Some(Double { bits: ZERO_BITS }),
            !x.negative() ==> r is None,
    {
        if self.below_support(x) {
            Some(Double::zero())
        } else {
            None
        }
    }

    pub fn min(&self) -> (r: Double)
        ensures
            r.bits == ZERO_BITS,
    {
        Double::zero()
    }

    pub fn max(&self) -> (r: Double)
        ensures
            r.bits == INFINITY_BITS,
    {
        Double::infinity()
    }
}

/// Acceptance test of the polar method: the radius `v1 * v1 + v2 * v2` of a
/// point drawn in the square `[-1, 1)²` is kept only when `0 < r < 1`, that
/// is when the point lies strictly inside the unit disc and off its centre.
pub fn polar_accepts(r: Double) -> (ok: bool)
    ensures
        ok <==> r.positive() && r.lt_spec(Double { bits: ONE_BITS }),
{
    Double::zero().lt(&r) && r.lt(&Double::one())
}

} // verus!
