//! The g-h and g-h-k filters, with their variance reduction factors.
use core::ops::Neg;
use crate::scalar::{exact, lit, minus, negated, over, plus, squared, times, total, Scalar};
use vstd::prelude::*;

verus! {

/// A g-h filter: tracks a value and its rate of change from noisy samples.
#[derive(Clone, Copy, Debug)]
pub struct GHFilter<T> {
    /// Gain applied to the residual for the value.
    pub g: T,
    /// Gain applied to the residual for the rate of change.
    pub h: T,
    /// Time between samples.
    pub dt: T,
    /// Estimated value.
    pub xt: T,
    /// Estimated rate of change.
    pub dxt: T,
    /// Predicted value.
    pub x_p: T,
    /// Predicted rate of change.
    pub dx_p: T,
}

/// The filter after one predict and update step on the sample `z`.
pub open spec fn gh_stepped<T: Scalar>(f: GHFilter<T>, z: T) -> GHFilter<T> {
    let x_p = plus(f.xt, times(f.dt, f.dxt));
    let y = minus(z, x_p);
    GHFilter {
        g: f.g,
        h: f.h,
        dt: f.dt,
        xt: plus(x_p, times(f.g, y)),
        dxt: plus(f.dxt, times(f.h, over(y, f.dt))),
        x_p,
        dx_p: f.dxt,
    }
}

/// `g * (4 - 2g - h)`, the denominator shared by the g-h filter's factors.
pub open spec fn gh_vrf_den<T: Scalar>(g: T, h: T) -> T {
    times(g, minus(minus(lit(4), times(lit(2), g)), h))
}

/// Variance reduction factors of the value and of its rate of change.
pub open spec fn gh_vrf<T: Scalar>(g: T, h: T, dt: T) -> (T, T) {
    let den = gh_vrf_den(g, h);
    (
        over(minus(plus(times(lit(2), squared(g)), times(lit(2), h)), times(times(lit(3), g), h)), den),
        over(times(lit(2), squared(h)), times(squared(dt), den)),
    )
}

/// Variance reduction factor of the prediction.
pub open spec fn gh_vrf_prediction<T: Scalar>(g: T, h: T) -> T {
    over(plus(plus(times(lit(2), squared(g)), times(lit(2), h)), times(g, h)), gh_vrf_den(g, h))
}

impl<T: Scalar> GHFilter<T> {
    /// A filter that starts at value `x0` and rate `dx0`, with gains `g`
    /// and `h` and time step `dt`.
    pub fn new(x0: T, dx0: T, g: T, h: T, dt: T) -> (r: GHFilter<T>)
        ensures
            r == (GHFilter { g, h, dt, xt: x0, dxt: dx0, x_p: x0, dx_p: dx0 }),
    {
        GHFilter { g, h, dt, xt: x0, dxt: dx0, x_p: x0, dx_p: dx0 }
    }

    /// Predicts from the current state, corrects with the sample `z`, and
    /// returns the new value.
    pub fn update(&mut self, z: T) -> (r: T)
        requires
            total::<T>(),
        ensures
            r == final(self).xt,
            final(self).g == old(self).g,
            final(self).h == old(self).h,
            final(self).dt == old(self).dt,
            exact::<T>() ==> *final(self) == gh_stepped(*old(self), z),
    {
        self.dx_p = self.dxt;
        self.x_p = self.xt + self.dt * self.dxt;
        let y = z - self.x_p;
        self.dxt = self.dx_p + self.h * (y / self.dt);
        self.xt = self.x_p + self.g * y;
        self.xt
    }

    /// Variance reduction factors of the value and of its rate of change.
    pub fn vrf(&self) -> (r: (T, T))
        requires
            total::<T>(),
        ensures
            exact::<T>() ==> r == gh_vrf(self.g, self.h, self.dt),
    {
        let two = T::from(2u8);
        let three = T::from(3u8);
        let four = T::from(4u8);
        let den = self.g * (four - two * self.g - self.h);
        let vx = (two * (self.g * self.g) + two * self.h - three * self.g * self.h) / den;
        let vdx = two * (self.h * self.h) / ((self.dt * self.dt) * den);
        (vx, vdx)
    }

    /// Variance reduction factor of the prediction.
    pub fn vrf_prediction(&self) -> (r: T)
        requires
            total::<T>(),
        ensures
            exact::<T>() ==> r == gh_vrf_prediction(self.g, self.h),
    {
        let two = T::from(2u8);
        let four = T::from(4u8);
        (two * (self.g * self.g) + two * self.h + self.g * self.h) / (self.g * (four - two
            * self.g - self.h))
    }
}

/// A g-h-k filter: tracks a value, its rate of change and the rate's rate of
/// change from noisy samples.
#[derive(Clone, Copy, Debug)]
pub struct GHKFilter<T> {
    /// Gain applied to the residual for the value.
    pub g: T,
    /// Gain applied to the residual for the rate of change.
    pub h: T,
    /// Gain applied to the residual for the second derivative.
    pub k: T,
    /// Time between samples.
    pub dt: T,
    /// Estimated value.
    pub xt: T,
    /// Estimated rate of change.
    pub dxt: T,
    /// Estimated second derivative.
    pub ddxt: T,
    /// Predicted value.
    pub x_p: T,
    /// Predicted rate of change.
    pub dx_p: T,
    /// Predicted second derivative.
    pub ddx_p: T,
}

/// The filter after one predict and update step on the sample `z`.
pub open spec fn ghk_stepped<T: Scalar>(f: GHKFilter<T>, z: T) -> GHKFilter<T> {
    let two: T = lit(2);
    let dx_p = plus(f.dxt, times(f.ddxt, f.dt));
    let x_p = plus(plus(f.xt, times(f.dt, f.dxt)), over(times(times(f.ddxt, f.dt), f.dt), two));
    let y = minus(z, x_p);
    GHKFilter {
        g: f.g,
        h: f.h,
        k: f.k,
        dt: f.dt,
        xt: plus(x_p, times(f.g, y)),
        dxt: plus(dx_p, times(f.h, over(y, f.dt))),
        ddxt: plus(f.ddxt, over(times(times(two, f.k), y), times(f.dt, f.dt))),
        x_p,
        dx_p,
        ddx_p: f.ddxt,
    }
}

/// Variance reduction factor of the g-h-k filter's prediction.
pub open spec fn ghk_vrf_prediction<T: Scalar>(g: T, h: T, k: T) -> T {
    let two: T = lit(2);
    let four: T = lit(4);
    let gh2 = plus(times(two, g), h);
    over(
        plus(times(times(g, k), minus(gh2, four)), times(h, plus(times(g, gh2), times(two, h)))),
        minus(times(two, k), times(times(g, plus(h, k)), minus(gh2, four))),
    )
}

/// Variance reduction factors of the g-h-k filter's value and of its first
/// and second derivatives.
pub open spec fn ghk_vrf<T: Scalar>(g: T, h: T, k: T, dt: T) -> (T, T, T) {
    let two: T = lit(2);
    let four: T = lit(4);
    let hg4 = minus(minus(four, times(two, g)), h);
    let ghk = minus(plus(times(g, h), times(g, k)), times(two, k));
    (
        over(
            minus(
                times(
                    times(two, h),
                    minus(plus(times(two, squared(g)), times(two, h)), times(times(two, g), h)),
                ),
                times(times(times(two, g), k), hg4),
            ),
            minus(times(two, k), times(times(g, plus(h, k)), hg4)),
        ),
        over(
            plus(
                minus(times(two, squared(h)), times(times(four, squared(h)), k)),
                times(times(four, squared(k)), minus(two, g)),
            ),
            times(times(two, hg4), ghk),
        ),
        over(
            times(times(lit(8), h), squared(k)),
            times(times(squared(squared(dt)), hg4), ghk),
        ),
    )
}

/// Bias error of the g-h-k filter under the constant third derivative `dddx`.
pub open spec fn ghk_bias_error<T: Scalar>(dt: T, k: T, dddx: T) -> T {
    over(times(negated(squared(dt)), dddx), times(lit(2), k))
}

impl<T: Scalar> GHKFilter<T> {
    /// A filter that starts at value `x0`, rate `dx0` and second derivative
    /// `ddx0`, with gains `g`, `h` and `k` and time step `dt`.
    pub fn new(x0: T, dx0: T, ddx0: T, g: T, h: T, k: T, dt: T) -> (r: GHKFilter<T>)
        ensures
            r == (GHKFilter {
                g,
                h,
                k,
                dt,
                xt: x0,
                dxt: dx0,
                ddxt: ddx0,
                x_p: x0,
                dx_p: dx0,
                ddx_p: ddx0,
            }),
    {
        GHKFilter { g, h, k, dt, xt: x0, dxt: dx0, ddxt: ddx0, x_p: x0, dx_p: dx0, ddx_p: ddx0 }
    }

    /// Predicts from the current state, corrects with the sample `z`, and
    /// returns the new value.
    pub fn update(&mut self, z: T) -> (r: T)
        requires
            total::<T>(),
        ensures
            r == final(self).xt,
            final(self).g == old(self).g,
            final(self).h == old(self).h,
            final(self).k == old(self).k,
            final(self).dt == old(self).dt,
            exact::<T>() ==> *final(self) == ghk_stepped(*old(self), z),
    {
        let two = T::from(2u8);
        self.ddx_p = self.ddxt;
        self.dx_p = self.dxt + self.ddxt * self.dt;
        self.x_p = self.xt + self.dt * self.dxt + self.ddxt * self.dt * self.dt / two;
        let y = z - self.x_p;
        self.ddxt = self.ddx_p + two * self.k * y / (self.dt * self.dt);
        self.dxt = self.dx_p + self.h * (y / self.dt);
        self.xt = self.x_p + self.g * y;
        self.xt
    }

    /// Variance reduction factor of the prediction.
    pub fn vrf_prediction(&self) -> (r: T)
        requires
            total::<T>(),
        ensures
            exact::<T>() ==> r == ghk_vrf_prediction(self.g, self.h, self.k),
    {
        let two = T::from(2u8);
        let four = T::from(4u8);
        let g = self.g;
        let h = self.h;
        let k = self.k;
        let gh2 = two * g + h;
        (g * k * (gh2 - four) + h * (g * gh2 + two * h)) / (two * k - (g * (h + k) * (gh2
            - four)))
    }

    /// Variance reduction factors of the value and of its first and second
    /// derivatives.
    pub fn vrf(&self) -> (r: (T, T, T))
        requires
            total::<T>(),
        ensures
            exact::<T>() ==> r == ghk_vrf(self.g, self.h, self.k, self.dt),
    {
        let two = T::from(2u8);
        let four = T::from(4u8);
        let eight = T::from(8u8);
        let g = self.g;
        let h = self.h;
        let k = self.k;
        let hg4 = four - two * g - h;
        let ghk = g * h + g * k - two * k;
        let vx = (two * h * (two * (g * g) + two * h - two * g * h) - two * g * k * hg4) / (two
            * k - g * (h + k) * hg4);
        let vdx = (two * (h * h) - four * (h * h) * k + four * (k * k) * (two - g)) / (two * hg4
            * ghk);
        let dt2 = self.dt * self.dt;
        let vddx = eight * h * (k * k) / ((dt2 * dt2) * hg4 * ghk);
        (vx, vdx, vddx)
    }

    /// Bias error under the constant third derivative `dddx`.
    pub fn bias_error(&self, dddx: T) -> (r: T)
        requires
            total::<T>(),
        ensures
            exact::<T>() ==> r == ghk_bias_error(self.dt, self.k, dddx),
    {
        (self.dt * self.dt).neg() * dddx / (T::from(2u8) * self.k)
    }
}

/// The g and h of an order-one least squares filter at sample `n`, counted
/// from zero.
pub open spec fn least_squares_gh<T: Scalar>(n: T) -> (T, T) {
    let two: T = lit(2);
    let den = times(plus(n, two), plus(n, lit(1)));
    (over(times(two, plus(times(two, n), lit(1))), den), over(lit(6), den))
}

/// The g and h of a critically damped g-h filter with damping `theta`.
pub open spec fn critical_gh<T: Scalar>(theta: T) -> (T, T) {
    (minus(lit(1), squared(theta)), squared(minus(lit(1), theta)))
}

/// The g, h and k of a critically damped g-h-k filter with damping `theta`.
pub open spec fn critical_ghk<T: Scalar>(theta: T) -> (T, T, T) {
    let one: T = lit(1);
    (
        minus(one, times(squared(theta), theta)),
        times(minus(one, squared(theta)), minus(one, theta)),
        times(over(one, lit(2)), times(squared(minus(one, theta)), minus(one, theta))),
    )
}

/// `4 g^6 - 64 g^5 + 64 g^4`, whose square root the optimal smoothing
/// parameters need.
pub open spec fn noise_smoothing_radicand<T: Scalar>(g: T) -> T {
    let g4 = squared(squared(g));
    plus(minus(times(lit(4), times(g4, squared(g))), times(lit(64), times(g4, g))), times(lit(64), g4))
}

/// The g, h and k for optimal noise smoothing, given `root`, the square root
/// of `noise_smoothing_radicand(g)`.
pub open spec fn noise_smoothing_ghk<T: Scalar>(g: T, root: T) -> (T, T, T) {
    let two: T = lit(2);
    let h = over(
        plus(minus(times(two, times(squared(g), g)), times(lit(4), squared(g))), root),
        times(lit(8), minus(lit(1), g)),
    );
    (g, h, over(minus(times(h, minus(two, g)), squared(g)), g))
}

/// The g and h of a nearly critically damped Benedict-Bordner filter, given
/// `root`, the square root of `1 - g^2`.
pub open spec fn benedict_bornder_critical<T: Scalar>(g: T, root: T) -> (T, T) {
    let two: T = lit(2);
    let g_sqr = squared(g);
    (g, over(times(over(lit(4), lit(5)), minus(minus(two, g_sqr), times(two, root))), g_sqr))
}

/// The g and h of a Benedict-Bordner filter that allows ringing.
pub open spec fn benedict_bornder_ringing<T: Scalar>(g: T) -> (T, T) {
    (g, over(squared(g), minus(lit(2), g)))
}

/// Relies on num_traits::Float::sqrt; nothing is claimed of its result.
#[verifier::external_body]
fn square_root<T: num_traits::Float>(x: T) -> T {
    x.sqrt()
}

/// The g and h with which a g-h filter computes an order-one least squares
/// fit, at sample `n` (the first sample is `n = 0`).
pub fn least_squares_parameters<T: Scalar>(n: T) -> (r: (T, T))
    requires
        total::<T>(),
    ensures
        exact::<T>() ==> r == least_squares_gh(n),
{
    let one = T::from(1u8);
    let two = T::from(2u8);
    let six = T::from(6u8);
    let den = (n + two) * (n + one);
    ((two * (two * n + one)) / den, six / den)
}

/// The g and h of a critically damped g-h filter, which discounts old data
/// at the rate `theta`.
pub fn critical_damping_parameters_order_two<T: Scalar>(theta: T) -> (r: (T, T))
    requires
        total::<T>(),
    ensures
        exact::<T>() ==> r == critical_gh(theta),
{
    let one = T::from(1u8);
    (one - theta * theta, (one - theta) * (one - theta))
}

/// The g, h and k of a critically damped g-h-k filter, which discounts old
/// data at the rate `theta`.
pub fn critical_damping_parameters_order_three<T: Scalar>(theta: T) -> (r: (T, T, T))
    requires
        total::<T>(),
    ensures
        exact::<T>() ==> r == critical_ghk(theta),
{
    let one = T::from(1u8);
    let two = T::from(2u8);
    let t = one - theta;
    ((one - theta * theta * theta), (one - theta * theta) * t, (one / two) * (t * t * t))
}

/// The g, h and k for optimal noise smoothing, given `root`, the square root
/// of `noise_smoothing_radicand(g)`.
pub fn optimal_noise_smoothing_from_root<T: Scalar>(g: T, root: T) -> (r: (T, T, T))
    requires
        total::<T>(),
    ensures
        exact::<T>() ==> r == noise_smoothing_ghk(g, root),
{
    let one = T::from(1u8);
    let two = T::from(2u8);
    let four = T::from(4u8);
    let eight = T::from(8u8);
    let g2 = g * g;
    let h = ((two * (g2 * g) - four * g2) + root) / (eight * (one - g));
    let k = (h * (two - g) - g2) / g;
    (g, h, k)
}

/// The g, h and k for optimal noise smoothing with the given g (Polge and
/// Bhagavan).
pub fn optimal_noise_smoothing<T: Scalar + num_traits::Float>(g: T) -> (r: (T, T, T))
    requires
        total::<T>(),
    ensures
        exact::<T>() ==> exists|root: T| r == noise_smoothing_ghk(g, root),
{
    let four = <T as From<u8>>::from(4u8);
    let sixty_four = <T as From<u8>>::from(64u8);
    let g2 = g * g;
    let g4 = g2 * g2;
    let radicand = four * (g4 * g2) - sixty_four * (g4 * g) + sixty_four * g4;
    let root = square_root(radicand);
    optimal_noise_smoothing_from_root(g, root)
}

/// The g and h of a Benedict-Bordner filter, given `root`, the square root of
/// `1 - g^2`, which only the nearly critically damped form uses.
pub fn benedict_bornder_constants_from_root<T: Scalar>(g: T, critical: bool, root: T) -> (r: (
    T,
    T,
))
    requires
        total::<T>(),
    ensures
        exact::<T>() ==> r == if critical {
            benedict_bornder_critical(g, root)
        } else {
            benedict_bornder_ringing(g)
        },
{
    let two = T::from(2u8);
    let g_sqr = g * g;
    if critical {
        (g, (T::from(4u8) / T::from(5u8)) * (two - g_sqr - two * root) / g_sqr)
    } else {
        (g, g_sqr / (two - g))
    }
}

/// The g and h of a Benedict-Bordner filter, which minimizes transient
/// errors; with `critical` the filter is nearly critically damped, which
/// reduces its ringing. The g is returned unchanged.
pub fn benedict_bornder_constants<T: Scalar + num_traits::Float>(g: T, critical: bool) -> (r: (
    T,
    T,
))
    requires
        total::<T>(),
    ensures
        exact::<T>() && critical ==> exists|root: T| r == benedict_bornder_critical(g, root),
        exact::<T>() && !critical ==> r == benedict_bornder_ringing(g),
{
    if critical {
        let root = square_root(<T as From<u8>>::from(1u8) - g * g);
        benedict_bornder_constants_from_root(g, true, root)
    } else {
        benedict_bornder_constants_from_root(g, false, g)
    }
}

} // verus!
