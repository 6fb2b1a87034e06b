//! The discrete Bayes filter over a histogram of probabilities.
use crate::common::{convolution, convolve, shift, shifted_by, ConvolutionMode, ShiftMode};
use crate::scalar::{exact, lit, over, plus, times, total, Scalar};
use vstd::prelude::*;

verus! {

/// The sum, from zero and in order, of the first `k` values of `s`.
pub open spec fn sum_prefix<T: Scalar>(s: Seq<T>, k: int) -> T
    decreases k,
{
    if k <= 0 {
        lit(0)
    } else {
        plus(sum_prefix(s, k - 1), s[k - 1])
    }
}

/// Each value of `s` divided by the sum of all of them.
pub open spec fn normalized<T: Scalar>(s: Seq<T>) -> Seq<T> {
    Seq::new(s.len(), |i: int| over(s[i], sum_prefix(s, s.len() as int)))
}

/// The products, place by place, of two sequences of the same length.
pub open spec fn products<T: Scalar>(a: Seq<T>, b: Seq<T>) -> Seq<T> {
    Seq::new(a.len(), |i: int| times(a[i], b[i]))
}

/// Divides each value of `pdf` by the sum of all of them, so that they sum
/// to one.
pub fn normalize<T: Scalar>(pdf: &mut [T])
    requires
        total::<T>(),
    ensures
        final(pdf)@.len() == old(pdf)@.len(),
        exact::<T>() ==> final(pdf)@ == normalized(old(pdf)@),
{
    let n: usize = pdf.len();
    let mut sum: T = T::from(0u8);
    let mut i: usize = 0;
    while i < n
        invariant
            total::<T>(),
            n == pdf@.len(),
            i <= n,
            exact::<T>() ==> sum == sum_prefix(pdf@, i as int),
        decreases n - i,
    {
        sum = sum + pdf[i];
        i = i + 1;
    }
    let ghost before = pdf@;
    let mut k: usize = 0;
    while k < n
        invariant
            total::<T>(),
            n == pdf@.len(),
            n == before.len(),
            k <= n,
            exact::<T>() ==> sum == sum_prefix(before, n as int),
            forall|p: int| k <= p < n ==> pdf@[p] == before[p],
            exact::<T>() ==> forall|p: int|
                0 <= p < k ==> pdf@[p] == #[trigger] normalized(before)[p],
        decreases n - k,
    {
        let v = pdf[k] / sum;
        pdf[k] = v;
        k = k + 1;
    }
    proof {
        if exact::<T>() {
            assert(pdf@ =~= normalized(before));
        }
    }
}

/// The posterior of a discrete random variable from the likelihood of a
/// measurement and the prior: their products, normalized. Fails where the
/// two have different lengths.
pub fn update<T: Scalar>(likelihood: &[T], prior: &[T]) -> (r: Result<Vec<T>, ()>)
    requires
        total::<T>(),
    ensures
        r is Err <==> likelihood@.len() != prior@.len(),
        r matches Ok(post) ==> post@.len() == prior@.len(),
        exact::<T>() ==> (r matches Ok(post) ==> post@ == normalized(
            products(likelihood@, prior@),
        )),
{
    if likelihood.len() != prior.len() {
        return Err(());
    }
    let n: usize = prior.len();
    let mut posterior: Vec<T> = Vec::with_capacity(n);
    let mut i: usize = 0;
    while i < n
        invariant
            total::<T>(),
            n == prior@.len(),
            n == likelihood@.len(),
            i <= n,
            posterior@.len() == i,
            exact::<T>() ==> forall|p: int|
                0 <= p < i ==> posterior@[p] == #[trigger] products(likelihood@, prior@)[p],
        decreases n - i,
    {
        posterior.push(likelihood[i] * prior[i]);
        i = i + 1;
    }
    proof {
        if exact::<T>() {
            assert(posterior@ =~= products(likelihood@, prior@));
        }
    }
    normalize(posterior.as_mut_slice());
    Ok(posterior)
}

/// What the prediction does at the ends of the distribution.
#[derive(Clone, Copy, Debug)]
pub enum EdgeHandling<T> {
    /// The distribution is shifted, and the given value fills the places
    /// that no probability reaches.
    Constant(T),
    /// The distribution wraps around the array.
    Wrap,
}

/// The prior that `predict` gives.
pub open spec fn predicted<T: Scalar>(pdf: Seq<T>, offset: int, kernel: Seq<T>, mode: EdgeHandling<T>) -> Seq<T> {
    match mode {
        EdgeHandling::Constant(c) => convolution(
            shifted_by(pdf, offset, ShiftMode::Extend(c)),
            kernel,
            ConvolutionMode::Extended(c),
        ),
        EdgeHandling::Wrap => convolution(
            shifted_by(pdf, offset, ShiftMode::Wrap),
            kernel,
            ConvolutionMode::Wrap,
        ),
    }
}

/// The prediction step of the discrete Bayes filter: moves `pdf` by
/// `offset` places and convolves it with the movement's uncertainty
/// `kernel`, treating the ends as `mode` says.
pub fn predict<T: Scalar>(pdf: &[T], offset: i64, kernel: &[T], mode: EdgeHandling<T>) -> (r: Vec<T>)
    requires
        total::<T>(),
    ensures
        r@.len() == if pdf@.len() < kernel@.len() { kernel@.len() } else { pdf@.len() },
        exact::<T>() ==> r@ == predicted(pdf@, offset as int, kernel@, mode),
{
    match mode {
        EdgeHandling::Constant(c) => {
            let moved = shift(pdf, offset, ShiftMode::Extend(c));
            convolve(moved.as_slice(), kernel, ConvolutionMode::Extended(c))
        },
        EdgeHandling::Wrap => {
            let moved = shift(pdf, offset, ShiftMode::Wrap);
            convolve(moved.as_slice(), kernel, ConvolutionMode::Wrap)
        },
    }
}

} // verus!
