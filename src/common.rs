//! Array helpers shared by the filters: discrete convolution, and circular
//! and constant-filled shifts.
use crate::scalar::{lit, plus, times, total, exact, Scalar};
use vstd::prelude::*;
use vstd::arithmetic::div_mod::{lemma_fundamental_div_mod, lemma_fundamental_div_mod_converse};

verus! {

/// The sequence `a` rotated right by `shift` places (left when `shift` is
/// negative): the element at `i` comes from `(i - shift) mod len`.
pub open spec fn rolled<T>(a: Seq<T>, shift: int) -> Seq<T> {
    Seq::new(a.len(), |i: int| a[(i - shift) % (a.len() as int)])
}

/// The sequence `a` moved right by `shift` places (left when `shift` is
/// negative), with `value` in the places that no element reaches.
pub open spec fn shifted<T>(a: Seq<T>, shift: int, value: T) -> Seq<T> {
    Seq::new(
        a.len(),
        |i: int|
            if 0 <= i - shift < a.len() {
                a[i - shift]
            } else {
                value
            },
    )
}

/// How a shift treats the elements that leave one end of the array.
#[derive(Clone, Copy, Debug)]
pub enum ShiftMode<T> {
    /// They come back in at the other end.
    Wrap,
    /// They are lost, and the given value fills the places left free.
    Extend(T),
}

/// The result of `shift` with the given mode.
pub open spec fn shifted_by<T>(a: Seq<T>, shift: int, mode: ShiftMode<T>) -> Seq<T> {
    match mode {
        ShiftMode::Wrap => rolled(a, shift),
        ShiftMode::Extend(c) => shifted(a, shift, c),
    }
}

proof fn lemma_mod_of_decomposition(x: int, n: int, q: int, r: int)
    requires
        0 < n,
        0 <= r < n,
        x == q * n + r,
    ensures
        r == x % n,
{
    lemma_fundamental_div_mod_converse(x, n, q, r);
}

/// Rotates `a` right by `shift` places, left when `shift` is negative.
pub fn roll<T: Copy>(a: &[T], shift: i64) -> (out: Vec<T>)
    ensures
        out@ == rolled(a@, shift as int),
{
    let n: usize = a.len();
    let mut out: Vec<T> = Vec::with_capacity(n);
    if n == 0 {
        proof {
            assert(out@ =~= rolled(a@, shift as int));
        }
        return out;
    }
    // k is shift reduced into [0, n)
    let ghost q: int;
    let k: usize;
    if shift >= 0 {
        let r: u128 = (shift as u128) % (n as u128);
        proof {
            lemma_fundamental_div_mod(shift as int, n as int);
            q = (shift as int) / (n as int);
        }
        k = r as usize;
    } else {
        let t: u128 = ((0i128 - shift as i128) as u128) % (n as u128);
        proof {
            lemma_fundamental_div_mod(-(shift as int), n as int);
        }
        if t == 0 {
            proof {
                q = -((-(shift as int)) / (n as int));
                assert(shift as int == q * n) by (nonlinear_arith)
                    requires
                        -(shift as int) == ((-(shift as int)) / (n as int)) * n + 0,
                        q == -((-(shift as int)) / (n as int)),
                ;
            }
            k = 0;
        } else {
            proof {
                q = -((-(shift as int)) / (n as int)) - 1;
                assert(shift as int == q * n + (n - t)) by (nonlinear_arith)
                    requires
                        -(shift as int) == ((-(shift as int)) / (n as int)) * n + t,
                        q == -((-(shift as int)) / (n as int)) - 1,
                ;
            }
            k = n - t as usize;
        }
    }
    assert(shift as int == q * n + k && 0 <= k < n);
    let mut i: usize = 0;
    while i < n
        invariant
            n == a@.len(),
            0 <= k < n,
            shift as int == q * n + k,
            i <= n,
            out@.len() == i,
            forall|j: int| 0 <= j < i ==> out@[j] == #[trigger] rolled(a@, shift as int)[j],
        decreases n - i,
    {
        let ix: usize = if i >= k {
            i - k
        } else {
            i + (n - k)
        };
        proof {
            if i >= k {
                assert(i - shift == (-q) * n + ix) by (nonlinear_arith)
                    requires
                        shift as int == q * n + k,
                        ix == i - k,
                ;
                lemma_mod_of_decomposition(i - shift, n as int, -q, ix as int);
            } else {
                assert(i - shift == (-q - 1) * n + ix) by (nonlinear_arith)
                    requires
                        shift as int == q * n + k,
                        ix == i + (n - k),
                ;
                lemma_mod_of_decomposition(i - shift, n as int, -q - 1, ix as int);
            }
        }
        out.push(a[ix]);
        i = i + 1;
    }
    proof {
        assert(out@ =~= rolled(a@, shift as int));
    }
    out
}

/// Moves `a` right by `shift` places, left when `shift` is negative; the
/// places that no element reaches hold `value`.
pub fn shift_extend<T: Copy>(a: &[T], shift: i64, value: T) -> (out: Vec<T>)
    ensures
        out@ == shifted(a@, shift as int, value),
{
    let n: usize = a.len();
    let mut out: Vec<T> = Vec::with_capacity(n);
    let mut i: usize = 0;
    while i < n
        invariant
            n == a@.len(),
            i <= n,
            out@.len() == i,
            forall|j: int| 0 <= j < i ==> out@[j] == #[trigger] shifted(a@, shift as int, value)[j],
        decreases n - i,
    {
        let ix: i128 = i as i128 - shift as i128;
        if 0 <= ix && ix < n as i128 {
            out.push(a[ix as usize]);
        } else {
            out.push(value);
        }
        i = i + 1;
    }
    proof {
        assert(out@ =~= shifted(a@, shift as int, value));
    }
    out
}

/// Shifts `a` by `amount` places, wrapping around or filling as `mode` says.
pub fn shift<T: Copy>(a: &[T], amount: i64, mode: ShiftMode<T>) -> (out: Vec<T>)
    ensures
        out@ == shifted_by(a@, amount as int, mode),
{
    match mode {
        ShiftMode::Wrap => roll(a, amount),
        ShiftMode::Extend(c) => shift_extend(a, amount, c),
    }
}

/// How a convolution treats the places beyond the ends of the signal.
#[derive(Clone, Copy, Debug)]
pub enum ConvolutionMode<T> {
    /// The signal wraps around.
    Wrap,
    /// The signal is extended on both sides by the given value.
    Extended(T),
}

/// The signal value at `ix`, or `c` outside the signal.
pub open spec fn value_or<T>(signal: Seq<T>, ix: int, c: T) -> T {
    if 0 <= ix < signal.len() {
        signal[ix]
    } else {
        c
    }
}

/// The signal value that window entry `j` meets at output place `i`.
pub open spec fn met<T>(signal: Seq<T>, n: int, i: int, j: int, mode: ConvolutionMode<T>) -> T {
    match mode {
        ConvolutionMode::Wrap => signal[(i - j + n / 2) % (signal.len() as int)],
        ConvolutionMode::Extended(c) => value_or(signal, i - j + n / 2, c),
    }
}

/// The sum, from zero and in order, of the products of the first `k` window
/// entries with the signal values they meet at output place `i`.
pub open spec fn partial_conv<T: Scalar>(
    signal: Seq<T>,
    window: Seq<T>,
    i: int,
    k: int,
    mode: ConvolutionMode<T>,
) -> T
    decreases k,
{
    if k <= 0 {
        lit(0)
    } else {
        plus(
            partial_conv(signal, window, i, k - 1, mode),
            times(met(signal, window.len() as int, i, k - 1, mode), window[k - 1]),
        )
    }
}

/// The convolution of `signal` with a window no longer than it: one value
/// for each place of the signal, with the window centred on that place.
pub open spec fn convolved<T: Scalar>(signal: Seq<T>, window: Seq<T>, mode: ConvolutionMode<T>) -> Seq<T> {
    Seq::new(
        signal.len(),
        |i: int| partial_conv(signal, window, i, window.len() as int, mode),
    )
}

/// The convolution of `a` and `b`, the longer of the two taken as the signal.
pub open spec fn convolution<T: Scalar>(a: Seq<T>, b: Seq<T>, mode: ConvolutionMode<T>) -> Seq<T> {
    if a.len() < b.len() {
        convolved(b, a, mode)
    } else {
        convolved(a, b, mode)
    }
}

/// Convolves `signal` with `window`, which is no longer than it.
fn convolve_with<T: Scalar>(signal: &[T], window: &[T], mode: ConvolutionMode<T>) -> (out: Vec<T>)
    requires
        total::<T>(),
        window@.len() <= signal@.len(),
    ensures
        out@.len() == signal@.len(),
        exact::<T>() ==> out@ == convolved(signal@, window@, mode),
{
    let m: usize = signal.len();
    let n: usize = window.len();
    let half: usize = n / 2;
    let mut out: Vec<T> = Vec::with_capacity(m);
    let mut i: usize = 0;
    while i < m
        invariant
            total::<T>(),
            m == signal@.len(),
            n == window@.len(),
            n <= m,
            half == n / 2,
            i <= m,
            out@.len() == i,
            exact::<T>() ==> forall|p: int|
                0 <= p < i ==> out@[p] == #[trigger] convolved(signal@, window@, mode)[p],
        decreases m - i,
    {
        let mut x: T = T::from(0u8);
        let mut j: usize = 0;
        while j < n
            invariant
                total::<T>(),
                m == signal@.len(),
                n == window@.len(),
                n <= m,
                half == n / 2,
                i < m,
                j <= n,
                exact::<T>() ==> x == partial_conv(signal@, window@, i as int, j as int, mode),
            decreases n - j,
        {
            let s: T = match mode {
                ConvolutionMode::Wrap => {
                    let ix: u128 = (m as u128 + i as u128 + half as u128 - j as u128) % (m as u128);
                    proof {
                        let d = i - j + half;
                        assert((m + d) % (m as int) == d % (m as int)) by {
                            vstd::arithmetic::div_mod::lemma_mod_add_multiples_vanish(d, m as int);
                        }
                    }
                    signal[ix as usize]
                },
                ConvolutionMode::Extended(c) => {
                    let ix: i128 = i as i128 - j as i128 + half as i128;
                    if 0 <= ix && ix < m as i128 {
                        signal[ix as usize]
                    } else {
                        c
                    }
                },
            };
            x = x + s * window[j];
            j = j + 1;
        }
        out.push(x);
        i = i + 1;
    }
    proof {
        if exact::<T>() {
            assert(out@ =~= convolved(signal@, window@, mode));
        }
    }
    out
}

/// The discrete convolution of `a` and `b`, the longer of the two taken as
/// the signal: one value for each place of the signal, with the other
/// centred on that place.
pub fn convolve<T: Scalar>(a: &[T], b: &[T], mode: ConvolutionMode<T>) -> (out: Vec<T>)
    requires
        total::<T>(),
    ensures
        out@.len() == if a@.len() < b@.len() { b@.len() } else { a@.len() },
        exact::<T>() ==> out@ == convolution(a@, b@, mode),
{
    if a.len() < b.len() {
        convolve_with(b, a, mode)
    } else {
        convolve_with(a, b, mode)
    }
}

} // verus!
