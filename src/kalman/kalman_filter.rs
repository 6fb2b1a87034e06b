//! The linear Kalman filter: a belief (mean and covariance) with its predict
//! and update operators, their steady-state forms, and queries that compute
//! without changing the filter.
use crate::matrix::{mat_add, mat_inv, mat_mul, mat_scale, mat_sub, mat_tr, Expr, Mat};
use crate::scalar::{exact, lit, Scalar};
use nalgebra::RealField;
use vstd::prelude::*;

verus! {

/// Why an update could not be made.
#[derive(Debug, Clone, Copy, PartialEq, Eq, Structural)]
pub enum KalmanError {
    /// The innovation covariance `S = H P H' + R` has no inverse.
    SingularMatrix,
}

/// A linear Kalman filter over the scalar type `T`.
///
/// The fields are public: callers set the model (`F`, `B`, `H`, `Q`, `R`,
/// `alpha_sq`) and the belief (`x`, `P`) between steps, and read the
/// snapshots and the values of the last update. The methods ask that the
/// shapes agree with `dim_x`, `dim_z` and `dim_u` (`wf`).
#[allow(non_snake_case)]
#[verifier::reject_recursive_types(T)]
pub struct KalmanFilter<T> {
    /// Size of the state.
    pub dim_x: usize,
    /// Size of a measurement.
    pub dim_z: usize,
    /// Size of a control input.
    pub dim_u: usize,
    /// Current state estimate.
    pub x: Mat<T>,
    /// Current state covariance.
    pub P: Mat<T>,
    /// State estimate after the last predict.
    pub x_prior: Mat<T>,
    /// State covariance after the last predict.
    pub P_prior: Mat<T>,
    /// State estimate after the last update.
    pub x_post: Mat<T>,
    /// State covariance after the last update.
    pub P_post: Mat<T>,
    /// Last measurement, if any update was made.
    pub z: Option<Mat<T>>,
    /// Measurement noise covariance.
    pub R: Mat<T>,
    /// Process noise covariance.
    pub Q: Mat<T>,
    /// Control transition matrix; without it no control input is applied.
    pub B: Option<Mat<T>>,
    /// State transition matrix.
    pub F: Mat<T>,
    /// Measurement function.
    pub H: Mat<T>,
    /// Residual of the last update.
    pub y: Mat<T>,
    /// Kalman gain of the last update.
    pub K: Mat<T>,
    /// Innovation covariance of the last update.
    pub S: Mat<T>,
    /// Inverse of the innovation covariance of the last update.
    pub SI: Mat<T>,
    /// Fading memory factor; 1 means no fading.
    pub alpha_sq: T,
}

/// Square and product matrices of these sizes can be allocated and indexed.
pub open spec fn dims_fit(dim_x: nat, dim_z: nat) -> bool {
    &&& dim_x * dim_x <= usize::MAX
    &&& dim_z * dim_z <= usize::MAX
    &&& dim_x * dim_z <= usize::MAX
}

/// The matrix that one call uses: the one passed for that call, else the
/// stored one.
pub open spec fn chosen<M>(arg: Option<&M>, stored: M) -> M {
    match arg {
        Some(m) => *m,
        None => stored,
    }
}

/// The optional matrix that one call uses: the one passed for that call,
/// else the stored one, else none.
pub open spec fn chosen_optional<M>(arg: Option<&M>, stored: Option<M>) -> Option<M> {
    match arg {
        Some(m) => Some(*m),
        None => stored,
    }
}

/// The matrix passed for this call if there is one, else the stored one.
pub fn resolve<'a, M>(arg: Option<&'a M>, stored: &'a M) -> (r: &'a M)
    ensures
        *r == chosen(arg, *stored),
{
    match arg {
        Some(m) => m,
        None => stored,
    }
}

/// The matrix passed for this call if there is one, else the stored one if
/// there is one.
pub fn resolve_optional<'a, M>(arg: Option<&'a M>, stored: &'a Option<M>) -> (r: Option<&'a M>)
    ensures
        r matches Some(m) ==> chosen_optional(arg, *stored) == Some(*m),
        r is None ==> chosen_optional(arg, *stored) is None,
{
    match arg {
        Some(m) => Some(m),
        None => match stored {
            Some(m) => Some(m),
            None => None,
        },
    }
}

/// The views of an optional matrix.
pub open spec fn opt_view<T>(m: Option<Mat<T>>) -> Option<Expr<T>> {
    match m {
        Some(m) => Some(m@),
        None => None,
    }
}

/// The view of an optional borrowed matrix.
pub open spec fn opt_ref_view<T>(m: Option<&Mat<T>>) -> Option<Expr<T>> {
    match m {
        Some(m) => Some(m@),
        None => None,
    }
}

/// The predicted state: `F x + B u` where a control matrix and an input
/// are both given, else `F x`.
pub open spec fn prior_state<T>(x: Expr<T>, F: Expr<T>, B: Option<Expr<T>>, u: Option<Expr<T>>) -> Expr<T> {
    match B {
        Some(b) => match u {
            Some(v) => mat_add(mat_mul(F, x), mat_mul(b, v)),
            None => mat_mul(F, x),
        },
        None => mat_mul(F, x),
    }
}

/// The predicted covariance `alpha_sq F P F' + Q`.
pub open spec fn prior_covariance<T>(P: Expr<T>, F: Expr<T>, alpha_sq: T, Q: Expr<T>) -> Expr<T> {
    mat_add(mat_scale(mat_mul(mat_mul(F, P), mat_tr(F)), alpha_sq), Q)
}

/// The residual `z - H x`.
pub open spec fn residual<T>(z: Expr<T>, H: Expr<T>, x: Expr<T>) -> Expr<T> {
    mat_sub(z, mat_mul(H, x))
}

/// The innovation covariance `H (P H') + R`.
pub open spec fn innovation_covariance<T>(P: Expr<T>, H: Expr<T>, R: Expr<T>) -> Expr<T> {
    mat_add(mat_mul(H, mat_mul(P, mat_tr(H))), R)
}

/// The gain `(P H') SI` for the inverse innovation covariance `SI`.
pub open spec fn kalman_gain<T>(P: Expr<T>, H: Expr<T>, SI: Expr<T>) -> Expr<T> {
    mat_mul(mat_mul(P, mat_tr(H)), SI)
}

/// The gain of a full update: `P H' S^-1` with `S = H P H' + R`.
pub open spec fn update_gain<T>(P: Expr<T>, H: Expr<T>, R: Expr<T>) -> Expr<T> {
    kalman_gain(P, H, mat_inv(innovation_covariance(P, H, R)))
}

/// The corrected state `x + K y`.
pub open spec fn posterior_state<T>(x: Expr<T>, K: Expr<T>, y: Expr<T>) -> Expr<T> {
    mat_add(x, mat_mul(K, y))
}

/// The Joseph-form covariance `(I - K H) P (I - K H)' + K R K'`, with `I`
/// the `n x n` identity.
pub open spec fn joseph_covariance<T>(P: Expr<T>, K: Expr<T>, H: Expr<T>, R: Expr<T>, n: nat) -> Expr<T> {
    let i_kh = mat_sub(Expr::Identity { n }, mat_mul(K, H));
    mat_add(mat_mul(mat_mul(i_kh, P), mat_tr(i_kh)), mat_mul(mat_mul(K, R), mat_tr(K)))
}

/// The state after a full update with the measurement `z`.
pub open spec fn updated_state<T>(x: Expr<T>, P: Expr<T>, z: Expr<T>, H: Expr<T>, R: Expr<T>) -> Expr<T> {
    posterior_state(x, update_gain(P, H, R), residual(z, H, x))
}

/// The covariance after a full update.
pub open spec fn updated_covariance<T>(P: Expr<T>, H: Expr<T>, R: Expr<T>, n: nat) -> Expr<T> {
    joseph_covariance(P, update_gain(P, H, R), H, R, n)
}

/// Once the stored gain is the one that a full update computes, the
/// steady-state update (`x + K (z - H x)` with the stored `K`) gives the state
/// that the full update gives.
pub proof fn lemma_steady_state_update_matches<T>(
    x: Expr<T>,
    P: Expr<T>,
    K: Expr<T>,
    z: Expr<T>,
    H: Expr<T>,
    R: Expr<T>,
)
    requires
        K == update_gain(P, H, R),
    ensures
        posterior_state(x, K, residual(z, H, x)) == updated_state(x, P, z, H, R),
{
}

impl<T> KalmanFilter<T> {
    /// Every matrix has the shape that the dimensions give it.
    pub open spec fn wf(&self) -> bool {
        let nx = self.dim_x as nat;
        let nz = self.dim_z as nat;
        let nu = self.dim_u as nat;
        &&& dims_fit(nx, nz)
        &&& self.x.has_shape(nx, 1)
        &&& self.P.has_shape(nx, nx)
        &&& self.x_prior.has_shape(nx, 1)
        &&& self.P_prior.has_shape(nx, nx)
        &&& self.x_post.has_shape(nx, 1)
        &&& self.P_post.has_shape(nx, nx)
        &&& (self.z matches Some(z) ==> z.has_shape(nz, 1))
        &&& self.R.has_shape(nz, nz)
        &&& self.Q.has_shape(nx, nx)
        &&& (self.B matches Some(b) ==> b.has_shape(nx, nu))
        &&& self.F.has_shape(nx, nx)
        &&& self.H.has_shape(nz, nx)
        &&& self.y.has_shape(nz, 1)
        &&& self.K.has_shape(nx, nz)
        &&& self.S.has_shape(nz, nz)
        &&& self.SI.has_shape(nz, nz)
    }

    /// The overrides a predict may be given have the shapes of the filter.
    pub open spec fn predict_args_fit(
        &self,
        u: Option<&Mat<T>>,
        B: Option<&Mat<T>>,
        F: Option<&Mat<T>>,
        Q: Option<&Mat<T>>,
    ) -> bool {
        let nx = self.dim_x as nat;
        &&& (u matches Some(u) ==> u.has_shape(self.dim_u as nat, 1))
        &&& (B matches Some(b) ==> b.has_shape(nx, self.dim_u as nat))
        &&& (F matches Some(f) ==> f.has_shape(nx, nx))
        &&& (Q matches Some(q) ==> q.has_shape(nx, nx))
    }

    /// The overrides an update may be given have the shapes of the filter.
    pub open spec fn update_args_fit(&self, z: &Mat<T>, R: Option<&Mat<T>>, H: Option<&Mat<T>>) -> bool {
        let nz = self.dim_z as nat;
        &&& z.has_shape(nz, 1)
        &&& (R matches Some(r) ==> r.has_shape(nz, nz))
        &&& (H matches Some(h) ==> h.has_shape(nz, self.dim_x as nat))
    }

    /// Only the state estimate, the covariance and the prior snapshots differ
    /// between `self` and `o`.
    pub open spec fn same_but_prior(&self, o: &Self) -> bool {
        &&& o.dim_x == self.dim_x
        &&& o.dim_z == self.dim_z
        &&& o.dim_u == self.dim_u
        &&& o.x_post == self.x_post
        &&& o.P_post == self.P_post
        &&& o.z == self.z
        &&& o.R == self.R
        &&& o.Q == self.Q
        &&& o.B == self.B
        &&& o.F == self.F
        &&& o.H == self.H
        &&& o.y == self.y
        &&& o.K == self.K
        &&& o.S == self.S
        &&& o.SI == self.SI
        &&& o.alpha_sq == self.alpha_sq
    }

    /// Only the belief, the last measurement, the values of the update and
    /// the posterior snapshots differ between `self` and `o`.
    pub open spec fn same_but_posterior(&self, o: &Self) -> bool {
        &&& o.dim_x == self.dim_x
        &&& o.dim_z == self.dim_z
        &&& o.dim_u == self.dim_u
        &&& o.x_prior == self.x_prior
        &&& o.P_prior == self.P_prior
        &&& o.R == self.R
        &&& o.Q == self.Q
        &&& o.B == self.B
        &&& o.F == self.F
        &&& o.H == self.H
        &&& o.alpha_sq == self.alpha_sq
    }
}

#[allow(non_snake_case)]
impl<T: RealField + Scalar> KalmanFilter<T> {
    /// A filter for states of `dim_x` values, measurements of `dim_z` values
    /// and control inputs of `dim_u` values: `x` all ones, `P`, `Q`, `F` and
    /// `R` identities, `H`, `K`, `S` and `SI` zero, `y` all ones, `alpha_sq`
    /// one, no control matrix and no measurement yet; the snapshots equal the
    /// belief.
    pub fn new(dim_x: usize, dim_z: usize, dim_u: usize) -> (r: KalmanFilter<T>)
        requires
            dims_fit(dim_x as nat, dim_z as nat),
        ensures
            r.wf(),
            r.dim_x == dim_x,
            r.dim_z == dim_z,
            r.dim_u == dim_u,
            exact::<T>() ==> r.alpha_sq == (lit::<T>(1u8)),
            r.x@ == (Expr::Filled { rows: dim_x as nat, cols: 1, value: r.alpha_sq }),
            r.P@ == (Expr::<T>::Identity { n: dim_x as nat }),
            r.Q@ == (Expr::<T>::Identity { n: dim_x as nat }),
            r.F@ == (Expr::<T>::Identity { n: dim_x as nat }),
            r.R@ == (Expr::<T>::Identity { n: dim_z as nat }),
            r.H@ == (Expr::<T>::Zeros { rows: dim_z as nat, cols: dim_x as nat }),
            r.K@ == (Expr::<T>::Zeros { rows: dim_x as nat, cols: dim_z as nat }),
            r.S@ == (Expr::<T>::Zeros { rows: dim_z as nat, cols: dim_z as nat }),
            r.SI@ == (Expr::<T>::Zeros { rows: dim_z as nat, cols: dim_z as nat }),
            r.y@ == (Expr::Filled { rows: dim_z as nat, cols: 1, value: r.alpha_sq }),
            r.z is None,
            r.B is None,
            r.x_prior == r.x,
            r.P_prior == r.P,
            r.x_post == r.x,
            r.P_post == r.P,
    {
        let one: T = <T as From<u8>>::from(1u8);
        let x = Mat::from_element(dim_x, 1, one);
        let P = Mat::identity(dim_x);
        KalmanFilter {
            dim_x,
            dim_z,
            dim_u,
            x_prior: x.duplicate(),
            P_prior: P.duplicate(),
            x_post: x.duplicate(),
            P_post: P.duplicate(),
            x,
            P,
            z: None,
            R: Mat::identity(dim_z),
            Q: Mat::identity(dim_x),
            B: None,
            F: Mat::identity(dim_x),
            H: Mat::zeros(dim_z, dim_x),
            y: Mat::from_element(dim_z, 1, one),
            K: Mat::zeros(dim_x, dim_z),
            S: Mat::zeros(dim_z, dim_z),
            SI: Mat::zeros(dim_z, dim_z),
            alpha_sq: one,
        }
    }

    /// `F x + B u` where a control matrix and an input are both given, else
    /// `F x`.
    fn propagate(
        x: &Mat<T>,
        F: &Mat<T>,
        B: Option<&Mat<T>>,
        u: Option<&Mat<T>>,
        dim_u: usize,
    ) -> (r: Mat<T>)
        requires
            F.rows() == F.cols(),
            x.has_shape(F.cols(), 1),
            B matches Some(b) ==> b.has_shape(F.rows(), dim_u as nat),
            u matches Some(u) ==> u.has_shape(dim_u as nat, 1),
        ensures
            r.has_shape(F.rows(), 1),
            r@ == prior_state(x@, F@, opt_ref_view(B), opt_ref_view(u)),
    {
        let fx = F.product(x);
        match (B, u) {
            (Some(b), Some(u)) => fx.sum(&b.product(u)),
            _ => fx,
        }
    }

    /// The residual `y = z - H x`, the product `P H'` and the innovation
    /// covariance `S = H P H' + R` of the measurement `z`.
    fn innovation(x: &Mat<T>, P: &Mat<T>, z: &Mat<T>, R: &Mat<T>, H: &Mat<T>) -> (r: (
        Mat<T>,
        Mat<T>,
        Mat<T>,
    ))
        requires
            P.rows() == P.cols(),
            x.has_shape(P.rows(), 1),
            H.cols() == P.rows(),
            z.has_shape(H.rows(), 1),
            R.has_shape(H.rows(), H.rows()),
        ensures
            r.0.has_shape(H.rows(), 1),
            r.1.has_shape(P.rows(), H.rows()),
            r.2.has_shape(H.rows(), H.rows()),
            r.0@ == residual(z@, H@, x@),
            r.1@ == mat_mul(P@, mat_tr(H@)),
            r.2@ == innovation_covariance(P@, H@, R@),
    {
        let y = z.difference(&H.product(x));
        let PHT = P.product(&H.transposed());
        let S = H.product(&PHT).sum(R);
        (y, PHT, S)
    }

    /// The state `x + K y`, the Joseph-form covariance
    /// `(I - K H) P (I - K H)' + K R K'`, the gain `K = PHT SI` and `SI`,
    /// given `SI`, the inverse of the innovation covariance, as the inversion
    /// gave it: `SingularMatrix` exactly where there is none.
    pub fn corrected(
        x: &Mat<T>,
        P: &Mat<T>,
        R: &Mat<T>,
        H: &Mat<T>,
        y: &Mat<T>,
        PHT: &Mat<T>,
        SI: Option<Mat<T>>,
    ) -> (r: Result<(Mat<T>, Mat<T>, Mat<T>, Mat<T>), KalmanError>)
        requires
            P.rows() == P.cols(),
            P.rows() * P.rows() <= usize::MAX,
            x.has_shape(P.rows(), 1),
            H.cols() == P.rows(),
            R.has_shape(H.rows(), H.rows()),
            y.has_shape(H.rows(), 1),
            PHT.has_shape(P.rows(), H.rows()),
            SI matches Some(si) ==> si.has_shape(H.rows(), H.rows()),
        ensures
            r is Err <==> SI is None,
            r matches Err(e) ==> e == KalmanError::SingularMatrix,
            r matches Ok(c) ==> {
                &&& c.0.has_shape(P.rows(), 1)
                &&& c.1.has_shape(P.rows(), P.rows())
                &&& c.2.has_shape(P.rows(), H.rows())
                &&& SI == Some(c.3)
                &&& c.2@ == mat_mul(PHT@, c.3@)
                &&& c.0@ == posterior_state(x@, c.2@, y@)
                &&& c.1@ == joseph_covariance(P@, c.2@, H@, R@, P.rows())
            },
    {
        let SI = match SI {
            Some(si) => si,
            None => {
                return Err(KalmanError::SingularMatrix);
            },
        };
        let K = PHT.product(&SI);
        let x = x.sum(&K.product(y));
        let I_KH = Mat::identity(P.nrows()).difference(&K.product(H));
        let P = I_KH.product(P).product(&I_KH.transposed()).sum(
            &K.product(R).product(&K.transposed()),
        );
        Ok((x, P, K, SI))
    }

    /// Predicts the next state: `x = F x + B u` (or `F x` without control),
    /// `P = alpha_sq F P F' + Q`, then takes the prior snapshots. `u`, `B`,
    /// `F` and `Q` replace the stored matrices for this call only.
    pub fn predict(
        &mut self,
        u: Option<&Mat<T>>,
        B: Option<&Mat<T>>,
        F: Option<&Mat<T>>,
        Q: Option<&Mat<T>>,
    )
        requires
            old(self).wf(),
            old(self).predict_args_fit(u, B, F, Q),
        ensures
            final(self).wf(),
            old(self).same_but_prior(&*final(self)),
            final(self).x@ == prior_state(
                old(self).x@,
                chosen(F, old(self).F)@,
                opt_view(chosen_optional(B, old(self).B)),
                opt_ref_view(u),
            ),
            final(self).P@ == prior_covariance(
                old(self).P@,
                chosen(F, old(self).F)@,
                old(self).alpha_sq,
                chosen(Q, old(self).Q)@,
            ),
            final(self).x_prior == final(self).x,
            final(self).P_prior == final(self).P,
    {
        let B = resolve_optional(B, &self.B);
        let F = resolve(F, &self.F);
        let Q = resolve(Q, &self.Q);
        let x = Self::propagate(&self.x, F, B, u, self.dim_u);
        let P = F.product(&self.P).product(&F.transposed()).scaled(self.alpha_sq).sum(Q);
        self.x = x;
        self.P = P;
        self.x_prior = self.x.duplicate();
        self.P_prior = self.P.duplicate();
    }

    /// Adds the measurement `z` (Joseph form): `y = z - H x`,
    /// `S = H P H' + R`, `SI = S^-1`, `K = P H' SI`, `x = x + K y`,
    /// `P = (I - K H) P (I - K H)' + K R K'`, then records `z` and takes the
    /// posterior snapshots. `R` and `H` replace the stored matrices for this
    /// call only. Where nalgebra finds that `S` has no inverse it fails with
    /// `SingularMatrix` and leaves the filter as it was.
    pub fn update(&mut self, z: &Mat<T>, R: Option<&Mat<T>>, H: Option<&Mat<T>>) -> (r: Result<
        (),
        KalmanError,
    >)
        requires
            old(self).wf(),
            old(self).update_args_fit(z, R, H),
        ensures
            r matches Err(e) ==> e == KalmanError::SingularMatrix && *final(self) == *old(self),
            r is Ok ==> {
                let Hc = chosen(H, old(self).H)@;
                let Rc = chosen(R, old(self).R)@;
                &&& final(self).wf()
                &&& old(self).same_but_posterior(&*final(self))
                &&& final(self).y@ == residual(z@, Hc, old(self).x@)
                &&& final(self).S@ == innovation_covariance(old(self).P@, Hc, Rc)
                &&& final(self).SI@ == mat_inv(final(self).S@)
                &&& final(self).K@ == kalman_gain(old(self).P@, Hc, final(self).SI@)
                &&& final(self).x@ == posterior_state(old(self).x@, final(self).K@, final(self).y@)
                &&& final(self).P@ == joseph_covariance(
                    old(self).P@,
                    final(self).K@,
                    Hc,
                    Rc,
                    old(self).dim_x as nat,
                )
                &&& final(self).x@ == updated_state(old(self).x@, old(self).P@, z@, Hc, Rc)
                &&& final(self).P@ == updated_covariance(
                    old(self).P@,
                    Hc,
                    Rc,
                    old(self).dim_x as nat,
                )
                &&& final(self).z == Some(*z)
                &&& final(self).x_post == final(self).x
                &&& final(self).P_post == final(self).P
            },
    {
        let R = resolve(R, &self.R);
        let H = resolve(H, &self.H);
        let (y, PHT, S) = Self::innovation(&self.x, &self.P, z, R, H);
        let SI = S.try_inverse();
        match Self::corrected(&self.x, &self.P, R, H, &y, &PHT, SI) {
            Err(e) => Err(e),
            Ok((x, P, K, SI)) => {
                self.y = y;
                self.S = S;
                self.SI = SI;
                self.K = K;
                self.x = x;
                self.P = P;
                self.z = Some(z.duplicate());
                self.x_post = self.x.duplicate();
                self.P_post = self.P.duplicate();
                Ok(())
            },
        }
    }

    /// Predicts the next state as `predict` does, with the stored `F`, but
    /// keeps the covariance: only `x` and the prior snapshots change.
    pub fn predict_steadystate(&mut self, u: Option<&Mat<T>>, B: Option<&Mat<T>>)
        requires
            old(self).wf(),
            old(self).predict_args_fit(u, B, None, None),
        ensures
            final(self).wf(),
            old(self).same_but_prior(&*final(self)),
            final(self).x@ == prior_state(
                old(self).x@,
                old(self).F@,
                opt_view(chosen_optional(B, old(self).B)),
                opt_ref_view(u),
            ),
            final(self).P == old(self).P,
            final(self).x_prior == final(self).x,
            final(self).P_prior == final(self).P,
    {
        let B = resolve_optional(B, &self.B);
        let x = Self::propagate(&self.x, &self.F, B, u, self.dim_u);
        self.x = x;
        self.x_prior = self.x.duplicate();
        self.P_prior = self.P.duplicate();
    }

    /// Adds the measurement `z` with the stored gain: `y = z - H x`,
    /// `x = x + K y`; the covariance, the gain and `S` are kept.
    pub fn update_steadystate(&mut self, z: &Mat<T>)
        requires
            old(self).wf(),
            old(self).update_args_fit(z, None, None),
        ensures
            final(self).wf(),
            old(self).same_but_posterior(&*final(self)),
            final(self).y@ == residual(z@, old(self).H@, old(self).x@),
            final(self).x@ == posterior_state(old(self).x@, old(self).K@, final(self).y@),
            final(self).P == old(self).P,
            final(self).K == old(self).K,
            final(self).S == old(self).S,
            final(self).SI == old(self).SI,
            final(self).z == Some(*z),
            final(self).x_post == final(self).x,
            final(self).P_post == final(self).P,
    {
        let y = z.difference(&self.H.product(&self.x));
        let x = self.x.sum(&self.K.product(&y));
        self.y = y;
        self.x = x;
        self.z = Some(z.duplicate());
        self.x_post = self.x.duplicate();
        self.P_post = self.P.duplicate();
    }

    /// The state and covariance that `predict(u, None, None, None)` would
    /// give, computed without changing the filter.
    pub fn get_prediction(&self, u: Option<&Mat<T>>) -> (r: (Mat<T>, Mat<T>))
        requires
            self.wf(),
            self.predict_args_fit(u, None, None, None),
        ensures
            r.0.has_shape(self.dim_x as nat, 1),
            r.1.has_shape(self.dim_x as nat, self.dim_x as nat),
            r.0@ == prior_state(self.x@, self.F@, opt_view(self.B), opt_ref_view(u)),
            r.1@ == prior_covariance(self.P@, self.F@, self.alpha_sq, self.Q@),
    {
        let x = Self::propagate(&self.x, &self.F, self.B.as_ref(), u, self.dim_u);
        let P = self.F.product(&self.P).product(&self.F.transposed()).scaled(self.alpha_sq).sum(
            &self.Q,
        );
        (x, P)
    }

    /// The state and covariance that `update(z, None, None)` would give,
    /// computed without changing the filter; `SingularMatrix` where nalgebra
    /// finds that `S` has no inverse.
    pub fn get_update(&self, z: &Mat<T>) -> (r: Result<(Mat<T>, Mat<T>), KalmanError>)
        requires
            self.wf(),
            self.update_args_fit(z, None, None),
        ensures
            r matches Err(e) ==> e == KalmanError::SingularMatrix,
            r matches Ok(p) ==> {
                &&& p.0.has_shape(self.dim_x as nat, 1)
                &&& p.1.has_shape(self.dim_x as nat, self.dim_x as nat)
                &&& p.0@ == updated_state(self.x@, self.P@, z@, self.H@, self.R@)
                &&& p.1@ == updated_covariance(self.P@, self.H@, self.R@, self.dim_x as nat)
            },
    {
        let (y, PHT, S) = Self::innovation(&self.x, &self.P, z, &self.R, &self.H);
        match Self::corrected(&self.x, &self.P, &self.R, &self.H, &y, &PHT, S.try_inverse()) {
            Err(e) => Err(e),
            Ok((x, P, _, _)) => Ok((x, P)),
        }
    }

    /// The residual `z - H x_prior` of the measurement `z` against the last
    /// prediction.
    pub fn residual_of(&self, z: &Mat<T>) -> (r: Mat<T>)
        requires
            self.wf(),
            self.update_args_fit(z, None, None),
        ensures
            r.has_shape(self.dim_z as nat, 1),
            r@ == residual(z@, self.H@, self.x_prior@),
    {
        z.difference(&self.H.product(&self.x_prior))
    }

    /// The measurement `H x` that the state `x` would give.
    pub fn measurement_of_state(&self, x: &Mat<T>) -> (r: Mat<T>)
        requires
            self.wf(),
            x.has_shape(self.dim_x as nat, 1),
        ensures
            r.has_shape(self.dim_z as nat, 1),
            r@ == mat_mul(self.H@, x@),
    {
        self.H.product(x)
    }
}

} // verus!
