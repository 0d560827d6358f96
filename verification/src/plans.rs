//! The boundary to the external FFT planning and execution library.
//!
//! Everything the engine knows about the plan executors is written here as
//! contracts on thin wrappers around `realfft`; the verifier believes these
//! contracts and checks the rest of the crate against them. Each wrapper's
//! doc comment names the external function it relies on.
//!
//! A plan is modelled by [`ForwardPlan`] / [`InversePlan`]: the opaque
//! executor handle paired with the length it was planned for and the scratch
//! requirement it reported. The pairing is established once, in the verified
//! `plan` constructors, and the fields stay private to this module, so every
//! value the process wrappers can receive carries the model of its own
//! handle.
//!
//! The element type `F` is one of the floating-point sample types that
//! `rustfft` defines `FftNum` for; the planner itself is built for those.

use vstd::prelude::*;

use std::sync::Arc;

use num::Zero;
use realfft::ComplexToReal;
use realfft::FftError;
use realfft::RealFftPlanner;
use realfft::RealToComplex;
use rustfft::num_complex::Complex;
use rustfft::FftNum;

verus! {

/// Declares `rustfft::num_complex::Complex` to the verifier as an opaque
/// element type: the engine stores and hands over complex values without
/// ever looking inside them.
#[verifier::external_type_specification]
#[verifier::external_body]
#[verifier::reject_recursive_types(T)]
pub struct ExComplex<T>(Complex<T>);

/// Declares `realfft::FftError`, the execution error of the plan executors,
/// as an opaque type: the engine passes it through unchanged.
#[verifier::external_type_specification]
#[verifier::external_body]
pub struct ExFftError(FftError);

/// A forward plan executor held behind `Arc<dyn RealToComplex<F>>`. A
/// trait-object handle cannot be declared to the verifier, so the holder
/// struct is opaque as a whole.
#[verifier::external_body]
#[verifier::reject_recursive_types(F)]
pub(crate) struct ForwardHandle<F> {
    handle: Arc<dyn RealToComplex<F>>,
}

/// An inverse plan executor held behind `Arc<dyn ComplexToReal<F>>`; opaque
/// for the same reason as [`ForwardHandle`].
#[verifier::external_body]
#[verifier::reject_recursive_types(F)]
pub(crate) struct InverseHandle<F> {
    handle: Arc<dyn ComplexToReal<F>>,
}

/// Relies on `RealFftPlanner::plan_fft_forward`: returns a forward plan
/// executor for real input of the given length; planning succeeds for every
/// length, zero included.
#[verifier::external_body]
fn plan_forward_handle<F: FftNum>(length: usize) -> (h: ForwardHandle<F>) {
    let mut planner = RealFftPlanner::new();
    ForwardHandle { handle: planner.plan_fft_forward(length) }
}

/// Relies on `RealFftPlanner::plan_fft_inverse`: returns an inverse plan
/// executor for real output of the given length; planning succeeds for every
/// length, zero included.
#[verifier::external_body]
fn plan_inverse_handle<F: FftNum>(length: usize) -> (h: InverseHandle<F>) {
    let mut planner = RealFftPlanner::new();
    InverseHandle { handle: planner.plan_fft_inverse(length) }
}

/// Relies on `RealToComplex::get_scratch_len`: the least scratch length the
/// forward executor accepts in `process_with_scratch`; a plan is immutable,
/// so the value does not change after planning.
#[verifier::external_body]
fn forward_handle_scratch_len<F>(h: &ForwardHandle<F>) -> (n: usize) {
    h.handle.get_scratch_len()
}

/// Relies on `ComplexToReal::get_scratch_len`: the least scratch length the
/// inverse executor accepts in `process_with_scratch`; a plan is immutable,
/// so the value does not change after planning.
#[verifier::external_body]
fn inverse_handle_scratch_len<F>(h: &InverseHandle<F>) -> (n: usize) {
    h.handle.get_scratch_len()
}

/// A forward plan: the opaque executor handle together with the length it
/// was planned for and the scratch requirement it reported at planning time.
#[verifier::reject_recursive_types(F)]
pub(crate) struct ForwardPlan<F> {
    handle: ForwardHandle<F>,
    length: Ghost<nat>,
    need: usize,
}

impl<F> ForwardPlan<F> {
    /// The transform length this plan was made for.
    pub(crate) closed spec fn bound_length(self) -> nat {
        self.length@
    }

    /// The scratch length the executor reported when the plan was made.
    pub(crate) closed spec fn scratch_requirement(self) -> nat {
        self.need as nat
    }

    /// The recorded scratch requirement, as an executable value.
    pub(crate) fn scratch_len(&self) -> (n: usize)
        ensures
            n as nat == self.scratch_requirement(),
    {
        self.need
    }
}

impl<F: FftNum> ForwardPlan<F> {
    /// Plans a forward transform of the given length and records the model
    /// of the fresh handle.
    pub(crate) fn plan(length: usize) -> (p: Self)
        ensures
            p.bound_length() == length as nat,
    {
        let handle = plan_forward_handle::<F>(length);
        let need: usize = forward_handle_scratch_len(&handle);
        ForwardPlan { handle, length: Ghost(length as nat), need }
    }
}

/// An inverse plan: the opaque executor handle together with the length it
/// was planned for and the scratch requirement it reported at planning time.
#[verifier::reject_recursive_types(F)]
pub(crate) struct InversePlan<F> {
    handle: InverseHandle<F>,
    length: Ghost<nat>,
    need: usize,
}

impl<F> InversePlan<F> {
    /// The transform length this plan was made for.
    pub(crate) closed spec fn bound_length(self) -> nat {
        self.length@
    }

    /// The scratch length the executor reported when the plan was made.
    pub(crate) closed spec fn scratch_requirement(self) -> nat {
        self.need as nat
    }

    /// The recorded scratch requirement, as an executable value.
    pub(crate) fn scratch_len(&self) -> (n: usize)
        ensures
            n as nat == self.scratch_requirement(),
    {
        self.need
    }
}

impl<F: FftNum> InversePlan<F> {
    /// Plans an inverse transform of the given length and records the model
    /// of the fresh handle.
    pub(crate) fn plan(length: usize) -> (p: Self)
        ensures
            p.bound_length() == length as nat,
    {
        let handle = plan_inverse_handle::<F>(length);
        let need: usize = inverse_handle_scratch_len(&handle);
        InversePlan { handle, length: Ghost(length as nat), need }
    }
}

/// Relies on `RealToComplex::process_with_scratch`: runs the forward
/// transform, writing the half-spectrum into `output` and using `input` and
/// `scratch` as working space. It reads and writes only through the three
/// slices, so no buffer changes length. Its source checks the three lengths
/// first and returns the matching error before any work; once all three
/// checks pass it always returns `Ok`.
#[verifier::external_body]
pub(crate) fn process_forward<F>(
    plan: &ForwardPlan<F>,
    input: &mut Vec<F>,
    output: &mut Vec<Complex<F>>,
    scratch: &mut Vec<Complex<F>>,
) -> (r: Result<(), FftError>)
    ensures
        final(input)@.len() == old(input)@.len(),
        final(output)@.len() == old(output)@.len(),
        final(scratch)@.len() == old(scratch)@.len(),
        (old(input)@.len() == plan.bound_length() && old(output)@.len() == plan.bound_length() / 2
            + 1 && old(scratch)@.len() >= plan.scratch_requirement()) ==> r is Ok,
        (old(input)@.len() != plan.bound_length() || old(output)@.len() != plan.bound_length() / 2
            + 1 || old(scratch)@.len() < plan.scratch_requirement()) ==> r is Err,
{
    plan.handle.handle.process_with_scratch(input, output, scratch)
}

/// Relies on `ComplexToReal::process_with_scratch`: runs the inverse
/// transform, writing unnormalized real samples into `output` and using
/// `input` and `scratch` as working space. It reads and writes only through
/// the three slices, so no buffer changes length. Its source checks the
/// three lengths first and returns the matching error before any work; on
/// matching lengths it can still return an error for non-zero imaginary
/// parts in the edge bins (with the transform performed), except at length
/// zero, where it returns early with `Ok`.
#[verifier::external_body]
pub(crate) fn process_inverse<F>(
    plan: &InversePlan<F>,
    input: &mut Vec<Complex<F>>,
    output: &mut Vec<F>,
    scratch: &mut Vec<Complex<F>>,
) -> (r: Result<(), FftError>)
    ensures
        final(input)@.len() == old(input)@.len(),
        final(output)@.len() == old(output)@.len(),
        final(scratch)@.len() == old(scratch)@.len(),
        (old(input)@.len() != plan.bound_length() / 2 + 1 || old(output)@.len()
            != plan.bound_length() || old(scratch)@.len() < plan.scratch_requirement()) ==> r
            is Err,
        (plan.bound_length() == 0 && old(input)@.len() == 1 && old(output)@.len() == 0 && old(
            scratch,
        )@.len() >= plan.scratch_requirement()) ==> r is Ok,
{
    plan.handle.handle.process_with_scratch(input, output, scratch)
}

/// Relies on `num_traits::FromPrimitive::from_usize`: converts a buffer
/// length to the sample type for the normalization divide; `None` when the
/// type cannot represent the value (never for the floating-point sample
/// types).
#[verifier::external_body]
pub(crate) fn length_divisor<F: FftNum>(length: usize) -> (r: Option<F>) {
    F::from_usize(length)
}

/// Relies on `num_traits::FromPrimitive::from_usize` and the sample type's
/// division (via `num_traits::Num`): divides the value in place by the
/// length converted to the sample type, leaving it unchanged when the length
/// is not representable. A positive length converts to a positive divisor or
/// to nothing, so the division cannot panic for any sample type.
#[verifier::external_body]
pub(crate) fn scale_by_length<F: FftNum>(value: &mut F, length: usize)
    requires
        length >= 1,
{
    if let Some(divisor) = F::from_usize(length) {
        *value = *value / divisor;
    }
}

/// Relies on `num_traits::Zero::zero` for `Complex`: a zero-valued complex
/// element, used to fill fresh scratch space.
#[verifier::external_body]
pub(crate) fn complex_zero<F: FftNum>() -> (z: Complex<F>) {
    Complex::zero()
}

} // verus!
