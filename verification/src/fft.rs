//! A reusable real-valued FFT engine: the forward transform takes N real
//! samples to a half-spectrum of N/2+1 complex bins, and the inverse
//! transform takes such a half-spectrum back to N real samples, divided by N
//! so that a forward/inverse round trip restores the original amplitude.
//!
//! The engine owns a pair of plan executors bound to one transform length
//! and a single shared scratch buffer sized to the larger of the two plans'
//! requirements. The verified contracts pin down the plan lifecycle and the
//! sizing discipline: `init` binds both plans to the requested length, the
//! scratch buffer always matches the freshly reported requirement and is
//! re-checked defensively (but without reallocation when already right)
//! before every execution, no call changes the length of a caller's buffer
//! or swaps the plans, and the forward transform succeeds exactly on
//! correctly sized buffers.

use vstd::prelude::*;

use rustfft::num_complex::Complex;
use rustfft::FftNum;

use crate::plans::complex_zero;
use crate::plans::length_divisor;
use crate::plans::process_forward;
use crate::plans::process_inverse;
use crate::plans::scale_by_length;
use crate::plans::ForwardPlan;
use crate::plans::InversePlan;

verus! {

/// The error a transform call can return.
#[derive(Debug)]
pub enum TransformError {
    /// The plan executor refused or flagged the call; its own error is
    /// carried here unchanged.
    Execution(realfft::FftError),
    /// The output length could not be represented in the sample type, so
    /// the inverse result could not be normalized.
    LengthNotRepresentable,
}

/// The abstract state of a transform engine: the length its forward plan is
/// bound to, the scratch requirements the plans reported when they were
/// made, and the current size of the shared scratch buffer.
pub struct FftModel {
    /// The transform length N the forward plan was requested for.
    pub len: nat,
    /// The scratch length the forward plan reported.
    pub forward_scratch: nat,
    /// The scratch length the inverse plan reported.
    pub inverse_scratch: nat,
    /// The current length of the shared scratch buffer.
    pub scratch: nat,
}

impl FftModel {
    /// The scratch length the engine owes its plans: the larger of the two
    /// reported requirements.
    pub open spec fn required_scratch(self) -> nat {
        if self.forward_scratch >= self.inverse_scratch {
            self.forward_scratch
        } else {
            self.inverse_scratch
        }
    }
}

/// A real-valued FFT engine over the sample type `F`, reusable across many
/// transform calls of one length and re-initializable to a new length.
#[verifier::reject_recursive_types(F)]
pub struct Fft<F> {
    forward_plan: ForwardPlan<F>,
    inverse_plan: InversePlan<F>,
    scratch: Vec<Complex<F>>,
}

impl<F> View for Fft<F> {
    type V = FftModel;

    closed spec fn view(&self) -> FftModel {
        FftModel {
            len: self.forward_plan.bound_length(),
            forward_scratch: self.forward_plan.scratch_requirement(),
            inverse_scratch: self.inverse_plan.scratch_requirement(),
            scratch: self.scratch@.len(),
        }
    }
}

impl<F> Fft<F> {
    /// Both plans were made for the same transform length; `init` and the
    /// constructor establish this and no call disturbs it.
    pub closed spec fn plans_matched(self) -> bool {
        self.forward_plan.bound_length() == self.inverse_plan.bound_length()
    }

    /// The two states hold the very same plan pair.
    pub closed spec fn same_plans(self, other: Self) -> bool {
        self.forward_plan == other.forward_plan && self.inverse_plan == other.inverse_plan
    }

    /// The shared scratch buffer holds exactly the larger of the two scratch
    /// requirements the bound plans reported.
    pub open spec fn scratch_sized(self) -> bool {
        self@.scratch == self@.required_scratch()
    }

    /// Well-formed: a matched plan pair and a scratch buffer of exactly the
    /// required size.
    pub open spec fn wf(self) -> bool {
        self.plans_matched() && self.scratch_sized()
    }
}

/// One scratch buffer serves both plans: in a well-formed engine the shared
/// buffer meets the forward and the inverse requirement at once.
pub proof fn lemma_scratch_serves_both_plans<F>(fft: &Fft<F>)
    requires
        fft.wf(),
    ensures
        fft@.scratch >= fft@.forward_scratch,
        fft@.scratch >= fft@.inverse_scratch,
{
}

impl<F: FftNum> Fft<F> {
    /// The degenerate engine: a plan pair bound to length zero and a scratch
    /// buffer already sized to what that pair reports. Usable as a
    /// placeholder before the real length is known.
    pub fn new() -> (r: Self)
        ensures
            r@.len == 0,
            r.wf(),
    {
        let mut fft = Fft {
            forward_plan: ForwardPlan::plan(0),
            inverse_plan: InversePlan::plan(0),
            scratch: Vec::new(),
        };
        fft.ensure_scratch();
        fft
    }

    /// Re-derives the scratch requirement from the bound plans and resizes
    /// the shared buffer when it differs; when the size is already right the
    /// buffer is left untouched. Called defensively before every execution,
    /// so a transform never runs on stale scratch.
    fn ensure_scratch(&mut self)
        ensures
            old(self).same_plans(*final(self)),
            final(self).scratch_sized(),
            old(self).scratch_sized() ==> final(self).scratch@ == old(self).scratch@,
    {
        let fwd: usize = self.forward_plan.scratch_len();
        let inv: usize = self.inverse_plan.scratch_len();
        let n: usize = if fwd >= inv {
            fwd
        } else {
            inv
        };
        if self.scratch.len() != n {
            self.scratch.clear();
            while self.scratch.len() < n
                invariant
                    self.scratch@.len() <= n,
                    self.forward_plan == old(self).forward_plan,
                    self.inverse_plan == old(self).inverse_plan,
                decreases n - self.scratch.len(),
            {
                self.scratch.push(complex_zero());
            }
        }
    }

    /// Binds the engine to the transform length `length`: obtains a fresh,
    /// matched forward/inverse plan pair for that length, replacing any
    /// previously held plans, and resizes the shared scratch buffer to the
    /// larger of the two freshly reported requirements. Total for every
    /// length, zero included, and nothing of the prior state constrains the
    /// result.
    pub fn init(&mut self, length: usize)
        ensures
            final(self)@.len == length as nat,
            final(self).wf(),
    {
        self.forward_plan = ForwardPlan::plan(length);
        self.inverse_plan = InversePlan::plan(length);
        self.ensure_scratch();
    }

    /// Runs the forward transform: `input` holds N real samples (consumed as
    /// working space), `output` receives the N/2+1 complex half-spectrum. No
    /// normalization is applied on this path. The call succeeds exactly when
    /// the buffers have the bound lengths; otherwise the executor's error is
    /// passed through unchanged. Neither buffer changes length and the plan
    /// pair is untouched.
    pub fn forward(&mut self, input: &mut Vec<F>, output: &mut Vec<Complex<F>>) -> (r: Result<
        (),
        TransformError,
    >)
        ensures
            old(self).same_plans(*final(self)),
            final(self)@.len == old(self)@.len,
            final(self)@.forward_scratch == old(self)@.forward_scratch,
            final(self)@.inverse_scratch == old(self)@.inverse_scratch,
            final(self).scratch_sized(),
            old(self).wf() ==> final(self).wf(),
            final(input)@.len() == old(input)@.len(),
            final(output)@.len() == old(output)@.len(),
            r is Err ==> r->Err_0 is Execution,
            (r is Ok) <==> (old(input)@.len() == old(self)@.len && old(output)@.len() == old(
                self,
            )@.len / 2 + 1),
    {
        self.ensure_scratch();
        match process_forward(&self.forward_plan, input, output, &mut self.scratch) {
            Ok(()) => Ok(()),
            Err(e) => Err(TransformError::Execution(e)),
        }
    }

    /// Runs the inverse transform: `input` holds the N/2+1 complex
    /// half-spectrum (consumed as working space), `output` receives N real
    /// samples, each divided by `output.len()` so that a forward/inverse
    /// round trip restores the original amplitude. Buffers of the wrong
    /// length are refused with the executor's error, passed through
    /// unchanged and skipping the divide; the executor can also flag
    /// non-zero imaginary parts in the edge bins on otherwise correct calls.
    /// Neither buffer changes length and the plan pair is untouched.
    pub fn inverse(&mut self, input: &mut Vec<Complex<F>>, output: &mut Vec<F>) -> (r: Result<
        (),
        TransformError,
    >)
        ensures
            old(self).same_plans(*final(self)),
            final(self)@.len == old(self)@.len,
            final(self)@.forward_scratch == old(self)@.forward_scratch,
            final(self)@.inverse_scratch == old(self)@.inverse_scratch,
            final(self).scratch_sized(),
            old(self).wf() ==> final(self).wf(),
            final(input)@.len() == old(input)@.len(),
            final(output)@.len() == old(output)@.len(),
            old(self).plans_matched() && (old(input)@.len() != old(self)@.len / 2 + 1 || old(
                output,
            )@.len() != old(self)@.len) ==> (r is Err && r->Err_0 is Execution),
            old(self).plans_matched() && r is Ok ==> (old(input)@.len() == old(self)@.len / 2 + 1
                && old(output)@.len() == old(self)@.len),
            old(self).plans_matched() && old(self)@.len == 0 && old(input)@.len() == 1 && old(
                output,
            )@.len() == 0 ==> r is Ok,
    {
        self.ensure_scratch();
        match process_inverse(&self.inverse_plan, input, output, &mut self.scratch) {
            Ok(()) => {},
            Err(e) => {
                return Err(TransformError::Execution(e));
            },
        }
        let n: usize = output.len();
        if n > 0 {
            if length_divisor::<F>(n).is_none() {
                return Err(TransformError::LengthNotRepresentable);
            }
            let mut i: usize = 0;
            while i < output.len()
                invariant
                    i <= output@.len(),
                    output@.len() == n as nat,
                decreases output@.len() - i,
            {
                scale_by_length(vstd::std_specs::vec::vec_index_mut(output, i), n);
                i = i + 1;
            }
        }
        Ok(())
    }

    /// The current length of the internally managed scratch buffer.
    pub fn scratch_len(&self) -> (n: usize)
        ensures
            n as nat == self@.scratch,
    {
        self.scratch.len()
    }
}

} // verus!
