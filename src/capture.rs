//! The capture phase of an async addon call: each argument is saved in an
//! owned form under a guard, and a failure finalizes what was saved.

use vstd::prelude::*;

verus! {

/// The saved arguments of one in-flight async call, in declared order. Each
/// is guarded: unless the whole capture completes, all of them are handed
/// back for finalization.
pub struct CaptureGuards<S> {
    saved: Vec<S>,
}

impl<S> View for CaptureGuards<S> {
    type V = Seq<S>;

    closed spec fn view(&self) -> Seq<S> {
        self.saved@
    }
}

impl<S> CaptureGuards<S> {
    /// No argument captured yet.
    pub fn new() -> (r: CaptureGuards<S>)
        ensures
            r@ == Seq::<S>::empty(),
    {
        CaptureGuards { saved: Vec::new() }
    }

    /// Puts the saved form of the next argument under a guard.
    pub fn arm(&mut self, saved: S)
        ensures
            final(self)@ == old(self)@.push(saved),
    {
        self.saved.push(saved);
    }

    /// A later argument failed: every saved argument, in capture order, to
    /// be finalized now.
    pub fn abort(self) -> (r: Vec<S>)
        ensures
            r@ == self@,
    {
        self.saved
    }

    /// Every argument was captured: the guards are disarmed and the saved
    /// arguments handed over, in capture order.
    pub fn disarm(self) -> (r: Vec<S>)
        ensures
            r@ == self@,
    {
        self.saved
    }
}

/// How the capture of an async call's arguments ended.
pub enum CaptureOutcome<S, E> {
    /// All arguments were saved, in declared order.
    Captured(Vec<S>),
    /// An argument failed; the arguments saved before it are finalized, in
    /// declared order, and the error is returned to the host.
    Failed { error: E, finalize: Vec<S> },
}

/// The saved values of a list of successful captures.
pub open spec fn saved_values<S, E>(a: Seq<Result<S, E>>) -> Seq<S> {
    a.map_values(|x: Result<S, E>| x->Ok_0)
}

/// Runs the capture phase over the outcomes of capturing each argument in
/// declared order. It stops at the first failure; the outcomes after it are
/// never looked at, as a real capture would not attempt them.
pub fn capture_arguments<S: Copy, E: Copy>(attempts: &Vec<Result<S, E>>) -> (r: CaptureOutcome<S, E>)
    ensures
        match r {
            CaptureOutcome::Captured(saved) => {
                &&& forall|i: int| 0 <= i < attempts@.len() ==> (#[trigger] attempts@[i]) is Ok
                &&& saved@ == saved_values(attempts@)
            },
            CaptureOutcome::Failed { error, finalize } => exists|k: int|
                {
                    &&& 0 <= k < attempts@.len()
                    &&& attempts@[k] == Err::<S, E>(error)
                    &&& forall|i: int| 0 <= i < k ==> (#[trigger] attempts@[i]) is Ok
                    &&& finalize@ == saved_values(attempts@.take(k))
                },
        },
{
    let mut guards: CaptureGuards<S> = CaptureGuards::new();
    let mut i: usize = 0;
    while i < attempts.len()
        invariant
            0 <= i <= attempts@.len(),
            guards@ == saved_values(attempts@.take(i as int)),
            forall|j: int| 0 <= j < i ==> (#[trigger] attempts@[j]) is Ok,
        decreases attempts@.len() - i,
    {
        match attempts[i] {
            Ok(saved) => {
                guards.arm(saved);
                assert(attempts@.take(i + 1) =~= attempts@.take(i as int).push(attempts@[i as int]));
                assert(saved_values(attempts@.take(i + 1)) =~= saved_values(
                    attempts@.take(i as int),
                ).push(saved));
            },
            Err(error) => {
                let finalize = guards.abort();
                assert(attempts@[i as int] == Err::<S, E>(error));
                return CaptureOutcome::Failed { error, finalize };
            },
        }
        i = i + 1;
    }
    assert(attempts@.take(i as int) =~= attempts@);
    CaptureOutcome::Captured(guards.disarm())
}

} // verus!
