//! The order of host calls behind each accessor. The caller performs the
//! calls; after each one it hands back the signals seen so far and is told
//! whether to make the next call, to fail, or to finish.

use vstd::prelude::*;
use crate::error::{check_err, Error, NativeCall};

verus! {

/// An operation on a model, request or input handle.
#[derive(Clone, Copy, Debug, PartialEq, Eq, Structural)]
pub enum Accessor {
    ModelName,
    ModelVersion,
    ModelLocation,
    ModelPath,
    RequestInput,
    InputProperties,
    InputString,
    InputU64,
}

/// What the caller does next.
#[derive(Clone, Copy, Debug, PartialEq, Eq, Structural)]
pub enum Step {
    /// Make this host call and record its signal.
    Call(NativeCall),
    /// Stop with this error.
    Fail(Error),
    /// Every call succeeded: compute the result from their out-parameters.
    Finish,
}

impl Accessor {
    /// The host calls the accessor makes, in order.
    pub open spec fn spec_plan(self) -> Seq<NativeCall> {
        match self {
            Accessor::ModelName => seq![NativeCall::ModelName],
            Accessor::ModelVersion => seq![NativeCall::ModelVersion],
            Accessor::ModelLocation => seq![NativeCall::ModelRepository],
            Accessor::ModelPath => seq![NativeCall::ModelRepository, NativeCall::ModelVersion],
            Accessor::RequestInput => seq![NativeCall::RequestInput],
            Accessor::InputProperties => seq![NativeCall::InputProperties],
            Accessor::InputString => seq![NativeCall::InputProperties, NativeCall::InputBuffer],
            Accessor::InputU64 => seq![NativeCall::InputProperties, NativeCall::InputBuffer],
        }
    }

    /// The host calls the accessor makes, in order.
    pub fn plan(&self) -> (r: Vec<NativeCall>)
        ensures
            r@ == self.spec_plan(),
    {
        match self {
            Accessor::ModelName => vec![NativeCall::ModelName],
            Accessor::ModelVersion => vec![NativeCall::ModelVersion],
            Accessor::ModelLocation => vec![NativeCall::ModelRepository],
            Accessor::ModelPath => vec![NativeCall::ModelRepository, NativeCall::ModelVersion],
            Accessor::RequestInput => vec![NativeCall::RequestInput],
            Accessor::InputProperties => vec![NativeCall::InputProperties],
            Accessor::InputString => vec![NativeCall::InputProperties, NativeCall::InputBuffer],
            Accessor::InputU64 => vec![NativeCall::InputProperties, NativeCall::InputBuffer],
        }
    }
}

/// The next step of `plan`, given the signals of the calls made so far,
/// looking from the `k`-th call on.
pub open spec fn step_from(plan: Seq<NativeCall>, signals: Seq<Option<u32>>, k: int) -> Step
    decreases plan.len() - k,
{
    if k >= plan.len() {
        Step::Finish
    } else if k >= signals.len() {
        Step::Call(plan[k])
    } else {
        match signals[k] {
            Some(code) => Step::Fail(Error::Native { call: plan[k], code }),
            None => step_from(plan, signals, k + 1),
        }
    }
}

/// The next step of accessor `a`.
pub open spec fn step_of(a: Accessor, signals: Seq<Option<u32>>) -> Step {
    step_from(a.spec_plan(), signals, 0)
}

/// Decides what follows the calls whose signals are `signals`: the first
/// error among them fails the accessor, else the next call of its plan is
/// made, else it finishes.
pub fn next_step(a: Accessor, signals: &[Option<u32>]) -> (r: Step)
    ensures
        r == step_of(a, signals@),
{
    let plan = a.plan();
    let mut k: usize = 0;
    while k < plan.len()
        invariant
            k <= plan@.len(),
            plan@ == a.spec_plan(),
            step_of(a, signals@) == step_from(plan@, signals@, k as int),
        decreases plan@.len() - k,
    {
        if k >= signals.len() {
            return Step::Call(plan[k]);
        }
        if let Err(e) = check_err(signals[k], plan[k]) {
            return Step::Fail(e);
        }
        k += 1;
    }
    Step::Finish
}

proof fn lemma_step_reaches_failure(
    plan: Seq<NativeCall>,
    signals: Seq<Option<u32>>,
    j: int,
    k: int,
    code: u32,
)
    requires
        0 <= j <= k < signals.len(),
        k < plan.len(),
        signals[k] == Some(code),
        forall|i: int| 0 <= i < k ==> #[trigger] signals[i] is None,
    ensures
        step_from(plan, signals, j) == Step::Fail(Error::Native { call: plan[k], code }),
    decreases k - j,
{
    if j < k {
        lemma_step_reaches_failure(plan, signals, j + 1, k, code);
    }
}

/// When a host call reports an error and the calls before it succeeded, the
/// accessor fails with that call and its code and asks for no further call,
/// whatever signals are recorded after it.
pub proof fn lemma_error_stops_accessor(a: Accessor, signals: Seq<Option<u32>>, k: int, code: u32)
    requires
        0 <= k < signals.len(),
        k < a.spec_plan().len(),
        signals[k] == Some(code),
        forall|i: int| 0 <= i < k ==> #[trigger] signals[i] is None,
    ensures
        step_of(a, signals) == Step::Fail(Error::Native { call: a.spec_plan()[k], code }),
{
    lemma_step_reaches_failure(a.spec_plan(), signals, 0, k, code);
}

/// While every call so far succeeded, the accessor makes the next call of
/// its plan, and finishes once all of them are made.
pub proof fn lemma_success_continues(a: Accessor, signals: Seq<Option<u32>>)
    requires
        signals.len() <= a.spec_plan().len(),
        forall|i: int| 0 <= i < signals.len() ==> #[trigger] signals[i] is None,
    ensures
        signals.len() < a.spec_plan().len() ==> step_of(a, signals) == Step::Call(
            a.spec_plan()[signals.len() as int],
        ),
        signals.len() == a.spec_plan().len() ==> step_of(a, signals) == Step::Finish,
{
    lemma_step_runs_through(a.spec_plan(), signals, 0);
}

proof fn lemma_step_runs_through(plan: Seq<NativeCall>, signals: Seq<Option<u32>>, j: int)
    requires
        0 <= j <= signals.len() <= plan.len(),
        forall|i: int| 0 <= i < signals.len() ==> #[trigger] signals[i] is None,
    ensures
        signals.len() < plan.len() ==> step_from(plan, signals, j) == Step::Call(
            plan[signals.len() as int],
        ),
        signals.len() == plan.len() ==> step_from(plan, signals, j) == Step::Finish,
    decreases signals.len() - j,
{
    if j < signals.len() {
        lemma_step_runs_through(plan, signals, j + 1);
    }
}

} // verus!
