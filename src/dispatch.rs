//! The dispatcher's decisions: which implementations to try, in what order,
//! under which deadline, and what a sequence of attempts amounts to.
//!
//! The kernels themselves run outside the library; the caller runs each
//! attempt that `next_step` asks for and hands back its outcome.

use vstd::prelude::*;
use vstd::string::StringExecFns;
use crate::catalog::{ImplSet, Implementation};
use crate::text::owned;

verus! {

/// The kinds of failure at the engine's boundary.
#[derive(Debug, Clone, Copy, PartialEq, Eq, Structural)]
pub enum ErrorKind {
    Validation,
    EmptyData,
    NotImplemented,
    Timeout,
    AlternateFailure,
    NativeFailure,
    Transport,
}

impl ErrorKind {
    pub open spec fn name_spec(self) -> Seq<char> {
        match self {
            ErrorKind::Validation => "Validation"@,
            ErrorKind::EmptyData => "EmptyData"@,
            ErrorKind::NotImplemented => "NotImplemented"@,
            ErrorKind::Timeout => "Timeout"@,
            ErrorKind::AlternateFailure => "AlternateFailure"@,
            ErrorKind::NativeFailure => "NativeFailure"@,
            ErrorKind::Transport => "Transport"@,
        }
    }

    /// The name of the kind, as it opens an error message.
    pub fn name(&self) -> (r: &'static str)
        ensures
            r@ == self.name_spec(),
    {
        match self {
            ErrorKind::Validation => "Validation",
            ErrorKind::EmptyData => "EmptyData",
            ErrorKind::NotImplemented => "NotImplemented",
            ErrorKind::Timeout => "Timeout",
            ErrorKind::AlternateFailure => "AlternateFailure",
            ErrorKind::NativeFailure => "NativeFailure",
            ErrorKind::Transport => "Transport",
        }
    }
}

/// A typed failure with its detail text.
#[derive(Debug)]
pub struct EngineError {
    pub kind: ErrorKind,
    pub detail: String,
}

/// The text of a failure: `<kind>: <detail>`.
pub open spec fn error_text(kind: ErrorKind, detail: Seq<char>) -> Seq<char> {
    kind.name_spec() + ": "@ + detail
}

impl EngineError {
    pub fn new(kind: ErrorKind, detail: &str) -> (r: EngineError)
        ensures
            r.kind == kind,
            r.detail@ == detail@,
    {
        EngineError { kind, detail: owned(detail) }
    }

    /// A copy of the error.
    pub fn duplicate(&self) -> (r: EngineError)
        ensures
            r.kind == self.kind,
            r.detail@ == self.detail@,
    {
        EngineError { kind: self.kind, detail: self.detail.clone() }
    }

    /// The message that a response carries: `<kind>: <detail>`.
    pub fn message(&self) -> (r: String)
        ensures
            r@ == error_text(self.kind, self.detail@),
    {
        let mut s = owned(self.kind.name());
        s.append(": ");
        s.append(self.detail.as_str());
        s
    }
}

/// The deadline used when a request sets none, in milliseconds.
pub const DEFAULT_TIMEOUT_MS: u64 = 30000;

/// Per-request options of the dispatcher.
#[derive(Debug, Clone, Copy, PartialEq, Eq, Structural)]
pub struct AnalysisOptions {
    pub prefer_native: bool,
    pub allow_alternate: bool,
    /// Values of zero or less ask for the default deadline.
    pub timeout_ms: i32,
    pub include_metadata: bool,
}

impl Default for AnalysisOptions {
    fn default() -> (r: AnalysisOptions)
        ensures
            r == (AnalysisOptions {
                prefer_native: true,
                allow_alternate: true,
                timeout_ms: 30000,
                include_metadata: true,
            }),
    {
        AnalysisOptions {
            prefer_native: true,
            allow_alternate: true,
            timeout_ms: 30000,
            include_metadata: true,
        }
    }
}

pub open spec fn effective_timeout_spec(timeout_ms: i32) -> u64 {
    if timeout_ms > 0 {
        timeout_ms as u64
    } else {
        DEFAULT_TIMEOUT_MS
    }
}

/// The deadline of an attempt: the request's own when positive, else the default.
pub fn effective_timeout_ms(timeout_ms: i32) -> (r: u64)
    ensures
        r == effective_timeout_spec(timeout_ms),
{
    if timeout_ms > 0 {
        timeout_ms as u64
    } else {
        DEFAULT_TIMEOUT_MS
    }
}

/// The ordered candidates for a request; empty when none may serve it.
pub open spec fn candidates_spec(impls: ImplSet, prefer_native: bool, allow_alternate: bool) -> Seq<
    Implementation,
> {
    if prefer_native && impls.native {
        if allow_alternate && impls.alternate {
            seq![Implementation::Native, Implementation::Alternate]
        } else {
            seq![Implementation::Native]
        }
    } else if allow_alternate && impls.alternate {
        if impls.native {
            seq![Implementation::Alternate, Implementation::Native]
        } else {
            seq![Implementation::Alternate]
        }
    } else if impls.native {
        seq![Implementation::Native]
    } else {
        seq![]
    }
}

/// The candidates to try for `algorithm`, in order, or `NotImplemented` when
/// no implementation offers it or the options exclude every one that does.
pub fn plan_candidates(algorithm: &str, impls: ImplSet, options: &AnalysisOptions) -> (r: Result<
    Vec<Implementation>,
    EngineError,
>)
    ensures
        r is Err <==> candidates_spec(impls, options.prefer_native, options.allow_alternate).len()
            == 0,
        r is Ok ==> r->Ok_0@ == candidates_spec(
            impls,
            options.prefer_native,
            options.allow_alternate,
        ),
        r is Err ==> r->Err_0.kind == ErrorKind::NotImplemented,
{
    let mut v: Vec<Implementation> = Vec::new();
    if options.prefer_native && impls.native {
        v.push(Implementation::Native);
        if options.allow_alternate && impls.alternate {
            v.push(Implementation::Alternate);
        }
    } else if options.allow_alternate && impls.alternate {
        v.push(Implementation::Alternate);
        if impls.native {
            v.push(Implementation::Native);
        }
    } else if impls.native {
        v.push(Implementation::Native);
    }
    if v.len() == 0 {
        let mut detail = owned("no implementation available for algorithm '");
        detail.append(algorithm);
        detail.append("'");
        return Err(EngineError { kind: ErrorKind::NotImplemented, detail });
    }
    assert(v@ =~= candidates_spec(impls, options.prefer_native, options.allow_alternate));
    Ok(v)
}

/// What the dispatcher does next, as plain values.
pub ghost enum StepModel {
    Attempt(Implementation),
    Succeeded(Implementation, u64),
    Failed(ErrorKind, Seq<char>),
}

/// What the dispatcher does next.
#[derive(Debug)]
pub enum DispatchStep {
    /// Run this candidate within the effective deadline and report the outcome.
    Attempt(Implementation),
    /// A candidate succeeded; the request is done.
    Succeeded { implementation: Implementation, elapsed_ms: u64 },
    /// Every candidate failed; this is the last error.
    Failed(EngineError),
}

impl View for DispatchStep {
    type V = StepModel;

    open spec fn view(&self) -> StepModel {
        match self {
            DispatchStep::Attempt(c) => StepModel::Attempt(*c),
            DispatchStep::Succeeded { implementation, elapsed_ms } => StepModel::Succeeded(
                *implementation,
                *elapsed_ms,
            ),
            DispatchStep::Failed(e) => StepModel::Failed(e.kind, e.detail@),
        }
    }
}

/// The outcomes so far are well formed: no more than the candidates, and all
/// but the last are failures (the dispatcher stops at the first success).
pub open spec fn outcomes_ok(
    candidates: Seq<Implementation>,
    outcomes: Seq<Result<u64, EngineError>>,
) -> bool {
    &&& candidates.len() > 0
    &&& outcomes.len() <= candidates.len()
    &&& forall|k: int| 0 <= k < outcomes.len() - 1 ==> (#[trigger] outcomes[k]) is Err
}

/// The next step after the given outcomes.
pub open spec fn step_spec(
    candidates: Seq<Implementation>,
    outcomes: Seq<Result<u64, EngineError>>,
) -> StepModel {
    let n = outcomes.len();
    if n == 0 {
        StepModel::Attempt(candidates[0])
    } else {
        match outcomes[n - 1] {
            Ok(t) => StepModel::Succeeded(candidates[n - 1], t),
            Err(e) => if n < candidates.len() {
                StepModel::Attempt(candidates[n as int])
            } else {
                StepModel::Failed(e.kind, e.detail@)
            },
        }
    }
}

/// Decides the next step of a request from the outcomes of the attempts made
/// so far, one per candidate in order.
pub fn next_step(candidates: &Vec<Implementation>, outcomes: &Vec<Result<u64, EngineError>>) -> (r:
    DispatchStep)
    requires
        outcomes_ok(candidates@, outcomes@),
    ensures
        r@ == step_spec(candidates@, outcomes@),
{
    let n = outcomes.len();
    if n == 0 {
        return DispatchStep::Attempt(candidates[0]);
    }
    match &outcomes[n - 1] {
        Ok(t) => DispatchStep::Succeeded { implementation: candidates[n - 1], elapsed_ms: *t },
        Err(e) => {
            if n < candidates.len() {
                DispatchStep::Attempt(candidates[n])
            } else {
                DispatchStep::Failed(e.duplicate())
            }
        },
    }
}

/// When every attempt fails, the dispatcher asks for each candidate once, in
/// order, and then reports the last candidate's error: exactly as many
/// attempts as there are candidates.
pub proof fn lemma_exhaustion(
    candidates: Seq<Implementation>,
    outcomes: Seq<Result<u64, EngineError>>,
)
    requires
        candidates.len() > 0,
        outcomes.len() == candidates.len(),
        forall|k: int| 0 <= k < outcomes.len() ==> (#[trigger] outcomes[k]) is Err,
    ensures
        forall|k: int|
            0 <= k < candidates.len() ==> step_spec(candidates, #[trigger] outcomes.take(k))
                == StepModel::Attempt(candidates[k]),
        step_spec(candidates, outcomes) == StepModel::Failed(
            outcomes.last()->Err_0.kind,
            outcomes.last()->Err_0.detail@,
        ),
{
    assert forall|k: int| 0 <= k < candidates.len() implies step_spec(
        candidates,
        #[trigger] outcomes.take(k),
    ) == StepModel::Attempt(candidates[k]) by {
        if k > 0 {
            assert(outcomes.take(k)[k - 1] == outcomes[k - 1]);
            assert(outcomes[k - 1] is Err);
        }
    }
    assert(outcomes[outcomes.len() - 1] is Err);
}

/// With both channels offering the algorithm and both allowed, native first:
/// when the native attempt fails and the alternate one succeeds, the request
/// succeeds through the alternate channel.
pub proof fn lemma_fallback(e: EngineError, elapsed_ms: u64)
    ensures
        ({
            let c = candidates_spec(ImplSet { native: true, alternate: true }, true, true);
            &&& c == seq![Implementation::Native, Implementation::Alternate]
            &&& step_spec(c, seq![Err(e)]) == StepModel::Attempt(Implementation::Alternate)
            &&& step_spec(c, seq![Err(e), Ok(elapsed_ms)]) == StepModel::Succeeded(
                Implementation::Alternate,
                elapsed_ms,
            )
        }),
{
}

} // verus!
