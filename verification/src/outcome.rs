//! What a single "simulate transaction" call came back with, and its
//! classification. The benchmark's premise is that every call is
//! rejected with one specific validation-failure code; anything else is
//! a defect that must abort the whole run.

use vstd::prelude::*;

verus! {

/// The machine-readable code of the validation failure every call is
/// expected to produce (the remote evaluator's invalid-params code for
/// a transaction that fails to sanitize).
pub const EXPECTED_REJECTION_CODE: i64 = -32602;

/// What the remote evaluator answered to one simulation request.
pub enum SimOutcome {
    /// The request was accepted and simulated.
    Accepted,
    /// The request was rejected with a structured error.
    Rejected { code: i64, message: String },
}

/// How a single outcome bears on the run.
#[derive(Debug, PartialEq, Eq, Structural)]
pub enum Verdict {
    /// The expected validation failure: the success condition of a call.
    ExpectedRejection,
    /// The request was accepted: the benchmark's premise is broken.
    UnexpectedAcceptance,
    /// A rejection with some other code: a setup defect or a fault that
    /// would corrupt the timing comparison.
    UnexpectedError,
}

/// An outcome counts as the expected validation failure exactly when it
/// is a rejection carrying the expected code.
pub open spec fn is_expected_rejection(o: SimOutcome) -> bool {
    match o {
        SimOutcome::Accepted => false,
        SimOutcome::Rejected { code, message: _ } => code == EXPECTED_REJECTION_CODE,
    }
}

/// Classifies one call outcome against the benchmark's premise.
pub fn classify(o: &SimOutcome) -> (v: Verdict)
    ensures
        (v == Verdict::ExpectedRejection) == is_expected_rejection(*o),
        (v == Verdict::UnexpectedAcceptance) == (*o matches SimOutcome::Accepted),
        (v == Verdict::UnexpectedError) == (*o matches SimOutcome::Rejected { code, .. }
            && code != EXPECTED_REJECTION_CODE),
{
    match o {
        SimOutcome::Accepted => Verdict::UnexpectedAcceptance,
        SimOutcome::Rejected { code, message: _ } => {
            if *code == EXPECTED_REJECTION_CODE {
                Verdict::ExpectedRejection
            } else {
                Verdict::UnexpectedError
            }
        },
    }
}

} // verus!
