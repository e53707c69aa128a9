use sim_bench::batch::partition_across_workers;
use sim_bench::batch::run_async_batch;
use sim_bench::batch::run_sync_batch;
use sim_bench::batch::BatchResult;
use sim_bench::batch::BatchRun;
use sim_bench::batch::StepAction;
use sim_bench::batch::TX_SIMS;
use sim_bench::outcome::classify;
use sim_bench::outcome::SimOutcome;
use sim_bench::outcome::Verdict;
use sim_bench::outcome::EXPECTED_REJECTION_CODE;
use sim_bench::request::build_request;
use sim_bench::request::fresh_request;
use sim_bench::request::sanitize;
use sim_bench::request::SimRequest;

fn expected_rejection() -> SimOutcome {
    SimOutcome::Rejected {
        code: EXPECTED_REJECTION_CODE,
        message: String::from(
            "invalid transaction: Transaction failed to sanitize accounts offsets correctly",
        ),
    }
}

fn all_expected(n: usize) -> Vec<SimOutcome> {
    let mut v = Vec::new();
    for _ in 0..n {
        v.push(expected_rejection());
    }
    v
}

#[test]
fn factory_request_is_semantically_invalid() {
    let r = fresh_request();
    assert_eq!(r.program_target.len(), 32);
    assert!(r.instruction_data.is_empty());
    assert_eq!(r.account_metas, 0);
    assert_eq!(r.num_signers, 0);
    assert!(!r.has_recent_blockhash);
    assert!(!sanitize(&r));
}

#[test]
fn factory_targets_are_fresh() {
    let a = fresh_request();
    let b = fresh_request();
    assert_ne!(a.program_target, b.program_target);
}

#[test]
fn build_request_keeps_target() {
    let r = build_request(vec![7u8; 32]);
    assert_eq!(r.program_target, vec![7u8; 32]);
    assert!(!sanitize(&r));
}

#[test]
fn sanitize_accepts_signed_envelope() {
    let r = SimRequest {
        program_target: vec![1u8; 32],
        instruction_data: Vec::new(),
        account_metas: 0,
        num_signers: 1,
        has_recent_blockhash: true,
    };
    assert!(sanitize(&r));
}

#[test]
fn classify_expected_rejection() {
    assert_eq!(classify(&expected_rejection()), Verdict::ExpectedRejection);
}

#[test]
fn classify_unexpected_acceptance() {
    assert_eq!(classify(&SimOutcome::Accepted), Verdict::UnexpectedAcceptance);
}

#[test]
fn classify_unexpected_error_code() {
    let o = SimOutcome::Rejected {
        code: -32005,
        message: String::from("rate limited"),
    };
    assert_eq!(classify(&o), Verdict::UnexpectedError);
}

#[test]
fn sync_runner_all_expected_pool_one() {
    let n = TX_SIMS as usize;
    let outcomes = all_expected(n);
    assert_eq!(run_sync_batch(&outcomes, 1), BatchResult::Completed { progress: n });
}

#[test]
fn sync_runner_progress_independent_of_pool_size() {
    let n = TX_SIMS as usize;
    let outcomes = all_expected(n);
    for pool in 1..=n {
        assert_eq!(run_sync_batch(&outcomes, pool), BatchResult::Completed { progress: n });
    }
}

#[test]
fn async_runner_all_expected() {
    let n = TX_SIMS as usize;
    let outcomes = all_expected(n);
    assert_eq!(run_async_batch(&outcomes), BatchResult::Completed { progress: n });
}

#[test]
fn sync_runner_aborts_on_unexpected_success() {
    let n = TX_SIMS as usize;
    let mut outcomes = all_expected(n);
    outcomes[7] = SimOutcome::Accepted;
    assert_eq!(
        run_sync_batch(&outcomes, 1),
        BatchResult::Aborted { defect_index: 7, progress: 7 }
    );
}

#[test]
fn async_runner_aborts_on_unexpected_success() {
    let n = TX_SIMS as usize;
    let mut outcomes = all_expected(n);
    outcomes[7] = SimOutcome::Accepted;
    assert_eq!(
        run_async_batch(&outcomes),
        BatchResult::Aborted { defect_index: 7, progress: 7 }
    );
}

#[test]
fn runner_aborts_on_unexpected_error_code() {
    let mut outcomes = all_expected(4);
    outcomes[2] = SimOutcome::Rejected {
        code: -32005,
        message: String::from("rate limited"),
    };
    assert_eq!(
        run_sync_batch(&outcomes, 2),
        BatchResult::Aborted { defect_index: 2, progress: 2 }
    );
}

#[test]
fn empty_batch_completes_immediately() {
    let outcomes = all_expected(0);
    assert_eq!(run_sync_batch(&outcomes, 1), BatchResult::Completed { progress: 0 });
    assert_eq!(run_async_batch(&outcomes), BatchResult::Completed { progress: 0 });
}

#[test]
fn partition_spreads_calls_evenly() {
    assert_eq!(partition_across_workers(16, 5), vec![4, 3, 3, 3, 3]);
    assert_eq!(partition_across_workers(16, 1), vec![16]);
    assert_eq!(partition_across_workers(0, 3), vec![0, 0, 0]);
    let parts = partition_across_workers(16, 16);
    assert_eq!(parts.iter().sum::<usize>(), 16);
}

#[test]
fn batch_run_advances_once_per_expected_outcome() {
    let mut run = BatchRun::new(2);
    assert!(!run.is_complete());
    assert_eq!(run.on_outcome(&expected_rejection()), StepAction::AdvanceProgress);
    assert_eq!(run.completed, 1);
    assert!(!run.is_complete());
    assert_eq!(run.on_outcome(&expected_rejection()), StepAction::AdvanceProgress);
    assert_eq!(run.completed, 2);
    assert!(run.is_complete());
}

#[test]
fn batch_run_aborts_on_defect() {
    let mut run = BatchRun::new(1);
    assert_eq!(run.on_outcome(&SimOutcome::Accepted), StepAction::AbortRun);
    assert_eq!(run.completed, 0);
    assert!(run.aborted);
    assert!(!run.is_complete());
}
