use zk_withdraw::{
    advance, check_silent, proof_from_calldata_output, start, Action, CalldataError,
    ProcessOutcome, ProveError, Step, U256,
};

fn exited(success: bool, stdout: &[u8], stderr: &[u8]) -> ProcessOutcome {
    ProcessOutcome::Exited { success, stdout: stdout.to_vec(), stderr: stderr.to_vec() }
}

#[test]
fn silent_success_passes() {
    assert_eq!(check_silent(Step::GenerateWitness, &exited(true, b"", b"")), Ok(()));
}

#[test]
fn noisy_stdout_fails_even_on_success() {
    assert_eq!(
        check_silent(Step::GenerateWitness, &exited(true, b"done", b"")),
        Err(ProveError::UnexpectedOutput(Step::GenerateWitness))
    );
}

#[test]
fn noisy_stderr_fails_even_on_success() {
    assert_eq!(
        check_silent(Step::Prove, &exited(true, b"", b"warning")),
        Err(ProveError::UnexpectedOutput(Step::Prove))
    );
}

#[test]
fn failed_exit_fails() {
    assert_eq!(
        check_silent(Step::Prove, &exited(false, b"", b"")),
        Err(ProveError::ExitFailure(Step::Prove))
    );
}

#[test]
fn launch_failure_fails() {
    assert_eq!(
        check_silent(Step::GenerateWitness, &ProcessOutcome::NotLaunched),
        Err(ProveError::LaunchFailed(Step::GenerateWitness))
    );
}

#[test]
fn run_goes_through_the_steps() {
    assert!(matches!(start(), Action::Run(Step::GenerateWitness)));
    assert!(matches!(
        advance(Step::GenerateWitness, exited(true, b"", b"")),
        Action::Run(Step::Prove)
    ));
    assert!(matches!(advance(Step::Prove, exited(true, b"", b"")), Action::Run(Step::ExportCalldata)));
    let out = b"[\"1\", \"2\"],[[\"3\", \"4\"],[\"5\", \"6\"]],[\"7\", \"8\"],[\"a\"]\n";
    match advance(Step::ExportCalldata, exited(true, out, b"")) {
        Action::Finish(p) => {
            assert_eq!(p.c, [U256::from_u64(7), U256::from_u64(8)]);
            assert_eq!(p.public, vec![U256::from_u64(10)]);
        }
        other => panic!("unexpected {:?}", other),
    }
}

#[test]
fn noisy_prover_aborts() {
    assert!(matches!(
        advance(Step::Prove, exited(true, b"log line", b"")),
        Action::Abort(ProveError::UnexpectedOutput(Step::Prove))
    ));
}

#[test]
fn export_not_launched_aborts() {
    assert!(matches!(
        advance(Step::ExportCalldata, ProcessOutcome::NotLaunched),
        Action::Abort(ProveError::LaunchFailed(Step::ExportCalldata))
    ));
}

#[test]
fn calldata_output_must_be_utf8() {
    assert_eq!(
        proof_from_calldata_output(vec![0xff, 0xfe]).unwrap_err(),
        ProveError::CalldataNotUtf8
    );
}

#[test]
fn calldata_output_errors_are_wrapped() {
    assert_eq!(
        proof_from_calldata_output(b"1,2,3".to_vec()).unwrap_err(),
        ProveError::Calldata(CalldataError::TooFewWords(3))
    );
}
