use vstd::prelude::*;
use vstd::utf8::{decode_utf8, valid_utf8};

use crate::calldata::{parse_calldata, parsed, CalldataError, Proof};

verus! {

/// The external tool runs of one proving run, in order.
#[derive(Clone, Copy, Debug, PartialEq, Eq, Structural)]
pub enum Step {
    /// The witness generator: input document to witness file.
    GenerateWitness,
    /// The backend's prover: parameters and witness to proof and public inputs.
    Prove,
    /// The backend's calldata export of the proof and public inputs.
    ExportCalldata,
}

/// What running an external tool gave.
#[derive(Clone, Debug)]
pub enum ProcessOutcome {
    /// The process could not be started.
    NotLaunched,
    /// The process ran to its end.
    Exited { success: bool, stdout: Vec<u8>, stderr: Vec<u8> },
}

#[derive(Clone, Copy, Debug, PartialEq, Eq, Structural)]
pub enum ProveError {
    /// The tool of this step could not be started.
    LaunchFailed(Step),
    /// The tool of this step exited unsuccessfully.
    ExitFailure(Step),
    /// The tool of this step wrote to stdout or stderr.
    UnexpectedOutput(Step),
    /// The calldata export did not write UTF-8.
    CalldataNotUtf8,
    /// The calldata export's text is not a proof.
    Calldata(CalldataError),
}

/// What the driver of a proving run does next.
#[derive(Clone, Debug)]
pub enum Action {
    Run(Step),
    Finish(Proof),
    Abort(ProveError),
}

/// The silent-success rule: a tool succeeded when it started, wrote
/// nothing to stdout or stderr, and exited successfully. Output is
/// reported first, then the exit status.
pub open spec fn silent_check(step: Step, o: ProcessOutcome) -> Result<(), ProveError> {
    match o {
        ProcessOutcome::NotLaunched => Err(ProveError::LaunchFailed(step)),
        ProcessOutcome::Exited { success, stdout, stderr } => {
            if stdout@.len() > 0 || stderr@.len() > 0 {
                Err(ProveError::UnexpectedOutput(step))
            } else if !success {
                Err(ProveError::ExitFailure(step))
            } else {
                Ok(())
            }
        },
    }
}

pub open spec fn next_step(step: Step) -> Step {
    match step {
        Step::GenerateWitness => Step::Prove,
        _ => Step::ExportCalldata,
    }
}

/// Applies the silent-success rule to the outcome of `step`.
pub fn check_silent(step: Step, o: &ProcessOutcome) -> (r: Result<(), ProveError>)
    ensures
        r == silent_check(step, *o),
        (o matches ProcessOutcome::Exited { stdout, stderr, .. } && (stdout@.len() > 0
            || stderr@.len() > 0)) ==> r == Err::<(), ProveError>(ProveError::UnexpectedOutput(step)),
{
    match o {
        ProcessOutcome::NotLaunched => Err(ProveError::LaunchFailed(step)),
        ProcessOutcome::Exited { success, stdout, stderr } => {
            if stdout.len() > 0 || stderr.len() > 0 {
                Err(ProveError::UnexpectedOutput(step))
            } else if !*success {
                Err(ProveError::ExitFailure(step))
            } else {
                Ok(())
            }
        },
    }
}

/// Relies on `String::from_utf8`, which accepts exactly the valid UTF-8
/// byte strings and decodes them.
#[verifier::external_body]
fn utf8_text(b: Vec<u8>) -> (r: Option<String>)
    ensures
        r is Some <==> valid_utf8(b@),
        r matches Some(s) ==> s@ == decode_utf8(b@),
{
    String::from_utf8(b).ok()
}

/// Reads the calldata export's stdout into a proof.
pub fn proof_from_calldata_output(stdout: Vec<u8>) -> (r: Result<Proof, ProveError>)
    ensures
        !valid_utf8(stdout@) ==> r == Err::<Proof, ProveError>(ProveError::CalldataNotUtf8),
        valid_utf8(stdout@) ==> (r matches Ok(p) ==> parsed(
            decode_utf8(stdout@),
            Ok::<Proof, CalldataError>(p),
        )),
        valid_utf8(stdout@) ==> (r matches Err(e) ==> e matches ProveError::Calldata(ce) && parsed(
            decode_utf8(stdout@),
            Err::<Proof, CalldataError>(ce),
        )),
{
    match utf8_text(stdout) {
        None => Err(ProveError::CalldataNotUtf8),
        Some(text) => match parse_calldata(text.as_str()) {
            Ok(p) => Ok(p),
            Err(e) => Err(ProveError::Calldata(e)),
        },
    }
}

/// The first action of a proving run.
pub fn start() -> (a: Action)
    ensures
        a == Action::Run(Step::GenerateWitness),
{
    Action::Run(Step::GenerateWitness)
}

/// Decides what follows the outcome of `step`. The witness generator and
/// the prover must succeed silently; the calldata export must start, and
/// its stdout is parsed into the proof.
pub fn advance(step: Step, outcome: ProcessOutcome) -> (a: Action)
    ensures
        step != Step::ExportCalldata ==> a == match silent_check(step, outcome) {
            Ok(_) => Action::Run(next_step(step)),
            Err(e) => Action::Abort(e),
        },
        step == Step::ExportCalldata && outcome is NotLaunched ==> a == Action::Abort(
            ProveError::LaunchFailed(Step::ExportCalldata),
        ),
        step == Step::ExportCalldata ==> (outcome matches ProcessOutcome::Exited { stdout, .. } ==> {
            &&& !valid_utf8(stdout@) ==> a == Action::Abort(ProveError::CalldataNotUtf8)
            &&& valid_utf8(stdout@) ==> (a is Finish || a matches Action::Abort(ProveError::Calldata(_)))
            &&& a matches Action::Finish(p) ==> parsed(
                decode_utf8(stdout@),
                Ok::<Proof, CalldataError>(p),
            )
            &&& a matches Action::Abort(ProveError::Calldata(ce)) ==> parsed(
                decode_utf8(stdout@),
                Err::<Proof, CalldataError>(ce),
            )
        }),
{
    match step {
        Step::ExportCalldata => match outcome {
            ProcessOutcome::NotLaunched => Action::Abort(ProveError::LaunchFailed(step)),
            ProcessOutcome::Exited { stdout, .. } => match proof_from_calldata_output(stdout) {
                Ok(p) => Action::Finish(p),
                Err(e) => Action::Abort(e),
            },
        },
        _ => match check_silent(step, &outcome) {
            Ok(()) => Action::Run(
                match step {
                    Step::GenerateWitness => Step::Prove,
                    _ => Step::ExportCalldata,
                },
            ),
            Err(e) => Action::Abort(e),
        },
    }
}

} // verus!
