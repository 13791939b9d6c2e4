//! One launch of the client, from request to report.
//!
//! Fetching the manifest and running the client are the caller's work. The
//! functions here make the decisions around it: whether a launch is admitted,
//! what it is started with, when the session slot is given back and what the
//! user is told.

use crate::account::{resolve_account, resolved, Account};
use crate::launch::{
    build_launch_parameters, launch_parameters, LaunchOptions, LaunchingParameter,
};
use crate::session::{SessionCall, SessionState, SessionSupervisor, state_after};
use tokio::sync::oneshot::Receiver;
use vstd::prelude::*;
use vstd::string::*;

verus! {

/// What a user asks for: a build, the account to play with and the options.
#[derive(Debug, PartialEq, Eq)]
pub struct LaunchRequest {
    pub build_id: i32,
    pub account: Account,
    pub options: LaunchOptions,
}

/// A launch that holds the session slot: what to start the client with, and
/// the receiver on which the client learns that it should stop.
#[derive(Debug)]
pub struct AdmittedLaunch {
    pub build_id: i32,
    pub parameters: LaunchingParameter,
    pub cancellation: Receiver<()>,
}

/// Why a launch did not run to its end.
#[derive(Debug, PartialEq, Eq)]
pub enum RunError {
    /// Another launch holds the session slot.
    AlreadyRunning,
    /// The manifest could not be had; the text says why.
    ExternalManifest(String),
    /// The client could not be started or failed; the text says why.
    ExternalLaunch(String),
}

/// The mathematical content of a [`RunError`].
pub enum RunErrorView {
    AlreadyRunning,
    ExternalManifest(Seq<char>),
    ExternalLaunch(Seq<char>),
}

impl View for RunError {
    type V = RunErrorView;

    open spec fn view(&self) -> RunErrorView {
        match *self {
            RunError::AlreadyRunning => RunErrorView::AlreadyRunning,
            RunError::ExternalManifest(detail) => RunErrorView::ExternalManifest(detail@),
            RunError::ExternalLaunch(detail) => RunErrorView::ExternalLaunch(detail@),
        }
    }
}

/// What the user reads for an error.
pub open spec fn error_message(error: RunErrorView) -> Seq<char> {
    match error {
        RunErrorView::AlreadyRunning => "client is already running"@,
        RunErrorView::ExternalManifest(detail) => "unable to request launch manifest: "@ + detail,
        RunErrorView::ExternalLaunch(detail) => "failed to launch client: "@ + detail,
    }
}

impl RunError {
    /// The message for the user, as [`error_message`] defines it.
    pub fn message(&self) -> (text: String)
        ensures
            text@ == error_message(self@),
    {
        match self {
            RunError::AlreadyRunning => "client is already running".to_owned(),
            RunError::ExternalManifest(detail) => {
                "unable to request launch manifest: ".to_owned().concat(detail.as_str())
            },
            RunError::ExternalLaunch(detail) => {
                "failed to launch client: ".to_owned().concat(detail.as_str())
            },
        }
    }
}

/// The outcome of outside work, as the flow reads it: done, or failed with a
/// description.
pub open spec fn outcome_view(outcome: Result<(), String>) -> Result<(), Seq<char>> {
    match outcome {
        Ok(_) => Ok(()),
        Err(detail) => Err(detail@),
    }
}

/// The report of a launch, by its content.
pub open spec fn report_view(report: Result<(), RunError>) -> Result<(), RunErrorView> {
    match report {
        Ok(_) => Ok(()),
        Err(error) => Err(error@),
    }
}

/// What is reported once the request for the manifest has ended: nothing
/// yet when the manifest is at hand, else the failure.
pub open spec fn manifest_report(outcome: Result<(), Seq<char>>) -> Result<(), RunErrorView> {
    match outcome {
        Ok(_) => Ok(()),
        Err(detail) => Err(RunErrorView::ExternalManifest(detail)),
    }
}

/// What is reported once the client has ended: success, or the failure.
pub open spec fn exit_report(outcome: Result<(), Seq<char>>) -> Result<(), RunErrorView> {
    match outcome {
        Ok(_) => Ok(()),
        Err(detail) => Err(RunErrorView::ExternalLaunch(detail)),
    }
}

/// Admits a launch or turns it away. While a launch holds the slot, asked
/// to stop or not, the request is refused and the supervisor left as it was. Otherwise the slot is claimed,
/// and the admitted launch carries the parameters that the request and the
/// host's memory determine.
pub fn admit_launch(
    supervisor: &mut SessionSupervisor,
    request: LaunchRequest,
    total_memory: u64,
) -> (admitted: Result<AdmittedLaunch, RunError>)
    ensures
        admitted is Ok <==> old(supervisor)@ == SessionState::Idle,
        final(supervisor)@ == SessionState::Running,
        admitted is Ok ==> final(supervisor).holds_sender(),
        admitted matches Err(error) ==> error@ == RunErrorView::AlreadyRunning,
        admitted is Err ==> *final(supervisor) == *old(supervisor),
        admitted matches Ok(launch) ==> launch.build_id == request.build_id
            && launch.parameters@ == launch_parameters(
            resolved(request.account@),
            request.options.memory_percentage as int,
            request.options.custom_runtime_path@,
            request.options.keep_window_open,
            total_memory as int,
        ),
{
    let LaunchRequest { build_id, account, options } = request;
    let credentials = resolve_account(account);
    let parameters = build_launch_parameters(credentials, options, total_memory);
    match supervisor.begin_session() {
        Ok(cancellation) => Ok(AdmittedLaunch { build_id, parameters, cancellation }),
        Err(_) => Err(RunError::AlreadyRunning),
    }
}

/// Takes in how the request for the manifest ended. With the manifest at
/// hand the launch goes on and keeps the slot; without it the slot is given
/// back and the failure reported.
pub fn manifest_arrived(supervisor: &mut SessionSupervisor, outcome: Result<(), String>) -> (report:
    Result<(), RunError>)
    ensures
        report_view(report) == manifest_report(outcome_view(outcome)),
        report is Ok ==> *final(supervisor) == *old(supervisor),
        report is Err ==> final(supervisor)@ == state_after(old(supervisor)@, SessionCall::End),
{
    match outcome {
        Ok(_) => Ok(()),
        Err(detail) => {
            supervisor.end_session();
            Err(RunError::ExternalManifest(detail))
        },
    }
}

/// Takes in how the client ended. The slot is given back whatever happened;
/// a failure is reported.
pub fn client_exited(supervisor: &mut SessionSupervisor, outcome: Result<(), String>) -> (report:
    Result<(), RunError>)
    ensures
        report_view(report) == exit_report(outcome_view(outcome)),
        final(supervisor)@ == state_after(old(supervisor)@, SessionCall::End),
{
    supervisor.end_session();
    match outcome {
        Ok(_) => Ok(()),
        Err(detail) => Err(RunError::ExternalLaunch(detail)),
    }
}

} // verus!
