//! Per-command adapter sessions.
//!
//! Each streaming command (pull, run, logs, exec) is driven by the binary as
//! a loop: await one event from the runtime, hand it to the step function
//! here, print the returned line on the returned channel, and follow the
//! returned directive. All decisions live here; the binary only performs the
//! calls.

use vstd::prelude::*;
use crate::output::created_line;
use crate::output::created_line_spec;
use crate::output::detached_line;
use crate::output::detached_line_spec;
use crate::output::log_line;
use crate::output::log_line_spec;
use crate::output::pull_status_line;
use crate::output::pull_status_line_spec;
use crate::output::started_line;
use crate::output::started_line_spec;

verus! {

/// What one `run` invocation hands to the runtime's create-container call:
/// the image, the `KEY=VALUE` environment entries, and the
/// `hostPath:containerPath` binds — each list only present when nonempty —
/// with a terminal allocated for the container.
pub struct RunSpec {
    pub image: String,
    pub env: Option<Vec<String>>,
    pub binds: Option<Vec<String>>,
    pub tty: bool,
}

/// How a [`RunSpec`] relates to the values parsed from the command line.
pub open spec fn matches_run_inputs(
    s: RunSpec,
    image: String,
    envs: Seq<String>,
    volumes: Seq<String>,
) -> bool {
    &&& s.image == image
    &&& (envs.len() == 0 ==> s.env is None)
    &&& (envs.len() > 0 ==> (s.env matches Some(e) && e@ == envs))
    &&& (volumes.len() == 0 ==> s.binds is None)
    &&& (volumes.len() > 0 ==> (s.binds matches Some(b) && b@ == volumes))
    &&& s.tty
}

pub fn build_run_spec(image: String, envs: Vec<String>, volumes: Vec<String>) -> (s: RunSpec)
    ensures
        matches_run_inputs(s, image, envs@, volumes@),
{
    let env = if envs.len() > 0 {
        Some(envs)
    } else {
        None
    };
    let binds = if volumes.len() > 0 {
        Some(volumes)
    } else {
        None
    };
    RunSpec { image, env, binds, tty: true }
}

/// What a listing asks of the runtime: every container, stopped ones
/// included.
pub struct ListRequest {
    pub all: bool,
}

pub fn build_list_request() -> (r: ListRequest)
    ensures
        r.all,
{
    ListRequest { all: true }
}

/// What a logs call asks of the runtime: both output streams, the full
/// history, kept open exactly when the follow flag was given.
pub struct LogsRequest {
    pub container_id: String,
    pub follow: bool,
    pub stdout: bool,
    pub stderr: bool,
    pub tail: String,
}

pub fn build_logs_request(container_id: String, follow: bool) -> (r: LogsRequest)
    ensures
        r.container_id == container_id,
        r.follow == follow,
        r.stdout,
        r.stderr,
        r.tail@ == "all"@,
{
    LogsRequest { container_id, follow, stdout: true, stderr: true, tail: "all".to_owned() }
}

/// What an exec-create call asks of the runtime: the command tokens as
/// given, both output streams attached, and no pseudo-terminal.
pub struct ExecRequest {
    pub container_id: String,
    pub cmd: Vec<String>,
    pub attach_stdout: bool,
    pub attach_stderr: bool,
    pub tty: bool,
}

pub fn build_exec_request(container_id: String, cmd: Vec<String>) -> (r: ExecRequest)
    ensures
        r.container_id == container_id,
        r.cmd@ == cmd@,
        r.attach_stdout,
        r.attach_stderr,
        !r.tty,
{
    ExecRequest { container_id, cmd, attach_stdout: true, attach_stderr: true, tty: false }
}

/// One line of output together with its channel: runtime responses go to
/// standard output, failures to standard error.
pub enum Emitted {
    ToStdout(String),
    ToStderr(String),
}

/// The mathematical shape of an emitted line.
pub enum EmitModel {
    ToStdout(Seq<char>),
    ToStderr(Seq<char>),
}

impl View for Emitted {
    type V = EmitModel;

    open spec fn view(&self) -> EmitModel {
        match self {
            Emitted::ToStdout(s) => EmitModel::ToStdout(s@),
            Emitted::ToStderr(s) => EmitModel::ToStderr(s@),
        }
    }
}

/// Where a `run` session stands: about to create, about to start, or over.
#[derive(Clone, Copy, PartialEq, Eq, Structural, Debug)]
pub enum RunPhase {
    Creating,
    Starting,
    Done,
    Failed,
}

/// What the runtime answered to the session's last call.
pub enum RunEvent {
    Created { id: String },
    Started,
    Failed { message: String },
}

/// What the binary must do next in a `run` session.
pub enum RunDirective {
    CallStart { id: String },
    Succeed,
    Abort,
}

/// The phases in which the session still awaits a runtime answer.
pub open spec fn run_live(phase: RunPhase) -> bool {
    phase is Creating || phase is Starting
}

/// The phase a `run` session moves to on an event.
pub open spec fn run_phase_after(event: RunEvent) -> RunPhase {
    match event {
        RunEvent::Created { .. } => RunPhase::Starting,
        RunEvent::Started => RunPhase::Done,
        RunEvent::Failed { .. } => RunPhase::Failed,
    }
}

/// The line a `run` session emits on an event, with its channel: a failure
/// goes to standard error, and only a successful start earns the started
/// line on standard output.
pub open spec fn run_emit_model(event: RunEvent) -> EmitModel {
    match event {
        RunEvent::Created { id } => EmitModel::ToStdout(created_line_spec(id@)),
        RunEvent::Started => EmitModel::ToStdout(started_line_spec()),
        RunEvent::Failed { message } => EmitModel::ToStderr(message@),
    }
}

/// One transition of a `run` session.
pub struct RunStep {
    pub phase: RunPhase,
    pub emit: Emitted,
    pub next: RunDirective,
}

/// Advance a `run` session by one runtime answer: create, then start, then
/// done; any failure ends the session with the failure line and no further
/// call. The caller only hands in events its own last call can produce.
pub fn run_step(phase: &RunPhase, event: RunEvent) -> (s: RunStep)
    requires
        run_live(*phase),
        *phase is Creating ==> !(event is Started),
        *phase is Starting ==> !(event is Created),
    ensures
        s.phase == run_phase_after(event),
        s.emit@ == run_emit_model(event),
        event matches RunEvent::Created { id } ==> (s.next matches RunDirective::CallStart {
            id: sid,
        } && sid == id),
        event is Started ==> s.next is Succeed,
        event is Failed ==> s.next is Abort,
{
    match event {
        RunEvent::Created { id } => {
            let line = created_line(id.as_str());
            RunStep {
                phase: RunPhase::Starting,
                emit: Emitted::ToStdout(line),
                next: RunDirective::CallStart { id },
            }
        },
        RunEvent::Started => RunStep {
            phase: RunPhase::Done,
            emit: Emitted::ToStdout(started_line()),
            next: RunDirective::Succeed,
        },
        RunEvent::Failed { message } => RunStep {
            phase: RunPhase::Failed,
            emit: Emitted::ToStderr(message),
            next: RunDirective::Abort,
        },
    }
}

/// One progress event of a pull: a status line when the event carries a
/// status, nothing otherwise.
pub fn pull_event_line(status: Option<String>) -> (r: Option<String>)
    ensures
        status matches Some(s) ==> (r matches Some(l) && l@ == pull_status_line_spec(s@)),
        status is None ==> r is None,
{
    match status {
        Some(s) => Some(pull_status_line(s.as_str())),
        None => None,
    }
}

/// One chunk of a log stream: the line to print and the decision to keep
/// consuming. The decision is unconditional — no chunk ends the stream — so
/// a followed stream only ever suspends awaiting the next chunk.
pub fn logs_step(chunk: &String) -> (r: (String, bool))
    ensures
        r.0@ == log_line_spec(chunk@),
        r.1,
{
    (log_line(chunk.as_str()), true)
}

/// The lines a finite prefix of a log stream produces, in arrival order.
pub open spec fn logs_lines_spec(chunks: Seq<String>) -> Seq<Seq<char>> {
    chunks.map_values(|c: String| log_line_spec(c@))
}

/// How the runtime answered a start-exec call.
pub enum ExecStartOutcome {
    Attached,
    Detached,
}

/// What the binary must do after starting an exec session.
pub enum ExecDirective {
    ReadOutput,
    Finish,
}

/// Decide what follows the start of an exec session: attached output is
/// streamed; a detached session gets exactly the notice and its output is
/// never read.
pub fn exec_start_step(outcome: &ExecStartOutcome) -> (r: (Option<String>, ExecDirective))
    ensures
        *outcome is Detached ==> (r.0 matches Some(l) && l@ == detached_line_spec() && r.1
            is Finish),
        *outcome is Attached ==> r.0 is None && r.1 is ReadOutput,
{
    match outcome {
        ExecStartOutcome::Attached => (None, ExecDirective::ReadOutput),
        ExecStartOutcome::Detached => (Some(detached_line()), ExecDirective::Finish),
    }
}

} // verus!
