//! The command router.
//!
//! `parse_args` turns the raw process arguments (everything after the program
//! name) into a typed [`Command`], or into a [`UsageError`] naming the
//! offending token, without any side effect. `dispatch` then selects the one
//! runtime call that serves the command; a usage error never reaches a
//! runtime call.

use vstd::prelude::*;
use vstd::string::StringExecFns;
use crate::session::RunSpec;
use crate::session::build_run_spec;
use crate::session::matches_run_inputs;

verus! {

/// A fully parsed invocation: one variant per subcommand, carrying exactly
/// the values read from the arguments.
pub enum Command {
    List,
    Pull { image: String },
    Run { image: String, envs: Vec<String>, volumes: Vec<String> },
    Stop { container_id: String },
    Logs { container_id: String, follow: bool },
    Exec { container_id: String, cmd: Vec<String> },
}

/// The mathematical shape of a parsed invocation: sequences in place of
/// vectors.
pub enum CommandModel {
    List,
    Pull { image: String },
    Run { image: String, envs: Seq<String>, volumes: Seq<String> },
    Stop { container_id: String },
    Logs { container_id: String, follow: bool },
    Exec { container_id: String, cmd: Seq<String> },
}

impl View for Command {
    type V = CommandModel;

    open spec fn view(&self) -> CommandModel {
        match self {
            Command::List => CommandModel::List,
            Command::Pull { image } => CommandModel::Pull { image: *image },
            Command::Run { image, envs, volumes } => CommandModel::Run {
                image: *image,
                envs: envs@,
                volumes: volumes@,
            },
            Command::Stop { container_id } => CommandModel::Stop { container_id: *container_id },
            Command::Logs { container_id, follow } => CommandModel::Logs {
                container_id: *container_id,
                follow: *follow,
            },
            Command::Exec { container_id, cmd } => CommandModel::Exec {
                container_id: *container_id,
                cmd: cmd@,
            },
        }
    }
}

/// Which required value an invocation lacked.
#[derive(Clone, Copy, PartialEq, Eq, Structural, Debug)]
pub enum MissingKind {
    Subcommand,
    Image,
    ContainerId,
    EnvValue,
    VolumeValue,
    ExecCommand,
}

/// A malformed invocation, caught before any runtime call.
pub enum UsageError {
    Missing { what: MissingKind },
    UnknownSubcommand { token: String },
    UnexpectedToken { token: String },
}

/// What `run` accepts after the image: `-e`/`--env VALUE` and
/// `--volume VALUE`, each repeatable, in any order.
pub open spec fn parse_run_rest(
    args: Seq<String>,
    i: int,
    image: String,
    envs: Seq<String>,
    volumes: Seq<String>,
) -> Result<CommandModel, UsageError>
    decreases args.len() - i,
{
    if i >= args.len() {
        Ok(CommandModel::Run { image, envs, volumes })
    } else if args[i]@ == "-e"@ || args[i]@ == "--env"@ {
        if i + 1 >= args.len() {
            Err(UsageError::Missing { what: MissingKind::EnvValue })
        } else {
            parse_run_rest(args, i + 2, image, envs.push(args[i + 1]), volumes)
        }
    } else if args[i]@ == "--volume"@ {
        if i + 1 >= args.len() {
            Err(UsageError::Missing { what: MissingKind::VolumeValue })
        } else {
            parse_run_rest(args, i + 2, image, envs, volumes.push(args[i + 1]))
        }
    } else {
        Err(UsageError::UnexpectedToken { token: args[i] })
    }
}

/// The grammar of the command line, as a function from the argument sequence
/// to the command it denotes or the usage error that refuses it.
pub open spec fn parse_spec(args: Seq<String>) -> Result<CommandModel, UsageError> {
    if args.len() == 0 {
        Err(UsageError::Missing { what: MissingKind::Subcommand })
    } else if args[0]@ == "ls"@ {
        if args.len() == 1 {
            Ok(CommandModel::List)
        } else {
            Err(UsageError::UnexpectedToken { token: args[1] })
        }
    } else if args[0]@ == "pull"@ {
        if args.len() < 2 {
            Err(UsageError::Missing { what: MissingKind::Image })
        } else if args.len() > 2 {
            Err(UsageError::UnexpectedToken { token: args[2] })
        } else {
            Ok(CommandModel::Pull { image: args[1] })
        }
    } else if args[0]@ == "run"@ {
        if args.len() < 2 {
            Err(UsageError::Missing { what: MissingKind::Image })
        } else {
            parse_run_rest(args, 2, args[1], Seq::empty(), Seq::empty())
        }
    } else if args[0]@ == "stop"@ {
        if args.len() < 2 {
            Err(UsageError::Missing { what: MissingKind::ContainerId })
        } else if args.len() > 2 {
            Err(UsageError::UnexpectedToken { token: args[2] })
        } else {
            Ok(CommandModel::Stop { container_id: args[1] })
        }
    } else if args[0]@ == "logs"@ {
        if args.len() < 2 {
            Err(UsageError::Missing { what: MissingKind::ContainerId })
        } else if args.len() == 2 {
            Ok(CommandModel::Logs { container_id: args[1], follow: false })
        } else if args[2]@ == "-f"@ || args[2]@ == "--follow"@ {
            if args.len() == 3 {
                Ok(CommandModel::Logs { container_id: args[1], follow: true })
            } else {
                Err(UsageError::UnexpectedToken { token: args[3] })
            }
        } else {
            Err(UsageError::UnexpectedToken { token: args[2] })
        }
    } else if args[0]@ == "exec"@ {
        if args.len() < 2 {
            Err(UsageError::Missing { what: MissingKind::ContainerId })
        } else if args.len() < 3 {
            Err(UsageError::Missing { what: MissingKind::ExecCommand })
        } else if args[2]@ != "--"@ {
            Err(UsageError::UnexpectedToken { token: args[2] })
        } else if args.len() == 3 {
            Err(UsageError::Missing { what: MissingKind::ExecCommand })
        } else {
            Ok(CommandModel::Exec { container_id: args[1], cmd: args.skip(3) })
        }
    } else {
        Err(UsageError::UnknownSubcommand { token: args[0] })
    }
}

/// The parse result, with the command replaced by its mathematical shape.
pub open spec fn parse_result_view(r: Result<Command, UsageError>) -> Result<
    CommandModel,
    UsageError,
> {
    match r {
        Ok(c) => Ok(c@),
        Err(e) => Err(e),
    }
}

fn tok_is(s: &String, lit: &str) -> (r: bool)
    ensures
        r == (s@ == lit@),
{
    let owned: String = lit.to_owned();
    *s == owned
}

/// Parse the process arguments (after the program name) into a command, or
/// refuse them with a usage error naming the offending token. Pure: no side
/// effect, no runtime call.
pub fn parse_args(args: &Vec<String>) -> (r: Result<Command, UsageError>)
    ensures
        parse_result_view(r) == parse_spec(args@),
{
    if args.len() == 0 {
        return Err(UsageError::Missing { what: MissingKind::Subcommand });
    }
    let sub = &args[0];
    if tok_is(sub, "ls") {
        if args.len() == 1 {
            Ok(Command::List)
        } else {
            Err(UsageError::UnexpectedToken { token: args[1].clone() })
        }
    } else if tok_is(sub, "pull") {
        if args.len() < 2 {
            Err(UsageError::Missing { what: MissingKind::Image })
        } else if args.len() > 2 {
            Err(UsageError::UnexpectedToken { token: args[2].clone() })
        } else {
            Ok(Command::Pull { image: args[1].clone() })
        }
    } else if tok_is(sub, "run") {
        parse_run(args)
    } else if tok_is(sub, "stop") {
        if args.len() < 2 {
            Err(UsageError::Missing { what: MissingKind::ContainerId })
        } else if args.len() > 2 {
            Err(UsageError::UnexpectedToken { token: args[2].clone() })
        } else {
            Ok(Command::Stop { container_id: args[1].clone() })
        }
    } else if tok_is(sub, "logs") {
        if args.len() < 2 {
            Err(UsageError::Missing { what: MissingKind::ContainerId })
        } else if args.len() == 2 {
            Ok(Command::Logs { container_id: args[1].clone(), follow: false })
        } else if tok_is(&args[2], "-f") || tok_is(&args[2], "--follow") {
            if args.len() == 3 {
                Ok(Command::Logs { container_id: args[1].clone(), follow: true })
            } else {
                Err(UsageError::UnexpectedToken { token: args[3].clone() })
            }
        } else {
            Err(UsageError::UnexpectedToken { token: args[2].clone() })
        }
    } else if tok_is(sub, "exec") {
        parse_exec(args)
    } else {
        Err(UsageError::UnknownSubcommand { token: args[0].clone() })
    }
}

/// The `run` arm of the parse: image first, then the repeatable flags.
fn parse_run(args: &Vec<String>) -> (r: Result<Command, UsageError>)
    requires
        args@.len() >= 1,
        args@[0]@ == "run"@,
        !(args@[0]@ == "ls"@),
        !(args@[0]@ == "pull"@),
    ensures
        parse_result_view(r) == parse_spec(args@),
{
    if args.len() < 2 {
        return Err(UsageError::Missing { what: MissingKind::Image });
    }
    let image = args[1].clone();
    let mut envs: Vec<String> = Vec::new();
    let mut volumes: Vec<String> = Vec::new();
    let mut i: usize = 2;
    while i < args.len()
        invariant
            2 <= i <= args@.len(),
            args@.len() >= 2,
            parse_run_rest(args@, i as int, args@[1], envs@, volumes@) == parse_spec(args@),
            image == args@[1],
        decreases args@.len() - i,
    {
        let tok = &args[i];
        if tok_is(tok, "-e") || tok_is(tok, "--env") {
            if i + 1 >= args.len() {
                return Err(UsageError::Missing { what: MissingKind::EnvValue });
            }
            envs.push(args[i + 1].clone());
            i = i + 2;
        } else if tok_is(tok, "--volume") {
            if i + 1 >= args.len() {
                return Err(UsageError::Missing { what: MissingKind::VolumeValue });
            }
            volumes.push(args[i + 1].clone());
            i = i + 2;
        } else {
            return Err(UsageError::UnexpectedToken { token: tok.clone() });
        }
    }
    Ok(Command::Run { image, envs, volumes })
}

/// The `exec` arm of the parse: identifier, a literal `--`, then the command
/// tokens.
fn parse_exec(args: &Vec<String>) -> (r: Result<Command, UsageError>)
    requires
        args@.len() >= 1,
        args@[0]@ == "exec"@,
        !(args@[0]@ == "ls"@),
        !(args@[0]@ == "pull"@),
        !(args@[0]@ == "run"@),
        !(args@[0]@ == "stop"@),
        !(args@[0]@ == "logs"@),
    ensures
        parse_result_view(r) == parse_spec(args@),
{
    if args.len() < 2 {
        return Err(UsageError::Missing { what: MissingKind::ContainerId });
    }
    if args.len() < 3 {
        return Err(UsageError::Missing { what: MissingKind::ExecCommand });
    }
    if !tok_is(&args[2], "--") {
        return Err(UsageError::UnexpectedToken { token: args[2].clone() });
    }
    if args.len() == 3 {
        return Err(UsageError::Missing { what: MissingKind::ExecCommand });
    }
    let container_id = args[1].clone();
    let mut cmd: Vec<String> = Vec::new();
    let mut j: usize = 3;
    while j < args.len()
        invariant
            3 <= j <= args@.len(),
            cmd@ == args@.subrange(3, j as int),
        decreases args@.len() - j,
    {
        cmd.push(args[j].clone());
        j = j + 1;
        proof {
            assert(cmd@ =~= args@.subrange(3, j as int));
        }
    }
    proof {
        assert(cmd@ =~= args@.skip(3));
    }
    Ok(Command::Exec { container_id, cmd })
}

/// The phrase naming a missing required value in a usage message.
pub open spec fn missing_name_spec(what: MissingKind) -> Seq<char> {
    match what {
        MissingKind::Subcommand => "subcommand"@,
        MissingKind::Image => "image"@,
        MissingKind::ContainerId => "container_id"@,
        MissingKind::EnvValue => "env value"@,
        MissingKind::VolumeValue => "volume value"@,
        MissingKind::ExecCommand => "command"@,
    }
}

fn missing_name(what: &MissingKind) -> (r: String)
    ensures
        r@ == missing_name_spec(*what),
{
    match what {
        MissingKind::Subcommand => "subcommand".to_owned(),
        MissingKind::Image => "image".to_owned(),
        MissingKind::ContainerId => "container_id".to_owned(),
        MissingKind::EnvValue => "env value".to_owned(),
        MissingKind::VolumeValue => "volume value".to_owned(),
        MissingKind::ExecCommand => "command".to_owned(),
    }
}

/// The line reported for a refused invocation, naming what was wrong.
pub open spec fn usage_message_spec(e: UsageError) -> Seq<char> {
    match e {
        UsageError::Missing { what } => "usage error: missing required "@ + missing_name_spec(
            what,
        ),
        UsageError::UnknownSubcommand { token } => "usage error: unknown subcommand '"@ + token@
            + "'"@,
        UsageError::UnexpectedToken { token } => "usage error: unexpected argument '"@ + token@
            + "'"@,
    }
}

pub fn usage_message(e: &UsageError) -> (r: String)
    ensures
        r@ == usage_message_spec(*e),
{
    match e {
        UsageError::Missing { what } => "usage error: missing required ".to_owned().concat(
            missing_name(what).as_str(),
        ),
        UsageError::UnknownSubcommand { token } => "usage error: unknown subcommand '".to_owned()
            .concat(token.as_str()).concat("'"),
        UsageError::UnexpectedToken { token } => "usage error: unexpected argument '".to_owned()
            .concat(token.as_str()).concat("'"),
    }
}

/// The one thing the program does for a parse result: exactly one runtime
/// call per command, or a usage report and no runtime call at all.
pub enum Dispatch {
    CallListContainers,
    CallPullImage { image: String },
    CallCreateContainer { spec: RunSpec },
    CallStopContainer { container_id: String },
    CallFetchLogs { container_id: String, follow: bool },
    CallCreateExec { container_id: String, cmd: Vec<String> },
    ReportUsage { line: String },
}

/// Select the single handler for a parse result. A usage error becomes a
/// report and nothing else: no runtime call is attempted for it.
pub fn dispatch(parsed: Result<Command, UsageError>) -> (d: Dispatch)
    ensures
        parsed matches Err(e) ==> (d matches Dispatch::ReportUsage { line } && line@
            == usage_message_spec(e)),
        parsed matches Ok(c) ==> !(d is ReportUsage),
        parsed matches Ok(Command::List) ==> d is CallListContainers,
        parsed matches Ok(Command::Pull { image }) ==> (d matches Dispatch::CallPullImage {
            image: im,
        } && im == image),
        parsed matches Ok(Command::Run { image, envs, volumes }) ==> (d
            matches Dispatch::CallCreateContainer { spec } && matches_run_inputs(
            spec,
            image,
            envs@,
            volumes@,
        )),
        parsed matches Ok(Command::Stop { container_id }) ==> (d
            matches Dispatch::CallStopContainer { container_id: c } && c == container_id),
        parsed matches Ok(Command::Logs { container_id, follow }) ==> (d
            matches Dispatch::CallFetchLogs { container_id: c, follow: f } && c == container_id
            && f == follow),
        parsed matches Ok(Command::Exec { container_id, cmd }) ==> (d
            matches Dispatch::CallCreateExec { container_id: c, cmd: cm } && c == container_id
            && cm@ == cmd@),
{
    match parsed {
        Ok(Command::List) => Dispatch::CallListContainers,
        Ok(Command::Pull { image }) => Dispatch::CallPullImage { image },
        Ok(Command::Run { image, envs, volumes }) => Dispatch::CallCreateContainer {
            spec: build_run_spec(image, envs, volumes),
        },
        Ok(Command::Stop { container_id }) => Dispatch::CallStopContainer { container_id },
        Ok(Command::Logs { container_id, follow }) => Dispatch::CallFetchLogs {
            container_id,
            follow,
        },
        Ok(Command::Exec { container_id, cmd }) => Dispatch::CallCreateExec { container_id, cmd },
        Err(e) => Dispatch::ReportUsage { line: usage_message(&e) },
    }
}

} // verus!
