//! Properties of the library, stated and proved on their own.
//!
//! Each proof function here records a guarantee that spans the specs of the
//! router and the sessions, so a reader sees it stated rather than having to
//! derive it from the contracts.

use vstd::prelude::*;
use crate::output::created_line_spec;
use crate::output::started_line_spec;
use crate::router::CommandModel;
use crate::router::UsageError;
use crate::router::parse_run_rest;
use crate::router::parse_spec;
use crate::session::EmitModel;
use crate::session::RunEvent;
use crate::session::RunPhase;
use crate::session::logs_lines_spec;
use crate::session::run_emit_model;
use crate::session::run_phase_after;

verus! {

/// The six subcommand tokens are pairwise distinct, so the grammar's
/// branches never shadow one another.
proof fn lemma_subcommand_literals_distinct()
    ensures
        "pull"@ != "ls"@,
        "run"@ != "ls"@,
        "run"@ != "pull"@,
        "stop"@ != "ls"@,
        "stop"@ != "pull"@,
        "stop"@ != "run"@,
        "logs"@ != "ls"@,
        "logs"@ != "pull"@,
        "logs"@ != "run"@,
        "logs"@ != "stop"@,
        "exec"@ != "ls"@,
        "exec"@ != "pull"@,
        "exec"@ != "run"@,
        "exec"@ != "stop"@,
        "exec"@ != "logs"@,
{
    reveal_strlit("ls");
    reveal_strlit("pull");
    reveal_strlit("run");
    reveal_strlit("stop");
    reveal_strlit("logs");
    reveal_strlit("exec");
    assert("pull"@[0] == 'p' && "stop"@[0] == 's' && "logs"@[0] == 'l' && "exec"@[0] == 'e');
    assert("pull"@.len() == 4 && "ls"@.len() == 2 && "run"@.len() == 3 && "stop"@.len() == 4
        && "logs"@.len() == 4 && "exec"@.len() == 4);
}

/// A valid `ls` invocation parses to exactly `List`.
pub proof fn lemma_parse_ls_valid(args: Seq<String>)
    requires
        args.len() == 1,
        args[0]@ == "ls"@,
    ensures
        parse_spec(args) == Ok::<CommandModel, UsageError>(CommandModel::List),
{
}

/// A valid `pull` invocation parses to exactly `Pull` with the given image.
pub proof fn lemma_parse_pull_valid(args: Seq<String>)
    requires
        args.len() == 2,
        args[0]@ == "pull"@,
    ensures
        parse_spec(args) == Ok::<CommandModel, UsageError>(CommandModel::Pull { image: args[1] }),
{
    lemma_subcommand_literals_distinct();
}

/// A `run` invocation with only an image parses to exactly `Run` with that
/// image and empty environment and volume lists.
pub proof fn lemma_parse_run_plain_valid(args: Seq<String>)
    requires
        args.len() == 2,
        args[0]@ == "run"@,
    ensures
        parse_spec(args) == Ok::<CommandModel, UsageError>(
            CommandModel::Run { image: args[1], envs: Seq::empty(), volumes: Seq::empty() },
        ),
{
    lemma_subcommand_literals_distinct();
}

/// A `run` invocation with one environment entry and one volume bind parses
/// to exactly `Run` with those two values and nothing else.
pub proof fn lemma_parse_run_env_volume_valid(args: Seq<String>)
    requires
        args.len() == 6,
        args[0]@ == "run"@,
        args[2]@ == "-e"@,
        args[4]@ == "--volume"@,
    ensures
        parse_spec(args) == Ok::<CommandModel, UsageError>(
            CommandModel::Run {
                image: args[1],
                envs: Seq::empty().push(args[3]),
                volumes: Seq::empty().push(args[5]),
            },
        ),
{
    lemma_subcommand_literals_distinct();
    reveal_strlit("-e");
    reveal_strlit("--env");
    reveal_strlit("--volume");
    assert("--volume"@.len() == 8 && "-e"@.len() == 2 && "--env"@.len() == 5);
    let envs1 = Seq::<String>::empty().push(args[3]);
    let vols1 = Seq::<String>::empty().push(args[5]);
    assert(parse_run_rest(args, 6, args[1], envs1, vols1) == Ok::<CommandModel, UsageError>(
        CommandModel::Run { image: args[1], envs: envs1, volumes: vols1 },
    ));
    assert(parse_run_rest(args, 4, args[1], envs1, Seq::empty()) == parse_run_rest(
        args,
        6,
        args[1],
        envs1,
        vols1,
    ));
    assert(parse_run_rest(args, 2, args[1], Seq::empty(), Seq::empty()) == parse_run_rest(
        args,
        4,
        args[1],
        envs1,
        Seq::empty(),
    ));
}

/// A valid `stop` invocation parses to exactly `Stop` with the given
/// identifier.
pub proof fn lemma_parse_stop_valid(args: Seq<String>)
    requires
        args.len() == 2,
        args[0]@ == "stop"@,
    ensures
        parse_spec(args) == Ok::<CommandModel, UsageError>(
            CommandModel::Stop { container_id: args[1] },
        ),
{
    lemma_subcommand_literals_distinct();
}

/// A valid `logs` invocation parses to exactly `Logs`, with the follow flag
/// set precisely when the flag token is present.
pub proof fn lemma_parse_logs_valid(args: Seq<String>)
    requires
        args[0]@ == "logs"@,
        args.len() == 2 || (args.len() == 3 && (args[2]@ == "-f"@ || args[2]@ == "--follow"@)),
    ensures
        parse_spec(args) == Ok::<CommandModel, UsageError>(
            CommandModel::Logs { container_id: args[1], follow: args.len() == 3 },
        ),
{
    lemma_subcommand_literals_distinct();
}

/// A valid `exec` invocation parses to exactly `Exec` with the given
/// identifier and every token after `--` as the command, in order.
pub proof fn lemma_parse_exec_valid(args: Seq<String>)
    requires
        args.len() >= 4,
        args[0]@ == "exec"@,
        args[2]@ == "--"@,
    ensures
        parse_spec(args) == Ok::<CommandModel, UsageError>(
            CommandModel::Exec { container_id: args[1], cmd: args.skip(3) },
        ),
{
    lemma_subcommand_literals_distinct();
}

/// An invocation with no subcommand, or a subcommand that requires a value
/// given without one, is refused with a usage error for the missing value —
/// so the router never selects a runtime call for it.
pub proof fn lemma_missing_required_value_refused(args: Seq<String>)
    requires
        args.len() == 0 || (args.len() == 1 && (args[0]@ == "pull"@ || args[0]@ == "run"@
            || args[0]@ == "stop"@ || args[0]@ == "logs"@ || args[0]@ == "exec"@)),
    ensures
        parse_spec(args) matches Err(e) && e is Missing,
{
    lemma_subcommand_literals_distinct();
}

/// The started line appears on standard output only for a successful start
/// event: neither a creation answer nor any failure can emit it, so a run
/// whose creation the runtime rejects never prints it.
pub proof fn lemma_started_line_only_after_start(event: RunEvent)
    ensures
        run_emit_model(event) == EmitModel::ToStdout(started_line_spec()) ==> event is Started,
{
    reveal_strlit("Created container with ID: ");
    reveal_strlit("Container started successfully!");
    match event {
        RunEvent::Created { id } => {
            assert("Created container with ID: "@.len() == 27);
            assert(created_line_spec(id@)[1] == 'r');
            assert(started_line_spec()[1] == 'o');
            assert(created_line_spec(id@) != started_line_spec());
        },
        _ => {},
    }
}

/// A failure event in a run session goes to standard error and ends the
/// session in its failed phase.
pub proof fn lemma_run_failure_goes_to_stderr(event: RunEvent)
    ensures
        event is Failed ==> run_emit_model(event) is ToStderr,
        event is Failed ==> run_phase_after(event) == RunPhase::Failed,
{
}

/// Log lines are produced chunk by chunk: the lines for the first `n`
/// chunks are exactly the first `n` lines for the whole stream, so a
/// followed stream needs nothing beyond the chunks that have arrived.
pub proof fn lemma_logs_lines_prefix(chunks: Seq<String>, n: int)
    requires
        0 <= n <= chunks.len(),
    ensures
        logs_lines_spec(chunks.take(n)) == logs_lines_spec(chunks).take(n),
{
    assert(logs_lines_spec(chunks.take(n)) =~= logs_lines_spec(chunks).take(n));
}

} // verus!

