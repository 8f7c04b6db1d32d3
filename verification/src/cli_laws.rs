//! What holds of how the command line is read.
use vstd::prelude::*;

use crate::cli::{CliV, CommandsV, DispatchToken, KeysArgsV, ModelsArgsV, ParsedV};

verus! {

/// The words in use differ.
proof fn lemma_words()
    ensures
        "-e"@.len() == 2,
        "-e"@[1] == 'e',
        "-k"@.len() == 2,
        "-k"@[1] == 'k',
        "-m"@.len() == 2,
        "-m"@[1] == 'm',
        "keys"@.len() == 4,
        "--env"@.len() == 5,
        "--env"@[2] == 'e',
        "--key"@.len() == 5,
        "--key"@[2] == 'k',
        "codex"@.len() == 5,
        "codex"@[2] == 'd',
        "models"@.len() == 6,
        "--model"@.len() == 7,
        "--dry-run"@.len() == 9,
{
    reveal_strlit("-e");
    reveal_strlit("-k");
    reveal_strlit("-m");
    reveal_strlit("keys");
    reveal_strlit("--env");
    reveal_strlit("--key");
    reveal_strlit("codex");
    reveal_strlit("models");
    reveal_strlit("--model");
    reveal_strlit("--dry-run");
}

/// Whether an argument is a flag that stands alone.
pub open spec fn lone_flag(arg: Seq<char>) -> bool {
    &&& crate::text::begins(arg, "-"@)
    &&& arg != "-k"@
    &&& arg != "--key"@
    &&& arg != "-m"@
    &&& arg != "--model"@
    &&& arg != "-e"@
    &&& arg != "--env"@
}

/// Whether an argument is a flag that the next argument belongs to.
pub open spec fn flag_with_value(arg: Seq<char>) -> bool {
    arg == "-k"@ || arg == "--key"@ || arg == "-m"@ || arg == "--model"@ || arg == "-e"@ || arg
        == "--env"@
}

proof fn lemma_not_a_flag(arg: Seq<char>)
    requires
        crate::text::begins(arg, "-"@),
    ensures
        arg != "keys"@,
        arg != "models"@,
        !crate::cli::names_tool(arg),
{
    reveal_strlit("-");
    reveal_strlit("keys");
    reveal_strlit("models");
    reveal_strlit("codex");
    assert(arg.subrange(0, 1)[0] == '-');
    lemma_tool_names(arg);
}

/// The tools by their names.
proof fn lemma_tool_names(arg: Seq<char>)
    ensures
        crate::cli::names_tool(arg) ==> arg.len() > 0 && arg[0] == 'c',
{
    reveal_strlit("codex");
    reveal_strlit("claude_code");
    crate::names::lemma_claude();
}

/// Flags before the tool are passed over, each with the value that belongs to it.
pub proof fn lemma_flags_passed(args: Seq<Seq<char>>, i: int)
    requires
        0 <= i < args.len(),
    ensures
        flag_with_value(args[i]) ==> crate::cli::dispatch_from(args, i)
            == crate::cli::dispatch_from(args, i + 2),
        lone_flag(args[i]) ==> crate::cli::dispatch_from(args, i) == crate::cli::dispatch_from(
            args,
            i + 1,
        ),
{
    if lone_flag(args[i]) {
        lemma_not_a_flag(args[i]);
    }
}

/// The first word that is no flag decides: a tool takes all arguments behind it, a command of the
/// program takes none away.
pub proof fn lemma_first_word(args: Seq<Seq<char>>, at: int)
    requires
        1 <= at < args.len(),
        forall|j: int| 1 <= j < at ==> lone_flag(#[trigger] args[j]),
    ensures
        crate::cli::names_tool(args[at]) && at <= usize::MAX ==> crate::cli::split_of(args).own == args.take(
            at + 1,
        ) && crate::cli::split_of(args).tool_args == Some(args.skip(at + 1)),
        args[at] == "keys"@ || args[at] == "models"@ ==> crate::cli::split_of(args).own == args
            && crate::cli::split_of(args).tool_args is None,
{
    lemma_words();
    lemma_passed_to(args, 1, at);
    lemma_tool_names(args[at]);
    reveal_strlit("-");
    reveal_strlit("-k");
    reveal_strlit("--key");
    reveal_strlit("-m");
    reveal_strlit("--model");
    reveal_strlit("-e");
    reveal_strlit("--env");
    reveal_strlit("--dry-run");
    reveal_strlit("keys");
    reveal_strlit("models");
}

proof fn lemma_passed_to(args: Seq<Seq<char>>, i: int, at: int)
    requires
        1 <= i <= at < args.len(),
        forall|j: int| 1 <= j < at ==> lone_flag(#[trigger] args[j]),
    ensures
        crate::cli::dispatch_from(args, i) == crate::cli::dispatch_from(args, at),
    decreases at - i,
{
    if i < at {
        lemma_flags_passed(args, i);
        lemma_passed_to(args, i + 1, at);
    }
}

proof fn lemma_dispatched(args: Seq<Seq<char>>, i: int)
    requires
        0 <= i,
        args.len() <= usize::MAX,
    ensures
        crate::cli::dispatch_from(args, i) matches Some(DispatchToken::Tool(at)) ==> i <= at
            < args.len() && crate::cli::names_tool(args[at as int]),
    decreases args.len() - i + 1,
{
    if i < args.len() {
        lemma_dispatched(args, i + 1);
        if i + 1 < args.len() {
            lemma_dispatched(args, i + 2);
        }
    }
}

/// Nothing on the command line is lost: what the program reads and what the tool gets are together
/// what was given, and what the program reads ends with the tool.
pub proof fn lemma_nothing_lost(args: Seq<Seq<char>>)
    requires
        args.len() <= usize::MAX,
    ensures
        ({
            let s = crate::cli::split_of(args);
            match s.tool_args {
                Some(rest) => s.own + rest == args && s.own.len() > 1 && crate::cli::names_tool(
                    s.own.last(),
                ),
                None => s.own == args,
            }
        }),
{
    lemma_dispatched(args, 1);
    if let Some(DispatchToken::Tool(i)) = crate::cli::dispatch_from(args, 1) {
        assert(args.take(i + 1) + args.skip(i + 1) =~= args);
        assert(args.take(i + 1).last() == args[i as int]);
    }
}

/// A tool is started with just what the command line says: its name, its arguments, the model, the
/// key, the environment, and whether to only show it.
pub proof fn lemma_launch(cli: CliV, tool: Seq<char>)
    requires
        cli.command is None,
        cli.tool == Some(tool),
    ensures
        match crate::cli::normalized(cli) {
            Ok(ParsedV::Launch(a)) => {
                &&& a.tool == tool
                &&& a.tool_args == cli.tool_args
                &&& a.model == cli.model
                &&& a.key == cli.key
                &&& a.dry_run == cli.dry_run
                &&& a.envs == cli.envs
            },
            _ => false,
        },
{
}

/// A command of the program is carried out as it was given, and only where nothing that belongs to
/// a tool stands before it.
pub proof fn lemma_command(cli: CliV, keys: KeysArgsV, models: ModelsArgsV)
    ensures
        ({
            let clean = cli.key is None && cli.model is None && !cli.dry_run && cli.envs.len() == 0
                && cli.tool is None && cli.tool_args.len() == 0;
            &&& cli.command == Some(CommandsV::Keys(keys)) && clean ==> crate::cli::normalized(cli)
                == Ok::<ParsedV, Seq<char>>(ParsedV::Keys(keys))
            &&& cli.command == Some(CommandsV::Models(models)) && clean ==> crate::cli::normalized(
                cli,
            ) == Ok::<ParsedV, Seq<char>>(ParsedV::Models(models))
            &&& cli.command is Some && !clean ==> crate::cli::normalized(cli) is Err
            &&& cli.command is None && cli.tool is None ==> crate::cli::normalized(cli) is Err
        }),
{
}

} // verus!
