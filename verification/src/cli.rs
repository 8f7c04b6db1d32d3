//! The command line: where the tool's own arguments begin, and what a parsed line asks for.
use vstd::prelude::*;

use crate::fault::Fault;
use crate::provider::{ProviderKind, WireProtocol};
use crate::views::Views;

verus! {

/// The command line as it was parsed.
#[derive(Debug)]
pub struct Cli {
    /// The key to use, by id or name.
    pub key: Option<String>,
    /// The model to use.
    pub model: Option<String>,
    /// Print what would be started, and start nothing.
    pub dry_run: bool,
    /// Environment variables, each as `KEY=VALUE`.
    pub envs: Vec<String>,
    pub command: Option<Commands>,
    /// The tool to start.
    pub tool: Option<String>,
    /// The tool's own arguments.
    pub tool_args: Vec<String>,
}

/// A command that manages what is stored.
#[derive(Debug)]
pub enum Commands {
    Keys(KeysArgs),
    Models(ModelsArgs),
}

/// What starting a tool takes.
#[derive(Debug)]
pub struct LaunchArgs {
    pub tool: String,
    pub tool_args: Vec<String>,
    pub model: Option<String>,
    pub key: Option<String>,
    pub dry_run: bool,
    pub envs: Vec<String>,
}

/// The arguments of the command on keys.
#[derive(Debug)]
pub struct KeysArgs {
    /// What to do; the keys are listed where nothing is said.
    pub action: Option<String>,
    pub args: Vec<String>,
    pub name: Option<String>,
    pub base_url: Option<String>,
    pub key: Option<String>,
    pub provider: Option<ProviderKind>,
    pub wire: Option<WireProtocol>,
    pub preset: Option<String>,
    /// Fetch the catalog of models before a preset is looked up.
    pub refresh: bool,
    pub oauth_token: Option<String>,
    /// Ask every key's provider.
    pub all: bool,
    /// List the keys with what their providers answer.
    pub ping: bool,
    pub json: bool,
}

/// The arguments of the command on models.
#[derive(Debug)]
pub struct ModelsArgs {
    pub key: Option<String>,
    /// Pass over what was fetched before.
    pub refresh: bool,
    /// List only what holds this text.
    pub search: Option<String>,
    pub json: bool,
}

/// What a command line asks for.
#[derive(Debug)]
pub enum ParsedCommand {
    Launch(LaunchArgs),
    Keys(KeysArgs),
    Models(ModelsArgs),
}

pub struct CliV {
    pub key: Option<Seq<char>>,
    pub model: Option<Seq<char>>,
    pub dry_run: bool,
    pub envs: Seq<Seq<char>>,
    pub command: Option<CommandsV>,
    pub tool: Option<Seq<char>>,
    pub tool_args: Seq<Seq<char>>,
}

pub enum CommandsV {
    Keys(KeysArgsV),
    Models(ModelsArgsV),
}

pub struct LaunchArgsV {
    pub tool: Seq<char>,
    pub tool_args: Seq<Seq<char>>,
    pub model: Option<Seq<char>>,
    pub key: Option<Seq<char>>,
    pub dry_run: bool,
    pub envs: Seq<Seq<char>>,
}

pub struct KeysArgsV {
    pub action: Option<Seq<char>>,
    pub args: Seq<Seq<char>>,
    pub name: Option<Seq<char>>,
    pub base_url: Option<Seq<char>>,
    pub key: Option<Seq<char>>,
    pub provider: Option<ProviderKind>,
    pub wire: Option<WireProtocol>,
    pub preset: Option<Seq<char>>,
    pub refresh: bool,
    pub oauth_token: Option<Seq<char>>,
    pub all: bool,
    pub ping: bool,
    pub json: bool,
}

pub struct ModelsArgsV {
    pub key: Option<Seq<char>>,
    pub refresh: bool,
    pub search: Option<Seq<char>>,
    pub json: bool,
}

pub enum ParsedV {
    Launch(LaunchArgsV),
    Keys(KeysArgsV),
    Models(ModelsArgsV),
}

impl View for Cli {
    type V = CliV;

    open spec fn view(&self) -> CliV {
        CliV {
            key: self.key.views(),
            model: self.model.views(),
            dry_run: self.dry_run,
            envs: self.envs.views(),
            command: self.command.views(),
            tool: self.tool.views(),
            tool_args: self.tool_args.views(),
        }
    }
}

impl View for Commands {
    type V = CommandsV;

    open spec fn view(&self) -> CommandsV {
        match self {
            Commands::Keys(a) => CommandsV::Keys(a@),
            Commands::Models(a) => CommandsV::Models(a@),
        }
    }
}

impl View for LaunchArgs {
    type V = LaunchArgsV;

    open spec fn view(&self) -> LaunchArgsV {
        LaunchArgsV {
            tool: self.tool@,
            tool_args: self.tool_args.views(),
            model: self.model.views(),
            key: self.key.views(),
            dry_run: self.dry_run,
            envs: self.envs.views(),
        }
    }
}

impl View for KeysArgs {
    type V = KeysArgsV;

    open spec fn view(&self) -> KeysArgsV {
        KeysArgsV {
            action: self.action.views(),
            args: self.args.views(),
            name: self.name.views(),
            base_url: self.base_url.views(),
            key: self.key.views(),
            provider: self.provider,
            wire: self.wire,
            preset: self.preset.views(),
            refresh: self.refresh,
            oauth_token: self.oauth_token.views(),
            all: self.all,
            ping: self.ping,
            json: self.json,
        }
    }
}

impl View for ModelsArgs {
    type V = ModelsArgsV;

    open spec fn view(&self) -> ModelsArgsV {
        ModelsArgsV {
            key: self.key.views(),
            refresh: self.refresh,
            search: self.search.views(),
            json: self.json,
        }
    }
}

impl View for ParsedCommand {
    type V = ParsedV;

    open spec fn view(&self) -> ParsedV {
        match self {
            ParsedCommand::Launch(a) => ParsedV::Launch(a@),
            ParsedCommand::Keys(a) => ParsedV::Keys(a@),
            ParsedCommand::Models(a) => ParsedV::Models(a@),
        }
    }
}

/// What decides how a command line is read: the place of the tool's name, or a command.
#[derive(Debug, Clone, Copy, PartialEq, Eq, Structural)]
pub enum DispatchToken {
    Tool(usize),
    Command,
}

/// An option of the program that takes the next argument.
pub open spec fn takes_value(arg: Seq<char>) -> bool {
    arg == "-k"@ || arg == "--key"@ || arg == "-m"@ || arg == "--model"@ || arg == "-e"@ || arg
        == "--env"@
}

/// The name of a tool.
pub open spec fn names_tool(arg: Seq<char>) -> bool {
    arg == "codex"@ || arg == crate::names::claude() || arg == crate::names::kebab(
        crate::names::claude_code(),
    )
}

/// What the arguments from the `i`-th on hold first: a tool, a command, or neither where an
/// unknown word or the end comes before them. Options are passed over.
pub open spec fn dispatch_from(args: Seq<Seq<char>>, i: int) -> Option<DispatchToken>
    decreases args.len() - i + 1,
{
    if i < 0 || i >= args.len() {
        None
    } else if takes_value(args[i]) {
        dispatch_from(args, i + 2)
    } else if args[i] == "--dry-run"@ {
        dispatch_from(args, i + 1)
    } else if args[i] == "keys"@ || args[i] == "models"@ {
        Some(DispatchToken::Command)
    } else if names_tool(args[i]) {
        Some(DispatchToken::Tool(i as usize))
    } else if crate::text::begins(args[i], "-"@) {
        dispatch_from(args, i + 1)
    } else {
        None
    }
}

/// Finds what decides how the command line is read. The first argument is the program's name.
pub fn find_dispatch_token(args: &Vec<String>) -> (r: Option<DispatchToken>)
    ensures
        r == dispatch_from(args.views(), 1),
{
    let n: usize = args.len();
    let mut i: usize = 1;
    while i < n
        invariant
            n == args@.len(),
            1 <= i,
            dispatch_from(args.views(), 1) == dispatch_from(args.views(), i as int),
        decreases n - i,
    {
        assert(args.views()[i as int] == args@[i as int]@);
        let arg = args[i].as_str();
        if *arg == *"-k" || *arg == *"--key" || *arg == *"-m" || *arg == *"--model" || *arg == *"-e"
            || *arg == *"--env" {
            if n - i < 2 {
                assert(dispatch_from(args.views(), i + 2) is None);
                return None;
            }
            i = i + 2;
        } else if *arg == *"--dry-run" {
            i = i + 1;
        } else if *arg == *"keys" || *arg == *"models" {
            return Some(DispatchToken::Command);
        } else if *arg == *"codex" || *arg == *crate::names::claude_text() || *arg
            == *crate::names::kebab_text(crate::names::claude_code_ident()).as_str() {
            return Some(DispatchToken::Tool(i));
        } else if crate::text::starts_with(arg, "-") {
            i = i + 1;
        } else {
            return None;
        }
    }
    None
}

/// A command line cut behind the tool's name.
#[derive(Debug)]
pub struct CliSplit {
    /// What the program itself reads.
    pub own: Vec<String>,
    /// The tool's arguments, where a tool is named.
    pub tool_args: Option<Vec<String>>,
}

pub struct CliSplitV {
    pub own: Seq<Seq<char>>,
    pub tool_args: Option<Seq<Seq<char>>>,
}

impl View for CliSplit {
    type V = CliSplitV;

    open spec fn view(&self) -> CliSplitV {
        CliSplitV { own: self.own.views(), tool_args: crate::views::opt_list(self.tool_args) }
    }
}

/// A command line cut behind the tool's name; without a tool the program reads all of it.
pub open spec fn split_of(args: Seq<Seq<char>>) -> CliSplitV {
    match dispatch_from(args, 1) {
        Some(DispatchToken::Tool(i)) => CliSplitV {
            own: args.take(i + 1),
            tool_args: Some(args.skip(i + 1)),
        },
        _ => CliSplitV { own: args, tool_args: None },
    }
}

proof fn lemma_dispatch_within(args: Seq<Seq<char>>, i: int)
    requires
        0 <= i,
        args.len() <= usize::MAX,
    ensures
        dispatch_from(args, i) matches Some(DispatchToken::Tool(k)) ==> i <= k < args.len()
            && names_tool(args[k as int]),
    decreases args.len() - i + 1,
{
    if i < args.len() {
        lemma_dispatch_within(args, i + 1);
        lemma_dispatch_within(args, i + 2);
    }
}

/// Cuts a command line behind the tool's name.
pub fn split_args(args: &Vec<String>) -> (r: CliSplit)
    ensures
        r@ == split_of(args.views()),
{
    let n: usize = args.len();
    let token = find_dispatch_token(args);
    proof {
        lemma_dispatch_within(args.views(), 1);
    }
    match token {
        Some(DispatchToken::Tool(k)) => {
            let own = crate::text::clone_range(args, 0, k + 1);
            let rest = crate::text::clone_range(args, k + 1, n);
            assert(own.views() =~= args.views().take(k + 1));
            assert(rest.views() =~= args.views().skip(k + 1));
            CliSplit { own, tool_args: Some(rest) }
        },
        _ => CliSplit { own: crate::text::clone_all(args), tool_args: None },
    }
}

/// Nothing that follows the tool's name is read by the program, and nothing is lost: the two parts
/// put together are the command line, and the program's part ends with the tool's name.
pub proof fn lemma_split_keeps(args: Seq<Seq<char>>)
    requires
        args.len() <= usize::MAX,
    ensures
        match split_of(args).tool_args {
            Some(rest) => {
                &&& split_of(args).own + rest == args
                &&& split_of(args).own.len() > 1
                &&& names_tool(split_of(args).own.last())
            },
            None => split_of(args).own == args,
        },
{
    lemma_dispatch_within(args, 1);
    if let Some(DispatchToken::Tool(k)) = dispatch_from(args, 1) {
        assert(args.take(k + 1) + args.skip(k + 1) =~= args);
    }
}

/// The name of a management command.
pub open spec fn command_name(c: CommandsV) -> Seq<char> {
    match c {
        CommandsV::Keys(_) => "keys"@,
        CommandsV::Models(_) => "models"@,
    }
}

/// Why a management command does not go with the rest of the command line, if it does not.
pub open spec fn management_fault(cli: CliV, name: Seq<char>) -> Option<Seq<char>> {
    if cli.key is Some || cli.model is Some || cli.dry_run || cli.envs.len() > 0 {
        Some(
            "Launch options `-k`, `-m`, `--dry-run`, and `--env` are only valid when launching a tool, not with `swcli "@
                + name + " ...`."@,
        )
    } else if cli.tool is Some || cli.tool_args.len() > 0 {
        Some("Unexpected launch arguments for `swcli "@ + name + " ...`."@)
    } else {
        None
    }
}

/// Tells why a management command does not go with the rest of the command line.
pub fn reject_launch_options_for_management(cli: &Cli, command_name: &str) -> (r: Option<Fault>)
    ensures
        r.views() == management_fault(cli@, command_name@),
{
    if cli.key.is_some() || cli.model.is_some() || cli.dry_run || cli.envs.len() > 0 {
        return Some(
            Fault::about(
                "Launch options `-k`, `-m`, `--dry-run`, and `--env` are only valid when launching a tool, not with `swcli ",
                command_name,
                " ...`.",
            ),
        );
    }
    if cli.tool.is_some() || cli.tool_args.len() > 0 {
        return Some(
            Fault::about("Unexpected launch arguments for `swcli ", command_name, " ...`."),
        );
    }
    None
}

/// What a command line asks for.
pub open spec fn normalized(cli: CliV) -> Result<ParsedV, Seq<char>> {
    match cli.command {
        Some(c) => match management_fault(cli, command_name(c)) {
            Some(fault) => Err(fault),
            None => Ok(
                match c {
                    CommandsV::Keys(a) => ParsedV::Keys(a),
                    CommandsV::Models(a) => ParsedV::Models(a),
                },
            ),
        },
        None => match cli.tool {
            Some(tool) => Ok(
                ParsedV::Launch(
                    LaunchArgsV {
                        tool,
                        tool_args: cli.tool_args,
                        model: cli.model,
                        key: cli.key,
                        dry_run: cli.dry_run,
                        envs: cli.envs,
                    },
                ),
            ),
            None => Err("Missing tool. Use `swcli <tool> [args...]`."@),
        },
    }
}

/// Tells what a command line asks for.
pub fn normalize_cli(cli: Cli) -> (r: Result<ParsedCommand, Fault>)
    ensures
        r.views() == normalized(cli@),
{
    let name = match &cli.command {
        Some(Commands::Keys(_)) => Some("keys"),
        Some(Commands::Models(_)) => Some("models"),
        None => None,
    };
    if let Some(name) = name {
        if let Some(fault) = reject_launch_options_for_management(&cli, name) {
            return Err(fault);
        }
    }
    match cli.command {
        Some(Commands::Keys(args)) => Ok(ParsedCommand::Keys(args)),
        Some(Commands::Models(args)) => Ok(ParsedCommand::Models(args)),
        None => match cli.tool {
            Some(tool) => Ok(
                ParsedCommand::Launch(
                    LaunchArgs {
                        tool,
                        tool_args: cli.tool_args,
                        model: cli.model,
                        key: cli.key,
                        dry_run: cli.dry_run,
                        envs: cli.envs,
                    },
                ),
            ),
            None => Err(Fault::new("Missing tool. Use `swcli <tool> [args...]`.")),
        },
    }
}

/// A management command goes with no launch option and no tool: any of them is refused.
pub proof fn lemma_management_alone(cli: CliV)
    requires
        cli.command is Some,
    ensures
        normalized(cli) is Ok <==> cli.key is None && cli.model is None && !cli.dry_run
            && cli.envs.len() == 0 && cli.tool is None && cli.tool_args.len() == 0,
{
}

} // verus!
