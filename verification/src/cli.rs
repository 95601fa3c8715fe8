//! The decisions of the `nia` command line launcher: which log filter to
//! install, what a command line asks for, and where the player is installed.

use vstd::prelude::*;
use vstd::string::*;

verus! {

/// The subcommands of the launcher.
pub enum Command {
    Login { server: String, username: String, password: String },
    NowPlaying { server: String },
}

/// A parsed command line.
pub struct Args {
    pub command: Option<Command>,
    pub debug: bool,
    pub foreground: bool,
    pub version: bool,
}

/// What a command line asks the launcher to do.
#[derive(Clone, Copy, Debug, PartialEq, Eq, Structural)]
pub enum CliAction {
    /// Print the version string.
    PrintVersion,
    /// Run the player and wait for it.
    RunForeground,
    /// Start the player in the background and return.
    Launch,
    /// Nothing: the subcommands do no work yet.
    Idle,
}

/// The log filter to install.
pub enum LogFilter {
    /// Read the filter from the `RUST_LOG` environment variable.
    FromEnv,
    /// Use these filter directives.
    Directives(String),
}

/// What `args` asks for: the version flag wins; without a subcommand the
/// player runs in the foreground or is launched; a subcommand does nothing.
pub open spec fn cli_action_spec(args: &Args) -> CliAction {
    if args.version {
        CliAction::PrintVersion
    } else {
        match args.command {
            None => if args.foreground {
                CliAction::RunForeground
            } else {
                CliAction::Launch
            },
            Some(_) => CliAction::Idle,
        }
    }
}

/// The version flag wins over everything else on the command line: with
/// `--version` the launcher only prints its version, whatever subcommand or
/// `--foreground` flag is given; without it, a subcommand does nothing and
/// no subcommand starts the player, in the foreground exactly where
/// `--foreground` is given.
pub proof fn lemma_cli_action(args: Args)
    ensures
        args.version ==> cli_action_spec(&args) == CliAction::PrintVersion,
        !args.version && args.command is Some ==> cli_action_spec(&args) == CliAction::Idle,
        !args.version && args.command is None ==> (cli_action_spec(&args)
            == CliAction::RunForeground) == args.foreground,
        !args.version && args.command is None ==> (cli_action_spec(&args) == CliAction::Launch)
            == !args.foreground,
{
}

/// What a command line asks the launcher to do.
pub fn cli_action(args: &Args) -> (action: CliAction)
    ensures
        action == cli_action_spec(args),
        args.version ==> action == CliAction::PrintVersion,
        !args.version && args.command is Some ==> action == CliAction::Idle,
        !args.version && args.command is None && args.foreground ==> action == CliAction::RunForeground,
        !args.version && args.command is None && !args.foreground ==> action == CliAction::Launch,
{
    if args.version {
        return CliAction::PrintVersion;
    }
    match &args.command {
        None => if args.foreground {
            CliAction::RunForeground
        } else {
            CliAction::Launch
        },
        Some(_) => CliAction::Idle,
    }
}

/// The log filter: `RUST_LOG` where it is set, else debug output of the
/// launcher where `--debug` is given, else `info`.
pub open spec fn log_filter_spec(rust_log_set: bool, debug: bool) -> Option<Seq<char>> {
    if rust_log_set {
        None
    } else if debug {
        Some("nia_cli=debug"@)
    } else {
        Some("info"@)
    }
}

/// A set `RUST_LOG` always decides the log filter; otherwise `--debug`
/// turns on the launcher's debug output and its absence keeps `info`.
pub proof fn lemma_log_filter(rust_log_set: bool, debug: bool)
    ensures
        rust_log_set ==> log_filter_spec(rust_log_set, debug) is None,
        !rust_log_set && debug ==> log_filter_spec(rust_log_set, debug) == Some("nia_cli=debug"@),
        !rust_log_set && !debug ==> log_filter_spec(rust_log_set, debug) == Some("info"@),
{
}

/// The log filter to install; `None` of the spec stands for `FromEnv`.
pub fn log_filter(rust_log_set: bool, debug: bool) -> (filter: LogFilter)
    ensures
        match filter {
            LogFilter::FromEnv => log_filter_spec(rust_log_set, debug) is None,
            LogFilter::Directives(d) => log_filter_spec(rust_log_set, debug) == Some(d@),
        },
        rust_log_set ==> filter is FromEnv,
        !rust_log_set && debug ==> (filter matches LogFilter::Directives(d) && d@ == "nia_cli=debug"@),
        !rust_log_set && !debug ==> (filter matches LogFilter::Directives(d) && d@ == "info"@),
{
    if rust_log_set {
        LogFilter::FromEnv
    } else if debug {
        LogFilter::Directives(String::from_str("nia_cli=debug"))
    } else {
        LogFilter::Directives(String::from_str("info"))
    }
}

/// The version that the launcher reports.
pub open spec fn version_string_spec() -> Seq<char> {
    "nia v2026.4-alpha"@
}

/// The version that the launcher reports.
pub fn version_string() -> (v: String)
    ensures
        v@ == version_string_spec(),
        v@ == "nia v2026.4-alpha"@,
{
    String::from_str("nia v2026.4-alpha")
}

/// Where the player may be installed, relative to the launcher's directory,
/// in the order they are tried.
pub open spec fn install_locations_spec() -> Seq<Seq<char>> {
    seq!["../libexec/nia-music"@, "../lib/nia/nia-music"@, "./nia"@]
}

/// Where the player may be installed, in the order they are tried.
pub fn install_locations() -> (locations: Vec<String>)
    ensures
        locations@.map_values(|s: String| s@) == install_locations_spec(),
{
    let mut locations: Vec<String> = Vec::new();
    locations.push(String::from_str("../libexec/nia-music"));
    locations.push(String::from_str("../lib/nia/nia-music"));
    locations.push(String::from_str("./nia"));
    assert(locations@.map_values(|s: String| s@) =~= install_locations_spec());
    locations
}

/// The texts of `list` joined by `sep`.
pub open spec fn join_spec(list: Seq<Seq<char>>, sep: Seq<char>) -> Seq<char>
    decreases list.len(),
{
    if list.len() == 0 {
        Seq::empty()
    } else if list.len() == 1 {
        list[0]
    } else {
        join_spec(list.drop_last(), sep) + sep + list.last()
    }
}

/// The texts of `list` joined by `sep`.
pub fn join(list: &Vec<String>, sep: &str) -> (joined: String)
    ensures
        joined@ == join_spec(list@.map_values(|s: String| s@), sep@),
{
    let ghost texts = list@.map_values(|s: String| s@);
    let mut joined = String::new();
    let mut i: usize = 0;
    while i < list.len()
        invariant
            i <= list.len(),
            texts == list@.map_values(|s: String| s@),
            joined@ == join_spec(texts.take(i as int), sep@),
        decreases list.len() - i,
    {
        assert(texts.take(i + 1).drop_last() =~= texts.take(i as int));
        if i != 0 {
            joined.append(sep);
        }
        joined.append(list[i].as_str());
        i = i + 1;
    }
    assert(texts.take(list.len() as int) =~= texts);
    joined
}

/// The error when the player is found at none of its locations.
pub open spec fn missing_install_message_spec() -> Seq<char> {
    "could not find any of: "@ + join_spec(install_locations_spec(), ", "@)
}

/// The error for a missing player names every location, in the order they
/// are tried, separated by commas.
pub proof fn lemma_missing_install_message()
    ensures
        missing_install_message_spec() == "could not find any of: "@ + "../libexec/nia-music"@
            + ", "@ + "../lib/nia/nia-music"@ + ", "@ + "./nia"@,
{
    let l = install_locations_spec();
    assert(l.drop_last().drop_last() =~= seq!["../libexec/nia-music"@]);
    assert(l.drop_last() =~= seq!["../libexec/nia-music"@, "../lib/nia/nia-music"@]);
    assert(join_spec(l.drop_last().drop_last(), ", "@) == "../libexec/nia-music"@);
    assert(join_spec(l.drop_last(), ", "@) == "../libexec/nia-music"@ + ", "@
        + "../lib/nia/nia-music"@);
    assert(join_spec(l, ", "@) == "../libexec/nia-music"@ + ", "@ + "../lib/nia/nia-music"@ + ", "@
        + "./nia"@);
    assert(missing_install_message_spec() =~= "could not find any of: "@ + "../libexec/nia-music"@
        + ", "@ + "../lib/nia/nia-music"@ + ", "@ + "./nia"@);
}

/// The error when the player is found at none of its locations.
pub fn missing_install_message() -> (message: String)
    ensures
        message@ == missing_install_message_spec(),
        message@ == "could not find any of: "@ + "../libexec/nia-music"@ + ", "@
            + "../lib/nia/nia-music"@ + ", "@ + "./nia"@,
{
    proof {
        lemma_missing_install_message();
    }
    let locations = install_locations();
    let list = join(&locations, ", ");
    let mut message = String::from_str("could not find any of: ");
    message.append(list.as_str());
    message
}

/// A location is usable where it resolved to a path other than the
/// launcher's own.
pub open spec fn usable_location(resolved: Option<Seq<char>>, cli: Seq<char>) -> bool {
    resolved matches Some(p) && p != cli
}

/// The resolved locations as text.
pub open spec fn resolved_view(resolved: Seq<Option<String>>) -> Seq<Option<Seq<char>>> {
    resolved.map_values(|o: Option<String>| crate::subsonic::opt_text(o))
}

/// Picks the player's location: the first location that resolved to a path
/// other than the launcher's own `cli`. `resolved[i]` is the canonical path
/// of location `i`, or `None` where it does not exist.
pub fn pick_install_location(resolved: &Vec<Option<String>>, cli: &String) -> (picked: Option<usize>)
    ensures
        match picked {
            Some(i) => {
                &&& i < resolved.len()
                &&& usable_location(resolved_view(resolved@)[i as int], cli@)
                &&& forall|j: int|
                    0 <= j < i ==> !usable_location(#[trigger] resolved_view(resolved@)[j], cli@)
            },
            None => forall|j: int|
                0 <= j < resolved.len() ==> !usable_location(
                    #[trigger] resolved_view(resolved@)[j],
                    cli@,
                ),
        },
{
    let mut i: usize = 0;
    while i < resolved.len()
        invariant
            i <= resolved.len(),
            forall|j: int|
                0 <= j < i ==> !usable_location(#[trigger] resolved_view(resolved@)[j], cli@),
        decreases resolved.len() - i,
    {
        assert(resolved_view(resolved@)[i as int] == crate::subsonic::opt_text(resolved@[i as int]));
        match &resolved[i] {
            Some(path) => {
                if !path.eq(cli) {
                    return Some(i);
                }
            },
            None => {},
        }
        i = i + 1;
    }
    None
}

} // verus!
