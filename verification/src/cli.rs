use vstd::prelude::*;

use crate::env_map::{env_lookup, env_value, opt_str_view, EnvMap};
use crate::error::CliError;
use crate::text::str_eq;

verus! {

/// The usage text that `-h` and `--help` print.
pub const HELP: &'static str = "evgl-cli 0.1.0

Usage: evgl-cli [options] <command>

Commands:
  health            Check the Evento Globolo API
  list              List events
  get               Read one event; requires --id
  providers         List supported providers
  connections       List provider connections
  connect-start     Start an OAuth connection
  connect-manual    Create a manual Craigslist or webhook connection
  create-event      Create a canonical event
  cross-post        Cross-post an event to a provider target
  job               Read a cross-post job
  watch             Stream a job (with --job-id) or the API event stream

Options:
  -h, --help       Print this help
  -V, --version    Print the CLI version

Configuration flags are defined in .cli-flags.toml.
EVGL_TOKEN is environment-only and has no CLI flag.
";

/// The line that `-V` and `--version` print: the package's name and version.
pub const VERSION: &'static str = "evgl-cli 0.1.0\n";

/// Whether an argument asks for the help.
pub open spec fn is_help_flag(a: Seq<char>) -> bool {
    a == "-h"@ || a == "--help"@
}

/// Whether an argument asks for the version.
pub open spec fn is_version_flag(a: Seq<char>) -> bool {
    a == "-V"@ || a == "--version"@
}

/// What the first informational flag among `args` asks to print: the help
/// for `-h` or `--help`, the version for `-V` or `--version`; nothing when
/// no argument is one of these.
pub open spec fn informational_spec(args: Seq<Seq<char>>) -> Option<Seq<char>>
    decreases args.len(),
{
    if args.len() == 0 {
        None
    } else if is_help_flag(args[0]) {
        Some(HELP@)
    } else if is_version_flag(args[0]) {
        Some(VERSION@)
    } else {
        informational_spec(args.drop_first())
    }
}

/// The characters of each argument.
pub open spec fn args_view(args: Seq<&str>) -> Seq<Seq<char>> {
    args.map_values(|a: &str| a@)
}

/// The text to print for the first of `arguments` that asks for help or for
/// the version, without reading any configuration.
pub fn informational_output(arguments: &[&str]) -> (r: Option<&'static str>)
    ensures
        opt_str_view(r) == informational_spec(args_view(arguments@)),
        r matches Some(t) ==> t == HELP || t == VERSION,
{
    let n = arguments.len();
    let mut i: usize = 0;
    assert(args_view(arguments@).subrange(0, n as int) =~= args_view(arguments@));
    while i < n
        invariant
            n == arguments@.len(),
            i <= n,
            informational_spec(args_view(arguments@)) == informational_spec(
                args_view(arguments@).subrange(i as int, n as int),
            ),
        decreases n - i,
    {
        let a = arguments[i];
        let ghost rest = args_view(arguments@).subrange(i as int, n as int);
        assert(rest[0] == a@);
        assert(rest.drop_first() =~= args_view(arguments@).subrange(i + 1, n as int));
        if str_eq(a, "-h") || str_eq(a, "--help") {
            return Some(HELP);
        }
        if str_eq(a, "-V") || str_eq(a, "--version") {
            return Some(VERSION);
        }
        i = i + 1;
    }
    None
}

/// Help and version need no configuration: the first argument that asks
/// for either decides what is printed, whatever the other arguments are.
pub proof fn law_first_informational_flag_decides(args: Seq<Seq<char>>, i: int)
    requires
        0 <= i < args.len(),
        is_help_flag(args[i]) || is_version_flag(args[i]),
        forall|j: int| 0 <= j < i ==> !is_help_flag(#[trigger] args[j]) && !is_version_flag(args[j]),
    ensures
        informational_spec(args) == Some(if is_help_flag(args[i]) { HELP@ } else { VERSION@ }),
    decreases i,
{
    if i > 0 {
        let rest = args.drop_first();
        assert(rest[i - 1] == args[i]);
        assert forall|j: int| 0 <= j < i - 1 implies !is_help_flag(#[trigger] rest[j])
            && !is_version_flag(rest[j]) by {
            assert(rest[j] == args[j + 1]);
        }
        assert(!is_help_flag(args[0]) && !is_version_flag(args[0]));
        law_first_informational_flag_decides(rest, i - 1);
    }
}

/// Whether `output` names an output mode: `json` or `text`.
pub open spec fn is_output_mode(output: Seq<char>) -> bool {
    output == "json"@ || output == "text"@
}

/// Accepts the output modes `json` and `text` and refuses every other.
pub fn validate_output(output: &str) -> (r: Result<(), CliError>)
    ensures
        is_output_mode(output@) ==> r is Ok,
        !is_output_mode(output@) ==> r matches Err(CliError::InvalidOutput),
{
    if str_eq(output, "json") || str_eq(output, "text") {
        Ok(())
    } else {
        Err(CliError::InvalidOutput)
    }
}

/// What a command asks the tool to do.
#[derive(Debug, PartialEq, Eq)]
pub enum Action {
    /// `health`, `list` or `get`: a plain GET against the API.
    Foundation,
    /// An authenticated GET of a fixed API resource.
    GetResource(Resource),
    /// Start an OAuth connection.
    ConnectStart,
    /// Create a manual connection.
    ConnectManual,
    /// Create an event.
    CreateEvent,
    /// Cross-post an event.
    CrossPost,
    /// Read a job.
    Job,
    /// Stream the messages of one job.
    WatchJob,
    /// Stream the API's event stream.
    WatchEvents,
}

/// A fixed API resource that a command reads.
#[derive(Debug, PartialEq, Eq, Clone, Copy)]
pub enum Resource {
    /// The providers that the API supports.
    Providers,
    /// The provider connections.
    Connections,
}

impl Resource {
    /// The API path of the resource.
    pub open spec fn path_spec(self) -> Seq<char> {
        match self {
            Resource::Providers => "/v1/providers"@,
            Resource::Connections => "/v1/connections"@,
        }
    }

    /// The API path of the resource.
    pub fn path(&self) -> (r: &'static str)
        ensures
            r@ == self.path_spec(),
    {
        match self {
            Resource::Providers => "/v1/providers",
            Resource::Connections => "/v1/connections",
        }
    }
}

/// The action for `command` in the environment `env`, as the tool chooses it.
pub open spec fn dispatch_spec(command: Seq<char>, env: Map<Seq<char>, Seq<char>>) -> Option<Action> {
    if command == "health"@ || command == "list"@ || command == "get"@ {
        Some(Action::Foundation)
    } else if command == "providers"@ {
        Some(Action::GetResource(Resource::Providers))
    } else if command == "connections"@ {
        Some(Action::GetResource(Resource::Connections))
    } else if command == "connect-start"@ {
        Some(Action::ConnectStart)
    } else if command == "connect-manual"@ {
        Some(Action::ConnectManual)
    } else if command == "create-event"@ {
        Some(Action::CreateEvent)
    } else if command == "cross-post"@ {
        Some(Action::CrossPost)
    } else if command == "job"@ {
        Some(Action::Job)
    } else if command == "watch"@ {
        if env_lookup(env, "EVGL_JOB_ID"@) is Some {
            Some(Action::WatchJob)
        } else {
            Some(Action::WatchEvents)
        }
    } else {
        None
    }
}

/// The commands that the help lists.
pub open spec fn is_known_command(command: Seq<char>) -> bool {
    command == "health"@ || command == "list"@ || command == "get"@ || command == "providers"@
        || command == "connections"@ || command == "connect-start"@ || command
        == "connect-manual"@ || command == "create-event"@ || command == "cross-post"@ || command
        == "job"@ || command == "watch"@
}

/// Chooses what to do for `command`; `watch` streams one job when
/// `EVGL_JOB_ID` is set and the API's event stream otherwise.
pub fn dispatch(command: &str, env: &EnvMap) -> (r: Result<Action, CliError>)
    ensures
        is_known_command(command@) <==> r is Ok,
        !is_known_command(command@) ==> r matches Err(CliError::UnknownCommand),
        is_known_command(command@) ==> r == Ok::<Action, CliError>(dispatch_spec(command@, env@)->0),
{
    proof {
        reveal_strlit("health");
        reveal_strlit("list");
        reveal_strlit("get");
        reveal_strlit("providers");
        reveal_strlit("connections");
        reveal_strlit("connect-start");
        reveal_strlit("connect-manual");
        reveal_strlit("create-event");
        reveal_strlit("cross-post");
        reveal_strlit("job");
        reveal_strlit("watch");
    }
    if str_eq(command, "health") || str_eq(command, "list") || str_eq(command, "get") {
        Ok(Action::Foundation)
    } else if str_eq(command, "providers") {
        Ok(Action::GetResource(Resource::Providers))
    } else if str_eq(command, "connections") {
        Ok(Action::GetResource(Resource::Connections))
    } else if str_eq(command, "connect-start") {
        Ok(Action::ConnectStart)
    } else if str_eq(command, "connect-manual") {
        Ok(Action::ConnectManual)
    } else if str_eq(command, "create-event") {
        Ok(Action::CreateEvent)
    } else if str_eq(command, "cross-post") {
        Ok(Action::CrossPost)
    } else if str_eq(command, "job") {
        Ok(Action::Job)
    } else if str_eq(command, "watch") {
        if env_value(env, "EVGL_JOB_ID").is_some() {
            Ok(Action::WatchJob)
        } else {
            Ok(Action::WatchEvents)
        }
    } else {
        Err(CliError::UnknownCommand)
    }
}

} // verus!
