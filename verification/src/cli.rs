//! The command line: how the arguments of each command are read.
use crate::text::{
    concat2, concat3, join, join_strings, owned, parse_i32_spec, parse_i32_str, parse_unsigned,
    parse_unsigned_str, split_once, split_once_text, strs,
};
use crate::policy::AppliedWorkspacePolicy;
use crate::profile::{ProfileSetupOptions, ProfileStartupOptions, ProfileWorkspaceOpenOptions};
use crate::workspace::{default_workspace_id_spec, DaemonOptions, EnvVar, LaunchSpec, WorkspaceStartOptions};
use vstd::prelude::*;
use vstd::string::*;

verus! {

/// Why a command line is refused.
#[derive(Clone, Debug)]
pub enum CliError {
    MissingValue { flag: String },
    UnknownOption { command: String, flag: String },
    UnknownPutOption { flag: String },
    InvalidNumber { message: String },
    Missing { message: String },
    NoOptions { command: String, arg: String },
    UnknownCommand { name: String },
    UnknownProfileCommand { name: String },
    UnknownWorkspaceCommand { name: String },
}

/// The content of a `CliError`.
pub enum CliIssue {
    MissingValue { flag: Seq<char> },
    UnknownOption { command: Seq<char>, flag: Seq<char> },
    UnknownPutOption { flag: Seq<char> },
    InvalidNumber { message: Seq<char> },
    Missing { message: Seq<char> },
    NoOptions { command: Seq<char>, arg: Seq<char> },
    UnknownCommand { name: Seq<char> },
    UnknownProfileCommand { name: Seq<char> },
    UnknownWorkspaceCommand { name: Seq<char> },
}

impl View for CliError {
    type V = CliIssue;

    open spec fn view(&self) -> CliIssue {
        match self {
            CliError::MissingValue { flag } => CliIssue::MissingValue { flag: flag@ },
            CliError::UnknownOption { command, flag } => CliIssue::UnknownOption {
                command: command@,
                flag: flag@,
            },
            CliError::UnknownPutOption { flag } => CliIssue::UnknownPutOption { flag: flag@ },
            CliError::InvalidNumber { message } => CliIssue::InvalidNumber { message: message@ },
            CliError::Missing { message } => CliIssue::Missing { message: message@ },
            CliError::NoOptions { command, arg } => CliIssue::NoOptions {
                command: command@,
                arg: arg@,
            },
            CliError::UnknownCommand { name } => CliIssue::UnknownCommand { name: name@ },
            CliError::UnknownProfileCommand { name } => CliIssue::UnknownProfileCommand {
                name: name@,
            },
            CliError::UnknownWorkspaceCommand { name } => CliIssue::UnknownWorkspaceCommand {
                name: name@,
            },
        }
    }
}

/// The profile subcommands.
pub open spec fn profile_commands() -> Seq<char> {
    "path, list, get, check, template, put, delete, export"@
}

/// The workspace subcommands.
pub open spec fn workspace_commands() -> Seq<char> {
    "start, open-profile, list, cleanup, status, launch, run, launch-profile-apps, windows, screenshot, focus-window, close-window, click, key, type, logs, wait-app, events, setup, kill-app, stop"@
}

impl CliIssue {
    /// The message shown for this issue.
    pub open spec fn text(self) -> Seq<char> {
        match self {
            CliIssue::MissingValue { flag } => flag + " requires a value"@,
            CliIssue::UnknownOption { command, flag } => "unknown "@ + command + " option '"@ + flag
                + "'"@,
            CliIssue::UnknownPutOption { flag } => "unknown profile put option '"@ + flag
                + "'. Expected: --json PATH, --replace, --dry-run"@,
            CliIssue::InvalidNumber { message } => message,
            CliIssue::Missing { message } => message,
            CliIssue::NoOptions { command, arg } => command + " does not accept option '"@ + arg
                + "'"@,
            CliIssue::UnknownCommand { name } => "unknown command '"@ + name
                + "'. Expected one of: doctor, mcp, profile, workspace, --help"@,
            CliIssue::UnknownProfileCommand { name } => "unknown profile command '"@ + name
                + "'. Expected: "@ + profile_commands(),
            CliIssue::UnknownWorkspaceCommand { name } => "unknown workspace command '"@ + name
                + "'. Expected: "@ + workspace_commands(),
        }
    }
}

impl CliError {
    /// The message for this error.
    pub fn message(&self) -> (r: String)
        ensures
            r@ == self@.text(),
    {
        match self {
            CliError::MissingValue { flag } => concat2(flag.as_str(), " requires a value"),
            CliError::UnknownOption { command, flag } => {
                let mut s = concat3("unknown ", command.as_str(), " option '");
                s.append(flag.as_str());
                s.append("'");
                s
            },
            CliError::UnknownPutOption { flag } => concat3(
                "unknown profile put option '",
                flag.as_str(),
                "'. Expected: --json PATH, --replace, --dry-run",
            ),
            CliError::InvalidNumber { message } => message.clone(),
            CliError::Missing { message } => message.clone(),
            CliError::NoOptions { command, arg } => {
                let mut s = concat3(command.as_str(), " does not accept option '", arg.as_str());
                s.append("'");
                s
            },
            CliError::UnknownCommand { name } => concat3(
                "unknown command '",
                name.as_str(),
                "'. Expected one of: doctor, mcp, profile, workspace, --help",
            ),
            CliError::UnknownProfileCommand { name } => {
                let mut s = concat3("unknown profile command '", name.as_str(), "'. Expected: ");
                s.append("path, list, get, check, template, put, delete, export");
                s
            },
            CliError::UnknownWorkspaceCommand { name } => {
                let mut s = concat3("unknown workspace command '", name.as_str(), "'. Expected: ");
                s.append(
                    "start, open-profile, list, cleanup, status, launch, run, launch-profile-apps, windows, screenshot, focus-window, close-window, click, key, type, logs, wait-app, events, setup, kill-app, stop",
                );
                s
            },
        }
    }
}

/// The argument after position `i`: the value of the flag at `i`.
pub open spec fn arg_at(args: Seq<String>, i: int) -> Option<String> {
    if 0 <= i && i + 1 < args.len() {
        Some(args[i + 1])
    } else {
        None
    }
}

/// The value of the flag at position `index`, or an error naming the flag.
pub fn value_after(args: &Vec<String>, index: usize, flag: &str) -> (r: Result<String, CliError>)
    ensures
        match r {
            Ok(v) => arg_at(args@, index as int) == Some(v),
            Err(e) => arg_at(args@, index as int) is None && e@ == CliIssue::MissingValue {
                flag: flag@,
            },
        },
{
    if index < args.len() && index + 1 < args.len() {
        Ok(args[index + 1].clone())
    } else {
        Err(CliError::MissingValue { flag: owned(flag) })
    }
}

/// Reads `NAME=VALUE`: the name is the text before the first `=` and must not be
/// empty.
pub open spec fn env_assignment(value: Seq<char>) -> Result<(Seq<char>, Seq<char>), CliIssue> {
    match split_once(value, '=') {
        None => Err(CliIssue::Missing { message: "--env requires NAME=VALUE"@ }),
        Some((name, v)) => if name.len() == 0 {
            Err(CliIssue::Missing { message: "--env requires a non-empty variable name"@ })
        } else {
            Ok((name, v))
        },
    }
}

/// Reads an `--env NAME=VALUE` assignment.
pub fn parse_env_assignment(value: &str) -> (r: Result<EnvVar, CliError>)
    ensures
        match r {
            Ok(v) => env_assignment(value@) == Ok::<(Seq<char>, Seq<char>), CliIssue>(
                (v.name@, v.value@),
            ),
            Err(e) => env_assignment(value@) == Err::<(Seq<char>, Seq<char>), CliIssue>(e@),
        },
{
    match split_once_text(value, '=') {
        None => Err(CliError::Missing { message: owned("--env requires NAME=VALUE") }),
        Some((name, v)) => {
            if name.as_str().unicode_len() == 0 {
                Err(CliError::Missing { message: owned("--env requires a non-empty variable name") })
            } else {
                Ok(EnvVar { name, value: v })
            }
        },
    }
}

/// Refuses any argument to a command that takes none.
pub fn parse_no_options(args: &Vec<String>, command: &str) -> (r: Result<(), CliError>)
    ensures
        match r {
            Ok(()) => args@.len() == 0,
            Err(e) => args@.len() > 0 && e@ == CliIssue::NoOptions {
                command: command@,
                arg: args@[0]@,
            },
        },
{
    if args.len() > 0 {
        return Err(CliError::NoOptions { command: owned(command), arg: args[0].clone() });
    }
    Ok(())
}

/// The one argument of a command that takes exactly one.
pub fn parse_required_id_arg(args: &Vec<String>, missing_message: &str) -> (r: Result<
    String,
    CliError,
>)
    ensures
        match r {
            Ok(id) => args@.len() == 1 && id@ == args@[0]@,
            Err(e) => args@.len() != 1 && e@ == CliIssue::Missing { message: missing_message@ },
        },
{
    if args.len() != 1 {
        return Err(CliError::Missing { message: owned(missing_message) });
    }
    Ok(args[0].clone())
}

/// Reads `[--id ID]...` from position `i` with the id read so far: the last
/// `--id` wins; anything else is an unknown workspace option.
pub open spec fn id_scan(args: Seq<String>, i: int, id: Seq<char>) -> Result<Seq<char>, CliIssue>
    decreases args.len() - i,
{
    if i < 0 || i >= args.len() {
        Ok(id)
    } else if args[i]@ == "--id"@ {
        match arg_at(args, i) {
            Some(v) => id_scan(args, i + 2, v@),
            None => Err(CliIssue::MissingValue { flag: "--id"@ }),
        }
    } else {
        Err(CliIssue::UnknownOption { command: "workspace"@, flag: args[i]@ })
    }
}

fn is_flag(arg: &String, flag: &str) -> (r: bool)
    ensures
        r == (arg@ == flag@),
{
    crate::permissions::str_eq(arg.as_str(), flag)
}

/// Reads the workspace id of a command that takes only `--id` (default `default`).
pub fn parse_id_option(args: &Vec<String>) -> (r: Result<String, CliError>)
    ensures
        match r {
            Ok(id) => id_scan(args@, 0, default_workspace_id_spec()) == Ok::<Seq<char>, CliIssue>(
                id@,
            ),
            Err(e) => id_scan(args@, 0, default_workspace_id_spec()) == Err::<Seq<char>, CliIssue>(
                e@,
            ),
        },
{
    let mut id = crate::workspace::default_workspace_id();
    let mut index: usize = 0;
    while index < args.len()
        invariant
            index <= args@.len(),
            id_scan(args@, 0, default_workspace_id_spec()) == id_scan(args@, index as int, id@),
        decreases args.len() - index,
    {
        if is_flag(&args[index], "--id") {
            id = match value_after(args, index, "--id") {
                Ok(v) => v,
                Err(e) => {
                    return Err(e);
                },
            };
            if index + 2 > args.len() {
                index = args.len();
            } else {
                index += 2;
            }
        } else {
            return Err(
                CliError::UnknownOption { command: owned("workspace"), flag: args[index].clone() },
            );
        }
    }
    Ok(id)
}

/// Reads `[--id ID]...` into an optional id.
pub open spec fn optional_id_scan(args: Seq<String>, i: int, id: Option<Seq<char>>) -> Result<
    Option<Seq<char>>,
    CliIssue,
>
    decreases args.len() - i,
{
    if i < 0 || i >= args.len() {
        Ok(id)
    } else if args[i]@ == "--id"@ {
        match arg_at(args, i) {
            Some(v) => optional_id_scan(args, i + 2, Some(v@)),
            None => Err(CliIssue::MissingValue { flag: "--id"@ }),
        }
    } else {
        Err(CliIssue::UnknownOption { command: "workspace"@, flag: args[i]@ })
    }
}

pub open spec fn opt_view(o: Option<String>) -> Option<Seq<char>> {
    match o {
        Some(s) => Some(s@),
        None => None,
    }
}

/// Reads an optional workspace id (`--id ID`).
pub fn parse_optional_id_option(args: &Vec<String>) -> (r: Result<Option<String>, CliError>)
    ensures
        match r {
            Ok(id) => optional_id_scan(args@, 0, None) == Ok::<Option<Seq<char>>, CliIssue>(
                opt_view(id),
            ),
            Err(e) => optional_id_scan(args@, 0, None) == Err::<Option<Seq<char>>, CliIssue>(e@),
        },
{
    let mut id: Option<String> = None;
    let mut index: usize = 0;
    while index < args.len()
        invariant
            index <= args@.len(),
            optional_id_scan(args@, 0, None) == optional_id_scan(args@, index as int, opt_view(id)),
        decreases args.len() - index,
    {
        if is_flag(&args[index], "--id") {
            id = match value_after(args, index, "--id") {
                Ok(v) => Some(v),
                Err(e) => {
                    return Err(e);
                },
            };
            if index + 2 > args.len() {
                index = args.len();
            } else {
                index += 2;
            }
        } else {
            return Err(
                CliError::UnknownOption { command: owned("workspace"), flag: args[index].clone() },
            );
        }
    }
    Ok(id)
}

/// Reads `[--id ID]... [--] ARGS...`: the id (last `--id` wins) and the remaining
/// arguments, which start at the first argument that is not `--id` (after `--`
/// when that is it).
pub open spec fn id_and_args_scan(args: Seq<String>, i: int, id: Seq<char>) -> Result<
    (Seq<char>, Seq<String>),
    CliIssue,
>
    decreases args.len() - i,
{
    if i < 0 || i >= args.len() {
        Ok((id, Seq::empty()))
    } else if args[i]@ == "--id"@ {
        match arg_at(args, i) {
            Some(v) => id_and_args_scan(args, i + 2, v@),
            None => Err(CliIssue::MissingValue { flag: "--id"@ }),
        }
    } else if args[i]@ == "--"@ {
        Ok((id, args.subrange(i + 1, args.len() as int)))
    } else {
        Ok((id, args.subrange(i, args.len() as int)))
    }
}

fn rest_from(args: &Vec<String>, from: usize) -> (r: Vec<String>)
    requires
        from <= args@.len(),
    ensures
        r@ == args@.subrange(from as int, args@.len() as int),
{
    let mut r: Vec<String> = Vec::new();
    let mut i: usize = from;
    while i < args.len()
        invariant
            from <= i <= args@.len(),
            r@ == args@.subrange(from as int, i as int),
        decreases args.len() - i,
    {
        r.push(args[i].clone());
        i += 1;
        assert(r@ =~= args@.subrange(from as int, i as int));
    }
    r
}

/// Reads the workspace id and the remaining arguments of a command.
pub fn parse_id_and_args(args: &Vec<String>) -> (r: Result<(String, Vec<String>), CliError>)
    ensures
        match r {
            Ok((id, rest)) => id_and_args_scan(args@, 0, default_workspace_id_spec()) == Ok::<
                (Seq<char>, Seq<String>),
                CliIssue,
            >((id@, rest@)),
            Err(e) => id_and_args_scan(args@, 0, default_workspace_id_spec()) == Err::<
                (Seq<char>, Seq<String>),
                CliIssue,
            >(e@),
        },
{
    let mut id = crate::workspace::default_workspace_id();
    let mut index: usize = 0;
    while index < args.len()
        invariant
            index <= args@.len(),
            id_and_args_scan(args@, 0, default_workspace_id_spec()) == id_and_args_scan(
                args@,
                index as int,
                id@,
            ),
        decreases args.len() - index,
    {
        if is_flag(&args[index], "--id") {
            id = match value_after(args, index, "--id") {
                Ok(v) => v,
                Err(e) => {
                    return Err(e);
                },
            };
            if index + 2 > args.len() {
                index = args.len();
            } else {
                index += 2;
            }
        } else if is_flag(&args[index], "--") {
            return Ok((id, rest_from(args, index + 1)));
        } else {
            return Ok((id, rest_from(args, index)));
        }
    }
    assert(args@.subrange(args@.len() as int, args@.len() as int) =~= Seq::<String>::empty());
    Ok((id, Vec::new()))
}

/// The id and single argument of a command that takes one (such as a window id).
pub fn parse_one_arg_command(args: &Vec<String>, missing_message: &str) -> (r: Result<
    (String, String),
    CliError,
>)
    ensures
        match id_and_args_scan(args@, 0, default_workspace_id_spec()) {
            Err(x) => r matches Err(e) && e@ == x,
            Ok((id, rest)) => if rest.len() == 1 {
                r matches Ok((i, a)) && i@ == id && a@ == rest[0]@
            } else {
                r matches Err(e) && e@ == CliIssue::Missing { message: missing_message@ }
            },
        },
{
    let (id, values) = match parse_id_and_args(args) {
        Ok(p) => p,
        Err(e) => {
            return Err(e);
        },
    };
    if values.len() != 1 {
        return Err(CliError::Missing { message: owned(missing_message) });
    }
    let v = values[0].clone();
    Ok((id, v))
}

/// The id and text of `workspace type`: the remaining arguments joined by spaces.
pub fn parse_text_command(args: &Vec<String>) -> (r: Result<(String, String), CliError>)
    ensures
        match id_and_args_scan(args@, 0, default_workspace_id_spec()) {
            Err(x) => r matches Err(e) && e@ == x,
            Ok((id, rest)) => if rest.len() > 0 {
                r matches Ok((i, t)) && i@ == id && t@ == join(strs(rest), " "@)
            } else {
                r matches Err(e) && e@ == CliIssue::Missing {
                    message: "workspace type requires text"@,
                }
            },
        },
{
    let (id, values) = match parse_id_and_args(args) {
        Ok(p) => p,
        Err(e) => {
            return Err(e);
        },
    };
    if values.len() == 0 {
        return Err(CliError::Missing { message: owned("workspace type requires text") });
    }
    Ok((id, join_strings(&values, " ")))
}

/// The id and coordinates of `workspace click X Y`.
pub fn parse_click_options(args: &Vec<String>) -> (r: Result<(String, i32, i32), CliError>)
    ensures
        match id_and_args_scan(args@, 0, default_workspace_id_spec()) {
            Err(x) => r matches Err(e) && e@ == x,
            Ok((id, rest)) => if rest.len() != 2 {
                r matches Err(e) && e@ == CliIssue::Missing {
                    message: "workspace click requires X and Y coordinates"@,
                }
            } else if parse_i32_spec(rest[0]@) is None {
                r matches Err(e) && e@ == CliIssue::InvalidNumber {
                    message: "click X must be an integer"@,
                }
            } else if parse_i32_spec(rest[1]@) is None {
                r matches Err(e) && e@ == CliIssue::InvalidNumber {
                    message: "click Y must be an integer"@,
                }
            } else {
                r matches Ok((i, x, y)) && i@ == id && Some(x as int) == parse_i32_spec(rest[0]@)
                    && Some(y as int) == parse_i32_spec(rest[1]@)
            },
        },
{
    let (id, values) = match parse_id_and_args(args) {
        Ok(p) => p,
        Err(e) => {
            return Err(e);
        },
    };
    if values.len() != 2 {
        return Err(
            CliError::Missing { message: owned("workspace click requires X and Y coordinates") },
        );
    }
    let x = match parse_i32_str(values[0].as_str()) {
        Some(v) => v,
        None => {
            return Err(CliError::InvalidNumber { message: owned("click X must be an integer") });
        },
    };
    let y = match parse_i32_str(values[1].as_str()) {
        Some(v) => v,
        None => {
            return Err(CliError::InvalidNumber { message: owned("click Y must be an integer") });
        },
    };
    Ok((id, x, y))
}

} // verus!

verus! {

// ---------------------------------------------------------------------------
// Options of commands

/// The commands that read options, each with its own set of them.
#[derive(Clone, Copy, Debug, PartialEq, Eq, Structural)]
pub enum OptionSet {
    Start,
    OpenProfile,
    Launch,
    Run,
    Logs,
    WaitApp,
    Events,
    Setup,
    ProfileLaunch,
    Template,
    Screenshot,
    Put,
    Daemon,
}

/// Everything an option can set. Each command reads the options it accepts.
#[derive(Clone, Debug)]
pub struct CliFlags {
    pub foreground: bool,
    pub ack_hidden_workspace: bool,
    pub ack_unenforced_policy: bool,
    pub setup: bool,
    pub wait: bool,
    pub kill_on_timeout: bool,
    pub replace: bool,
    pub dry_run: bool,
    pub id: Option<String>,
    pub profile_id: Option<String>,
    pub purpose: Option<String>,
    pub name: Option<String>,
    pub cwd: Option<String>,
    pub stream: Option<String>,
    pub output: Option<String>,
    pub json: Option<String>,
    pub host_path: Option<String>,
    pub display: Option<String>,
    pub runtime_dir: Option<String>,
    pub socket: Option<String>,
    pub xauthority: Option<String>,
    pub policy: Option<String>,
    pub width: Option<u32>,
    pub height: Option<u32>,
    pub timeout_ms: Option<u64>,
    pub tail_bytes: Option<u64>,
    pub setup_timeout_ms: Option<u64>,
    pub tail: Option<usize>,
}

/// No option given.
pub open spec fn no_flags() -> CliFlags {
    CliFlags {
        foreground: false,
        ack_hidden_workspace: false,
        ack_unenforced_policy: false,
        setup: false,
        wait: false,
        kill_on_timeout: false,
        replace: false,
        dry_run: false,
        id: None,
        profile_id: None,
        purpose: None,
        name: None,
        cwd: None,
        stream: None,
        output: None,
        json: None,
        host_path: None,
        display: None,
        runtime_dir: None,
        socket: None,
        xauthority: None,
        policy: None,
        width: None,
        height: None,
        timeout_ms: None,
        tail_bytes: None,
        setup_timeout_ms: None,
        tail: None,
    }
}

fn empty_flags() -> (r: CliFlags)
    ensures
        r == no_flags(),
{
    CliFlags {
        foreground: false,
        ack_hidden_workspace: false,
        ack_unenforced_policy: false,
        setup: false,
        wait: false,
        kill_on_timeout: false,
        replace: false,
        dry_run: false,
        id: None,
        profile_id: None,
        purpose: None,
        name: None,
        cwd: None,
        stream: None,
        output: None,
        json: None,
        host_path: None,
        display: None,
        runtime_dir: None,
        socket: None,
        xauthority: None,
        policy: None,
        width: None,
        height: None,
        timeout_ms: None,
        tail_bytes: None,
        setup_timeout_ms: None,
        tail: None,
    }
}

/// Whether a command accepts an option.
pub open spec fn accepts(set: OptionSet, a: Seq<char>) -> bool {
    match set {
        OptionSet::Start => a == "--foreground"@ || a == "--ack-hidden-workspace"@ || a
            == "--ack-unenforced-policy"@ || a == "--profile"@ || a == "--id"@ || a == "--purpose"@
            || a == "--width"@ || a == "--height"@ || a == "--dry-run"@,
        OptionSet::OpenProfile => a == "--ack-hidden-workspace"@ || a == "--ack-unenforced-policy"@
            || a == "--profile"@ || a == "--id"@ || a == "--purpose"@ || a == "--width"@ || a
            == "--height"@ || a == "--setup"@ || a == "--setup-timeout-ms"@,
        OptionSet::Launch => a == "--id"@ || a == "--profile"@ || a == "--name"@ || a == "--cwd"@
            || a == "--env"@ || a == "--ack-unenforced-policy"@ || a == "--dry-run"@,
        OptionSet::Run => a == "--id"@ || a == "--profile"@ || a == "--name"@ || a == "--cwd"@ || a
            == "--env"@ || a == "--ack-unenforced-policy"@ || a == "--timeout-ms"@ || a
            == "--tail-bytes"@ || a == "--kill-on-timeout"@ || a == "--dry-run"@,
        OptionSet::Logs => a == "--id"@ || a == "--stream"@ || a == "--tail-bytes"@,
        OptionSet::WaitApp => a == "--id"@ || a == "--timeout-ms"@ || a == "--kill-on-timeout"@,
        OptionSet::Events => a == "--id"@ || a == "--tail"@,
        OptionSet::Setup => a == "--id"@ || a == "--profile"@ || a == "--wait"@ || a
            == "--ack-unenforced-policy"@ || a == "--timeout-ms"@ || a == "--dry-run"@,
        OptionSet::ProfileLaunch => a == "--id"@ || a == "--profile"@ || a
            == "--ack-unenforced-policy"@ || a == "--dry-run"@,
        OptionSet::Template => a == "--id"@ || a == "--host-path"@,
        OptionSet::Screenshot => a == "--id"@ || a == "--output"@,
        OptionSet::Put => a == "--json"@ || a == "--replace"@ || a == "--dry-run"@,
        OptionSet::Daemon => a == "--id"@ || a == "--profile"@ || a == "--purpose"@ || a
            == "--display"@ || a == "--width"@ || a == "--height"@ || a == "--runtime-dir"@ || a
            == "--socket"@ || a == "--xauthority"@ || a == "--policy"@ || a
            == "--ack-hidden-workspace"@ || a == "--ack-unenforced-policy"@,
    }
}

/// How a command is named in an unknown-option error.
pub open spec fn option_command(set: OptionSet) -> Seq<char> {
    match set {
        OptionSet::Start => "workspace start"@,
        OptionSet::OpenProfile => "workspace open-profile"@,
        OptionSet::Events => "workspace events"@,
        OptionSet::Setup => "workspace setup"@,
        OptionSet::ProfileLaunch => "workspace launch-profile-apps"@,
        OptionSet::Template => "profile template"@,
        OptionSet::Screenshot => "workspace screenshot"@,
        OptionSet::Daemon => "daemon"@,
        _ => "workspace"@,
    }
}

/// The command whose first argument that is not an option starts the command to
/// launch.
pub open spec fn takes_command(set: OptionSet) -> bool {
    set == OptionSet::Launch || set == OptionSet::Run
}

/// The command whose first argument that is not an option is an app id.
pub open spec fn takes_app_id(set: OptionSet) -> bool {
    set == OptionSet::Logs || set == OptionSet::WaitApp
}

/// The name of a command that takes a command or an app id.
pub open spec fn positional_command(set: OptionSet) -> Seq<char> {
    match set {
        OptionSet::Launch => "workspace launch"@,
        OptionSet::Run => "workspace run"@,
        OptionSet::Logs => "workspace logs"@,
        _ => "workspace wait-app"@,
    }
}

/// The error for a positional argument that is missing.
pub open spec fn missing_positional(set: OptionSet) -> Seq<char> {
    if takes_command(set) {
        positional_command(set) + " requires a command"@
    } else {
        positional_command(set) + " requires an app id"@
    }
}

/// What the first argument that is not an option means: the command to launch,
/// the app id, or an unknown option.
pub open spec fn positional_scan(
    set: OptionSet,
    args: Seq<String>,
    i: int,
    f: CliFlags,
    env: Seq<(Seq<char>, Seq<char>)>,
) -> Result<(CliFlags, Seq<(Seq<char>, Seq<char>)>, Option<Seq<String>>), CliIssue> {
    if takes_command(set) {
        if args[i]@ == "--"@ {
            if args.len() - i > 1 {
                Ok((f, env, Some(args.subrange(i + 1, args.len() as int))))
            } else {
                Err(
                    CliIssue::Missing {
                        message: positional_command(set) + " requires a command after --"@,
                    },
                )
            }
        } else {
            Ok((f, env, Some(args.subrange(i, args.len() as int))))
        }
    } else if takes_app_id(set) {
        if args[i]@ == "--"@ {
            match arg_at(args, i) {
                Some(v) => Ok((f, env, Some(seq![v]))),
                None => Err(CliIssue::Missing { message: missing_positional(set) }),
            }
        } else {
            Ok((f, env, Some(seq![args[i]])))
        }
    } else if set == OptionSet::Put {
        Err(CliIssue::UnknownPutOption { flag: args[i]@ })
    } else {
        Err(CliIssue::UnknownOption { command: option_command(set), flag: args[i]@ })
    }
}

/// A flag's value read as a number at most `max`.
pub open spec fn number_value(args: Seq<String>, i: int, flag: Seq<char>, message: Seq<char>, max: nat) -> Result<
    nat,
    CliIssue,
> {
    match arg_at(args, i) {
        None => Err(CliIssue::MissingValue { flag }),
        Some(v) => match parse_unsigned(v@, max) {
            Some(n) => Ok(n),
            None => Err(CliIssue::InvalidNumber { message }),
        },
    }
}

/// Whether `--tail-bytes` of this command must be positive (its message says so).
pub open spec fn tail_bytes_message(set: OptionSet) -> Seq<char> {
    if set == OptionSet::Logs {
        "--tail-bytes must be a positive integer"@
    } else {
        "--tail-bytes must be a non-negative integer"@
    }
}

/// Reads the options of a command from position `i`: each accepted option sets
/// its field (the last one given wins), `--env` assignments are collected in
/// order, and the first argument that is not an accepted option ends the options
/// (see `positional_scan`).
pub open spec fn cli_scan(
    set: OptionSet,
    args: Seq<String>,
    i: int,
    f: CliFlags,
    env: Seq<(Seq<char>, Seq<char>)>,
) -> Result<(CliFlags, Seq<(Seq<char>, Seq<char>)>, Option<Seq<String>>), CliIssue>
    decreases args.len() - i,
{
    if i < 0 || i >= args.len() {
        Ok((f, env, None))
    } else {
        let a = args[i]@;
        if !accepts(set, a) {
            positional_scan(set, args, i, f, env)
        } else if a == "--foreground"@ {
            cli_scan(set, args, i + 1, CliFlags { foreground: true, ..f }, env)
        } else if a == "--ack-hidden-workspace"@ {
            cli_scan(set, args, i + 1, CliFlags { ack_hidden_workspace: true, ..f }, env)
        } else if a == "--ack-unenforced-policy"@ {
            cli_scan(set, args, i + 1, CliFlags { ack_unenforced_policy: true, ..f }, env)
        } else if a == "--setup"@ {
            cli_scan(set, args, i + 1, CliFlags { setup: true, ..f }, env)
        } else if a == "--wait"@ {
            cli_scan(set, args, i + 1, CliFlags { wait: true, ..f }, env)
        } else if a == "--kill-on-timeout"@ {
            cli_scan(set, args, i + 1, CliFlags { kill_on_timeout: true, ..f }, env)
        } else if a == "--replace"@ {
            cli_scan(set, args, i + 1, CliFlags { replace: true, ..f }, env)
        } else if a == "--dry-run"@ {
            cli_scan(set, args, i + 1, CliFlags { dry_run: true, ..f }, env)
        } else if a == "--env"@ {
            match arg_at(args, i) {
                None => Err(CliIssue::MissingValue { flag: a }),
                Some(v) => match env_assignment(v@) {
                    Ok(pair) => cli_scan(set, args, i + 2, f, env.push(pair)),
                    Err(e) => Err(e),
                },
            }
        } else if a == "--width"@ || a == "--height"@ {
            match number_value(args, i, a, a + " must be a positive integer"@, u32::MAX as nat) {
                Ok(n) => cli_scan(
                    set,
                    args,
                    i + 2,
                    if a == "--width"@ {
                        CliFlags { width: Some(n as u32), ..f }
                    } else {
                        CliFlags { height: Some(n as u32), ..f }
                    },
                    env,
                ),
                Err(e) => Err(e),
            }
        } else if a == "--timeout-ms"@ || a == "--setup-timeout-ms"@ || a == "--tail-bytes"@ {
            let message = if a == "--tail-bytes"@ {
                tail_bytes_message(set)
            } else {
                a + " must be a non-negative integer"@
            };
            match number_value(args, i, a, message, u64::MAX as nat) {
                Ok(n) => cli_scan(
                    set,
                    args,
                    i + 2,
                    if a == "--timeout-ms"@ {
                        CliFlags { timeout_ms: Some(n as u64), ..f }
                    } else if a == "--setup-timeout-ms"@ {
                        CliFlags { setup_timeout_ms: Some(n as u64), ..f }
                    } else {
                        CliFlags { tail_bytes: Some(n as u64), ..f }
                    },
                    env,
                ),
                Err(e) => Err(e),
            }
        } else if a == "--tail"@ {
            match number_value(
                args,
                i,
                a,
                "--tail must be a non-negative integer"@,
                usize::MAX as nat,
            ) {
                Ok(n) => cli_scan(set, args, i + 2, CliFlags { tail: Some(n as usize), ..f }, env),
                Err(e) => Err(e),
            }
        } else {
            match arg_at(args, i) {
                None => Err(CliIssue::MissingValue { flag: a }),
                Some(v) => cli_scan(set, args, i + 2, with_text_flag(f, a, v), env),
            }
        }
    }
}

/// Sets the field of an option that takes text.
pub open spec fn with_text_flag(f: CliFlags, a: Seq<char>, v: String) -> CliFlags {
    if a == "--id"@ {
        CliFlags { id: Some(v), ..f }
    } else if a == "--profile"@ {
        CliFlags { profile_id: Some(v), ..f }
    } else if a == "--purpose"@ {
        CliFlags { purpose: Some(v), ..f }
    } else if a == "--name"@ {
        CliFlags { name: Some(v), ..f }
    } else if a == "--cwd"@ {
        CliFlags { cwd: Some(v), ..f }
    } else if a == "--stream"@ {
        CliFlags { stream: Some(v), ..f }
    } else if a == "--output"@ {
        CliFlags { output: Some(v), ..f }
    } else if a == "--json"@ {
        CliFlags { json: Some(v), ..f }
    } else if a == "--host-path"@ {
        CliFlags { host_path: Some(v), ..f }
    } else if a == "--display"@ {
        CliFlags { display: Some(v), ..f }
    } else if a == "--runtime-dir"@ {
        CliFlags { runtime_dir: Some(v), ..f }
    } else if a == "--socket"@ {
        CliFlags { socket: Some(v), ..f }
    } else if a == "--xauthority"@ {
        CliFlags { xauthority: Some(v), ..f }
    } else {
        CliFlags { policy: Some(v), ..f }
    }
}

/// The name and value of each environment variable.
pub open spec fn env_pairs(env: Seq<EnvVar>) -> Seq<(Seq<char>, Seq<char>)> {
    env.map_values(|e: EnvVar| (e.name@, e.value@))
}

} // verus!

verus! {

/// The view of an optional list of arguments.
pub open spec fn opt_args(o: Option<Vec<String>>) -> Option<Seq<String>> {
    match o {
        Some(v) => Some(v@),
        None => None,
    }
}

/// What scanning a command's options gives.
pub open spec fn scanned(
    r: Result<(CliFlags, Vec<EnvVar>, Option<Vec<String>>), CliError>,
    expected: Result<(CliFlags, Seq<(Seq<char>, Seq<char>)>, Option<Seq<String>>), CliIssue>,
) -> bool {
    match r {
        Ok((f, env, pos)) => expected == Ok::<
            (CliFlags, Seq<(Seq<char>, Seq<char>)>, Option<Seq<String>>),
            CliIssue,
        >((f, env_pairs(env@), opt_args(pos))),
        Err(e) => expected == Err::<
            (CliFlags, Seq<(Seq<char>, Seq<char>)>, Option<Seq<String>>),
            CliIssue,
        >(e@),
    }
}

fn accepts_exec(set: OptionSet, a: &str) -> (r: bool)
    ensures
        r == accepts(set, a@),
{
    let e = |f: &str| -> (b: bool)
        ensures
            b == (a@ == f@),
        { crate::permissions::str_eq(a, f) };
    match set {
        OptionSet::Start => e("--foreground") || e("--ack-hidden-workspace") || e(
            "--ack-unenforced-policy",
        ) || e("--profile") || e("--id") || e("--purpose") || e("--width") || e("--height") || e(
            "--dry-run",
        ),
        OptionSet::OpenProfile => e("--ack-hidden-workspace") || e("--ack-unenforced-policy") || e(
            "--profile",
        ) || e("--id") || e("--purpose") || e("--width") || e("--height") || e("--setup") || e(
            "--setup-timeout-ms",
        ),
        OptionSet::Launch => e("--id") || e("--profile") || e("--name") || e("--cwd") || e("--env")
            || e("--ack-unenforced-policy") || e("--dry-run"),
        OptionSet::Run => e("--id") || e("--profile") || e("--name") || e("--cwd") || e("--env")
            || e("--ack-unenforced-policy") || e("--timeout-ms") || e("--tail-bytes") || e(
            "--kill-on-timeout",
        ) || e("--dry-run"),
        OptionSet::Logs => e("--id") || e("--stream") || e("--tail-bytes"),
        OptionSet::WaitApp => e("--id") || e("--timeout-ms") || e("--kill-on-timeout"),
        OptionSet::Events => e("--id") || e("--tail"),
        OptionSet::Setup => e("--id") || e("--profile") || e("--wait") || e(
            "--ack-unenforced-policy",
        ) || e("--timeout-ms") || e("--dry-run"),
        OptionSet::ProfileLaunch => e("--id") || e("--profile") || e("--ack-unenforced-policy") || e(
            "--dry-run",
        ),
        OptionSet::Template => e("--id") || e("--host-path"),
        OptionSet::Screenshot => e("--id") || e("--output"),
        OptionSet::Put => e("--json") || e("--replace") || e("--dry-run"),
        OptionSet::Daemon => e("--id") || e("--profile") || e("--purpose") || e("--display") || e(
            "--width",
        ) || e("--height") || e("--runtime-dir") || e("--socket") || e("--xauthority") || e(
            "--policy",
        ) || e("--ack-hidden-workspace") || e("--ack-unenforced-policy"),
    }
}

fn option_command_exec(set: OptionSet) -> (r: String)
    ensures
        r@ == option_command(set),
{
    match set {
        OptionSet::Start => owned("workspace start"),
        OptionSet::OpenProfile => owned("workspace open-profile"),
        OptionSet::Events => owned("workspace events"),
        OptionSet::Setup => owned("workspace setup"),
        OptionSet::ProfileLaunch => owned("workspace launch-profile-apps"),
        OptionSet::Template => owned("profile template"),
        OptionSet::Screenshot => owned("workspace screenshot"),
        OptionSet::Daemon => owned("daemon"),
        _ => owned("workspace"),
    }
}

fn positional_command_exec(set: OptionSet) -> (r: &'static str)
    ensures
        r@ == positional_command(set),
{
    match set {
        OptionSet::Launch => "workspace launch",
        OptionSet::Run => "workspace run",
        OptionSet::Logs => "workspace logs",
        _ => "workspace wait-app",
    }
}

fn missing_positional_exec(set: OptionSet) -> (r: String)
    ensures
        r@ == missing_positional(set),
{
    if set == OptionSet::Launch || set == OptionSet::Run {
        concat2(positional_command_exec(set), " requires a command")
    } else {
        concat2(positional_command_exec(set), " requires an app id")
    }
}

fn positional_exec(
    set: OptionSet,
    args: &Vec<String>,
    i: usize,
    f: CliFlags,
    env: Vec<EnvVar>,
) -> (r: Result<(CliFlags, Vec<EnvVar>, Option<Vec<String>>), CliError>)
    requires
        i < args@.len(),
    ensures
        scanned(r, positional_scan(set, args@, i as int, f, env_pairs(env@))),
{
    let dash = is_flag(&args[i], "--");
    if set == OptionSet::Launch || set == OptionSet::Run {
        if dash {
            if args.len() - i > 1 {
                Ok((f, env, Some(rest_from(args, i + 1))))
            } else {
                Err(
                    CliError::Missing {
                        message: concat2(
                            positional_command_exec(set),
                            " requires a command after --",
                        ),
                    },
                )
            }
        } else {
            Ok((f, env, Some(rest_from(args, i))))
        }
    } else if set == OptionSet::Logs || set == OptionSet::WaitApp {
        if dash {
            if args.len() - i > 1 {
                let mut v: Vec<String> = Vec::new();
                v.push(args[i + 1].clone());
                assert(v@ =~= seq![args@[i + 1]]);
                Ok((f, env, Some(v)))
            } else {
                Err(CliError::Missing { message: missing_positional_exec(set) })
            }
        } else {
            let mut v: Vec<String> = Vec::new();
            v.push(args[i].clone());
            assert(v@ =~= seq![args@[i as int]]);
            Ok((f, env, Some(v)))
        }
    } else if set == OptionSet::Put {
        Err(CliError::UnknownPutOption { flag: args[i].clone() })
    } else {
        Err(CliError::UnknownOption { command: option_command_exec(set), flag: args[i].clone() })
    }
}

fn number_after(args: &Vec<String>, index: usize, flag: &str, message: &str, max: u64) -> (r: Result<
    u64,
    CliError,
>)
    ensures
        match r {
            Ok(n) => number_value(args@, index as int, flag@, message@, max as nat) == Ok::<
                nat,
                CliIssue,
            >(n as nat),
            Err(e) => number_value(args@, index as int, flag@, message@, max as nat) == Err::<
                nat,
                CliIssue,
            >(e@),
        },
{
    let v = match value_after(args, index, flag) {
        Ok(v) => v,
        Err(e) => {
            return Err(e);
        },
    };
    match parse_unsigned_str(v.as_str(), max) {
        Some(n) => Ok(n),
        None => Err(CliError::InvalidNumber { message: owned(message) }),
    }
}

fn set_text_flag(f: CliFlags, a: &str, v: String) -> (r: CliFlags)
    ensures
        r == with_text_flag(f, a@, v),
{
    let e = |x: &str| -> (b: bool)
        ensures
            b == (a@ == x@),
        { crate::permissions::str_eq(a, x) };
    if e("--id") {
        CliFlags { id: Some(v), ..f }
    } else if e("--profile") {
        CliFlags { profile_id: Some(v), ..f }
    } else if e("--purpose") {
        CliFlags { purpose: Some(v), ..f }
    } else if e("--name") {
        CliFlags { name: Some(v), ..f }
    } else if e("--cwd") {
        CliFlags { cwd: Some(v), ..f }
    } else if e("--stream") {
        CliFlags { stream: Some(v), ..f }
    } else if e("--output") {
        CliFlags { output: Some(v), ..f }
    } else if e("--json") {
        CliFlags { json: Some(v), ..f }
    } else if e("--host-path") {
        CliFlags { host_path: Some(v), ..f }
    } else if e("--display") {
        CliFlags { display: Some(v), ..f }
    } else if e("--runtime-dir") {
        CliFlags { runtime_dir: Some(v), ..f }
    } else if e("--socket") {
        CliFlags { socket: Some(v), ..f }
    } else if e("--xauthority") {
        CliFlags { xauthority: Some(v), ..f }
    } else {
        CliFlags { policy: Some(v), ..f }
    }
}

/// Reads the options of a command from position `start` (see `cli_scan`).
#[verifier::rlimit(60)]
#[verifier::spinoff_prover]
pub fn scan_options(set: OptionSet, args: &Vec<String>, start: usize) -> (r: Result<
    (CliFlags, Vec<EnvVar>, Option<Vec<String>>),
    CliError,
>)
    requires
        start <= args@.len(),
    ensures
        scanned(r, cli_scan(set, args@, start as int, no_flags(), Seq::empty())),
{
    let mut f = empty_flags();
    let mut env: Vec<EnvVar> = Vec::new();
    let mut index: usize = start;
    assert(env_pairs(env@) =~= Seq::<(Seq<char>, Seq<char>)>::empty());
    while index < args.len()
        invariant
            start <= index <= args@.len(),
            cli_scan(set, args@, start as int, no_flags(), Seq::empty()) == cli_scan(
                set,
                args@,
                index as int,
                f,
                env_pairs(env@),
            ),
        decreases args.len() - index,
    {
        let a = args[index].as_str();
        if !accepts_exec(set, a) {
            return positional_exec(set, args, index, f, env);
        }
        let e = |x: &str| -> (b: bool)
            ensures
                b == (a@ == x@),
            { crate::permissions::str_eq(a, x) };
        if e("--foreground") {
            f = CliFlags { foreground: true, ..f };
            index += 1;
        } else if e("--ack-hidden-workspace") {
            f = CliFlags { ack_hidden_workspace: true, ..f };
            index += 1;
        } else if e("--ack-unenforced-policy") {
            f = CliFlags { ack_unenforced_policy: true, ..f };
            index += 1;
        } else if e("--setup") {
            f = CliFlags { setup: true, ..f };
            index += 1;
        } else if e("--wait") {
            f = CliFlags { wait: true, ..f };
            index += 1;
        } else if e("--kill-on-timeout") {
            f = CliFlags { kill_on_timeout: true, ..f };
            index += 1;
        } else if e("--replace") {
            f = CliFlags { replace: true, ..f };
            index += 1;
        } else if e("--dry-run") {
            f = CliFlags { dry_run: true, ..f };
            index += 1;
        } else if e("--env") {
            let v = match value_after(args, index, a) {
                Ok(v) => v,
                Err(err) => {
                    return Err(err);
                },
            };
            let ev = match parse_env_assignment(v.as_str()) {
                Ok(ev) => ev,
                Err(err) => {
                    return Err(err);
                },
            };
            let ghost before = env_pairs(env@);
            env.push(ev);
            assert(env_pairs(env@) =~= before.push((ev.name@, ev.value@)));
            index += 2;
        } else if e("--width") || e("--height") {
            let message = concat2(a, " must be a positive integer");
            let n = match number_after(args, index, a, message.as_str(), 0xffff_ffff) {
                Ok(n) => n,
                Err(err) => {
                    return Err(err);
                },
            };
            if e("--width") {
                f = CliFlags { width: Some(n as u32), ..f };
            } else {
                f = CliFlags { height: Some(n as u32), ..f };
            }
            index += 2;
        } else if e("--timeout-ms") || e("--setup-timeout-ms") || e("--tail-bytes") {
            let message = if e("--tail-bytes") {
                if set == OptionSet::Logs {
                    owned("--tail-bytes must be a positive integer")
                } else {
                    owned("--tail-bytes must be a non-negative integer")
                }
            } else {
                concat2(a, " must be a non-negative integer")
            };
            let n = match number_after(args, index, a, message.as_str(), 0xffff_ffff_ffff_ffff) {
                Ok(n) => n,
                Err(err) => {
                    return Err(err);
                },
            };
            if e("--timeout-ms") {
                f = CliFlags { timeout_ms: Some(n), ..f };
            } else if e("--setup-timeout-ms") {
                f = CliFlags { setup_timeout_ms: Some(n), ..f };
            } else {
                f = CliFlags { tail_bytes: Some(n), ..f };
            }
            index += 2;
        } else if e("--tail") {
            let n = match number_after(
                args,
                index,
                a,
                "--tail must be a non-negative integer",
                usize::MAX as u64,
            ) {
                Ok(n) => n,
                Err(err) => {
                    return Err(err);
                },
            };
            f = CliFlags { tail: Some(n as usize), ..f };
            index += 2;
        } else {
            let v = match value_after(args, index, a) {
                Ok(v) => v,
                Err(err) => {
                    return Err(err);
                },
            };
            f = set_text_flag(f, a, v);
            index += 2;
        }
    }
    Ok((f, env, None))
}

} // verus!

verus! {

// ---------------------------------------------------------------------------
// Commands

/// The text of an optional id, or `default`.
pub open spec fn id_or_default(id: Option<String>) -> Seq<char> {
    match id {
        Some(s) => s@,
        None => default_workspace_id_spec(),
    }
}

fn id_or_default_exec(id: Option<String>) -> (r: String)
    ensures
        r@ == id_or_default(id),
{
    match id {
        Some(s) => s,
        None => crate::workspace::default_workspace_id(),
    }
}

/// `workspace start` as read from its options.
#[derive(Clone, Debug)]
pub struct ParsedStart {
    pub options: WorkspaceStartOptions,
    pub foreground: bool,
    pub profile_id: Option<String>,
    pub width_explicit: bool,
    pub height_explicit: bool,
    pub dry_run: bool,
}

/// Start options from the flags: the id (or `default`), purpose and
/// acknowledgements given, and the size given or 1280x720; no profile applied yet.
pub open spec fn start_options_from(o: WorkspaceStartOptions, f: CliFlags) -> bool {
    &&& o.id@ == id_or_default(f.id)
    &&& o.purpose == f.purpose
    &&& o.profile_id is None
    &&& o.applied_policy is None
    &&& o.user_acknowledged_hidden_workspace == f.ack_hidden_workspace
    &&& o.user_acknowledged_unenforced_policy == f.ack_unenforced_policy
    &&& o.width == match f.width {
        Some(w) => w,
        None => 1280u32,
    }
    &&& o.height == match f.height {
        Some(h) => h,
        None => 720u32,
    }
}

fn start_options_exec(f: &CliFlags) -> (r: WorkspaceStartOptions)
    ensures
        start_options_from(r, *f),
{
    WorkspaceStartOptions {
        id: id_or_default_exec(f.id.clone()),
        purpose: f.purpose.clone(),
        profile_id: None,
        applied_policy: None,
        user_acknowledged_hidden_workspace: f.ack_hidden_workspace,
        user_acknowledged_unenforced_policy: f.ack_unenforced_policy,
        width: match f.width {
            Some(w) => w,
            None => 1280,
        },
        height: match f.height {
            Some(h) => h,
            None => 720,
        },
    }
}

/// The error of a scan, if it failed.
pub open spec fn scan_error(
    s: Result<(CliFlags, Seq<(Seq<char>, Seq<char>)>, Option<Seq<String>>), CliIssue>,
) -> Option<CliIssue> {
    match s {
        Err(e) => Some(e),
        Ok(_) => None,
    }
}

/// A successful `workspace start` reading of `args`.
pub open spec fn start_ok(args: Seq<String>, p: ParsedStart) -> bool {
    match cli_scan(OptionSet::Start, args, 0, no_flags(), Seq::empty()) {
        Ok((f, _, _)) => start_options_from(p.options, f) && p.foreground == f.foreground
            && p.profile_id == f.profile_id && p.width_explicit == (f.width is Some)
            && p.height_explicit == (f.height is Some) && p.dry_run == f.dry_run,
        Err(_) => false,
    }
}

/// Reads `workspace start [--foreground] [--ack-hidden-workspace]
/// [--ack-unenforced-policy] [--profile P] [--id ID] [--purpose TEXT] [--width N]
/// [--height N]`.
pub fn parse_start_options(args: &Vec<String>) -> (r: Result<ParsedStart, CliError>)
    ensures
        match r {
            Ok(p) => start_ok(args@, p),
            Err(e) => scan_error(cli_scan(OptionSet::Start, args@, 0, no_flags(), Seq::empty()))
                == Some(e@),
        },
{
    let (f, _env, _pos) = match scan_options(OptionSet::Start, args, 0) {
        Ok(s) => s,
        Err(e) => {
            return Err(e);
        },
    };
    Ok(
        ParsedStart {
            options: start_options_exec(&f),
            foreground: f.foreground,
            width_explicit: f.width.is_some(),
            height_explicit: f.height.is_some(),
            profile_id: f.profile_id,
            dry_run: f.dry_run,
        },
    )
}

/// `workspace open-profile` as read from its options.
#[derive(Clone, Debug)]
pub struct ParsedOpenProfile {
    pub options: WorkspaceStartOptions,
    pub profile_id: String,
    pub width_explicit: bool,
    pub height_explicit: bool,
    pub open: ProfileWorkspaceOpenOptions,
}

/// A successful `workspace open-profile` reading of `args`: a setup timeout also
/// asks for setup and for waiting on it; the policy acknowledgement covers the
/// start, the setup and the startup apps.
pub open spec fn open_profile_ok(args: Seq<String>, p: ParsedOpenProfile) -> bool {
    match cli_scan(OptionSet::OpenProfile, args, 0, no_flags(), Seq::empty()) {
        Ok((f, _, _)) => {
            &&& start_options_from(p.options, f)
            &&& f.profile_id == Some(p.profile_id)
            &&& p.width_explicit == (f.width is Some)
            &&& p.height_explicit == (f.height is Some)
            &&& p.open.run_setup == (f.setup || f.setup_timeout_ms is Some)
            &&& p.open.setup.wait == (f.setup_timeout_ms is Some)
            &&& p.open.setup.timeout_ms == f.setup_timeout_ms
            &&& p.open.setup.acknowledge_unenforced_policy == f.ack_unenforced_policy
            &&& p.open.startup.acknowledge_unenforced_policy == f.ack_unenforced_policy
            &&& !p.open.setup.dry_run && !p.open.startup.dry_run
        },
        Err(_) => false,
    }
}

/// The error of a failed `workspace open-profile` reading of `args`.
pub open spec fn open_profile_err(args: Seq<String>, e: CliIssue) -> bool {
    match cli_scan(OptionSet::OpenProfile, args, 0, no_flags(), Seq::empty()) {
        Ok((f, _, _)) => f.profile_id is None && e == CliIssue::Missing {
            message: "workspace open-profile requires --profile PROFILE"@,
        },
        Err(x) => e == x,
    }
}

/// Reads `workspace open-profile --profile P [--ack-hidden-workspace]
/// [--ack-unenforced-policy] [--id ID] [--purpose TEXT] [--width N] [--height N]
/// [--setup] [--setup-timeout-ms N]`.
pub fn parse_open_profile_options(args: &Vec<String>) -> (r: Result<ParsedOpenProfile, CliError>)
    ensures
        match r {
            Ok(p) => open_profile_ok(args@, p),
            Err(e) => open_profile_err(args@, e@),
        },
{
    let (f, _env, _pos) = match scan_options(OptionSet::OpenProfile, args, 0) {
        Ok(s) => s,
        Err(e) => {
            return Err(e);
        },
    };
    let profile_id = match &f.profile_id {
        Some(p) => p.clone(),
        None => {
            return Err(
                CliError::Missing {
                    message: owned("workspace open-profile requires --profile PROFILE"),
                },
            );
        },
    };
    let options = start_options_exec(&f);
    let timed = f.setup_timeout_ms.is_some();
    Ok(
        ParsedOpenProfile {
            options,
            profile_id,
            width_explicit: f.width.is_some(),
            height_explicit: f.height.is_some(),
            open: ProfileWorkspaceOpenOptions {
                run_setup: f.setup || timed,
                setup: ProfileSetupOptions {
                    wait: timed,
                    timeout_ms: f.setup_timeout_ms,
                    acknowledge_unenforced_policy: f.ack_unenforced_policy,
                    dry_run: false,
                },
                startup: ProfileStartupOptions {
                    acknowledge_unenforced_policy: f.ack_unenforced_policy,
                    dry_run: false,
                },
            },
        },
    )
}

/// `workspace launch` or `workspace run` as read from its options and command.
#[derive(Clone, Debug)]
pub struct ParsedLaunch {
    pub id: String,
    pub spec: LaunchSpec,
    pub profile_id: Option<String>,
    pub cwd_explicit: bool,
    pub timeout_ms: Option<u64>,
    pub tail_bytes: Option<u64>,
    pub kill_on_timeout: bool,
    pub dry_run: bool,
}

/// A successful reading of a launch (`run` says whether it is `workspace run`).
pub open spec fn launch_ok(args: Seq<String>, run: bool, p: ParsedLaunch) -> bool {
    let set = if run {
        OptionSet::Run
    } else {
        OptionSet::Launch
    };
    match cli_scan(set, args, 0, no_flags(), Seq::empty()) {
        Ok((f, env, Some(command))) => {
            &&& p.id@ == id_or_default(f.id)
            &&& p.spec.command@ == command
            &&& p.spec.name == f.name
            &&& p.spec.profile_id is None
            &&& p.spec.applied_policy is None
            &&& p.spec.user_acknowledged_unenforced_policy == f.ack_unenforced_policy
            &&& p.spec.cwd == f.cwd
            &&& env_pairs(p.spec.env@) == env
            &&& p.profile_id == f.profile_id
            &&& p.cwd_explicit == (f.cwd is Some)
            &&& p.timeout_ms == f.timeout_ms
            &&& p.tail_bytes == f.tail_bytes
            &&& p.kill_on_timeout == f.kill_on_timeout
            &&& p.dry_run == f.dry_run
        },
        _ => false,
    }
}

/// The error of a failed reading of a launch: that of the options, or a missing
/// command.
pub open spec fn launch_err(args: Seq<String>, run: bool, e: CliIssue) -> bool {
    let set = if run {
        OptionSet::Run
    } else {
        OptionSet::Launch
    };
    match cli_scan(set, args, 0, no_flags(), Seq::empty()) {
        Ok((_, _, None)) => e == CliIssue::Missing { message: missing_positional(set) },
        Ok((_, _, Some(_))) => false,
        Err(x) => e == x,
    }
}

fn parse_launch_like(args: &Vec<String>, run: bool) -> (r: Result<ParsedLaunch, CliError>)
    ensures
        match r {
            Ok(p) => launch_ok(args@, run, p),
            Err(e) => launch_err(args@, run, e@),
        },
{
    let set = if run {
        OptionSet::Run
    } else {
        OptionSet::Launch
    };
    let (f, env, pos) = match scan_options(set, args, 0) {
        Ok(s) => s,
        Err(e) => {
            return Err(e);
        },
    };
    let command = match pos {
        Some(c) => c,
        None => {
            return Err(CliError::Missing { message: missing_positional_exec(set) });
        },
    };
    let cwd_explicit = f.cwd.is_some();
    Ok(
        ParsedLaunch {
            id: id_or_default_exec(f.id),
            spec: LaunchSpec {
                command,
                name: f.name,
                profile_id: None,
                applied_policy: None,
                user_acknowledged_unenforced_policy: f.ack_unenforced_policy,
                cwd: f.cwd,
                env,
            },
            profile_id: f.profile_id,
            cwd_explicit,
            timeout_ms: f.timeout_ms,
            tail_bytes: f.tail_bytes,
            kill_on_timeout: f.kill_on_timeout,
            dry_run: f.dry_run,
        },
    )
}

/// Reads `workspace launch [--id ID] [--profile P] [--name NAME] [--cwd DIR]
/// [--env NAME=VALUE]... [--ack-unenforced-policy] [--] COMMAND [ARGS...]`.
pub fn parse_launch_options(args: &Vec<String>) -> (r: Result<ParsedLaunch, CliError>)
    ensures
        match r {
            Ok(p) => launch_ok(args@, false, p),
            Err(e) => launch_err(args@, false, e@),
        },
{
    parse_launch_like(args, false)
}

/// Reads `workspace run`: the options of a launch, and `--timeout-ms N`,
/// `--tail-bytes N` and `--kill-on-timeout`.
pub fn parse_run_options(args: &Vec<String>) -> (r: Result<ParsedLaunch, CliError>)
    ensures
        match r {
            Ok(p) => launch_ok(args@, true, p),
            Err(e) => launch_err(args@, true, e@),
        },
{
    parse_launch_like(args, true)
}

/// `workspace logs` or `workspace wait-app` as read from its options and app id.
#[derive(Clone, Debug)]
pub struct ParsedAppTarget {
    pub id: String,
    pub app_id: String,
    pub stream: String,
    pub tail_bytes: Option<u64>,
    pub timeout_ms: Option<u64>,
    pub kill_on_timeout: bool,
}

/// A successful reading of `workspace logs` (`logs`) or `workspace wait-app`.
pub open spec fn app_target_ok(args: Seq<String>, logs: bool, p: ParsedAppTarget) -> bool {
    let set = if logs {
        OptionSet::Logs
    } else {
        OptionSet::WaitApp
    };
    match cli_scan(set, args, 0, no_flags(), Seq::empty()) {
        Ok((f, _, Some(pos))) => {
            &&& pos.len() > 0
            &&& p.id@ == id_or_default(f.id)
            &&& p.app_id == pos[0]
            &&& p.stream@ == match f.stream {
                Some(s) => s@,
                None => "stdout"@,
            }
            &&& p.tail_bytes == f.tail_bytes
            &&& p.timeout_ms == f.timeout_ms
            &&& p.kill_on_timeout == f.kill_on_timeout
        },
        _ => false,
    }
}

/// The error of a failed reading of `workspace logs` or `workspace wait-app`.
pub open spec fn app_target_err(args: Seq<String>, logs: bool, e: CliIssue) -> bool {
    let set = if logs {
        OptionSet::Logs
    } else {
        OptionSet::WaitApp
    };
    match cli_scan(set, args, 0, no_flags(), Seq::empty()) {
        Ok((_, _, None)) => e == CliIssue::Missing { message: missing_positional(set) },
        Ok((_, _, Some(pos))) => pos.len() == 0 && e == CliIssue::Missing {
            message: missing_positional(set),
        },
        Err(x) => e == x,
    }
}

fn parse_app_target(args: &Vec<String>, logs: bool) -> (r: Result<ParsedAppTarget, CliError>)
    ensures
        match r {
            Ok(p) => app_target_ok(args@, logs, p),
            Err(e) => app_target_err(args@, logs, e@),
        },
{
    let set = if logs {
        OptionSet::Logs
    } else {
        OptionSet::WaitApp
    };
    let (f, _env, pos) = match scan_options(set, args, 0) {
        Ok(s) => s,
        Err(e) => {
            return Err(e);
        },
    };
    let pos = match pos {
        Some(p) => p,
        None => {
            return Err(CliError::Missing { message: missing_positional_exec(set) });
        },
    };
    if pos.len() == 0 {
        return Err(CliError::Missing { message: missing_positional_exec(set) });
    }
    let app_id = pos[0].clone();
    let stream = match &f.stream {
        Some(s) => s.clone(),
        None => owned("stdout"),
    };
    Ok(
        ParsedAppTarget {
            id: id_or_default_exec(f.id),
            app_id,
            stream,
            tail_bytes: f.tail_bytes,
            timeout_ms: f.timeout_ms,
            kill_on_timeout: f.kill_on_timeout,
        },
    )
}

/// Reads `workspace logs [--id ID] [--stream stdout|stderr] [--tail-bytes N]
/// [--] APP` (the stream defaults to `stdout`).
pub fn parse_logs_options(args: &Vec<String>) -> (r: Result<ParsedAppTarget, CliError>)
    ensures
        match r {
            Ok(p) => app_target_ok(args@, true, p),
            Err(e) => app_target_err(args@, true, e@),
        },
{
    parse_app_target(args, true)
}

/// Reads `workspace wait-app [--id ID] [--timeout-ms N] [--kill-on-timeout] [--]
/// APP`.
pub fn parse_wait_app_options(args: &Vec<String>) -> (r: Result<ParsedAppTarget, CliError>)
    ensures
        match r {
            Ok(p) => app_target_ok(args@, false, p),
            Err(e) => app_target_err(args@, false, e@),
        },
{
    parse_app_target(args, false)
}

/// The flags of a command whose options are all there is to it.
pub open spec fn flags_ok(set: OptionSet, args: Seq<String>, start: int, f: CliFlags) -> bool {
    match cli_scan(set, args, start, no_flags(), Seq::empty()) {
        Ok((g, _, _)) => g == f,
        Err(_) => false,
    }
}

/// Reads `workspace events [--id ID] [--tail N]`.
pub fn parse_events_options(args: &Vec<String>) -> (r: Result<(String, Option<usize>), CliError>)
    ensures
        match r {
            Ok((id, tail)) => exists|f: CliFlags|
                #[trigger] flags_ok(OptionSet::Events, args@, 0, f) && id@ == id_or_default(f.id)
                    && tail == f.tail,
            Err(e) => scan_error(cli_scan(OptionSet::Events, args@, 0, no_flags(), Seq::empty()))
                == Some(e@),
        },
{
    let (f, _env, _pos) = match scan_options(OptionSet::Events, args, 0) {
        Ok(s) => s,
        Err(e) => {
            return Err(e);
        },
    };
    assert(flags_ok(OptionSet::Events, args@, 0, f));
    let tail = f.tail;
    Ok((id_or_default_exec(f.id), tail))
}

/// Reads `workspace screenshot [--id ID] [--output PATH]`.
pub fn parse_screenshot_options(args: &Vec<String>) -> (r: Result<(String, Option<String>), CliError>)
    ensures
        match r {
            Ok((id, output)) => exists|f: CliFlags|
                #[trigger] flags_ok(OptionSet::Screenshot, args@, 0, f) && id@ == id_or_default(
                    f.id,
                ) && output == f.output,
            Err(e) => scan_error(
                cli_scan(OptionSet::Screenshot, args@, 0, no_flags(), Seq::empty()),
            ) == Some(e@),
        },
{
    let (f, _env, _pos) = match scan_options(OptionSet::Screenshot, args, 0) {
        Ok(s) => s,
        Err(e) => {
            return Err(e);
        },
    };
    assert(flags_ok(OptionSet::Screenshot, args@, 0, f));
    let output = f.output.clone();
    Ok((id_or_default_exec(f.id), output))
}

/// The result of reading a command whose only required option is `--profile`.
pub open spec fn profile_required(
    set: OptionSet,
    args: Seq<String>,
    r: Result<(String, String, CliFlags), CliError>,
    message: Seq<char>,
) -> bool {
    match cli_scan(set, args, 0, no_flags(), Seq::empty()) {
        Err(x) => r matches Err(e) && e@ == x,
        Ok((f, _, _)) => match f.profile_id {
            None => r matches Err(e) && e@ == CliIssue::Missing { message },
            Some(p) => r matches Ok((id, profile, g)) && id@ == id_or_default(f.id) && profile
                == p && g == f,
        },
    }
}

fn parse_profile_required(set: OptionSet, args: &Vec<String>, message: &str) -> (r: Result<
    (String, String, CliFlags),
    CliError,
>)
    ensures
        profile_required(set, args@, r, message@),
{
    let (f, _env, _pos) = match scan_options(set, args, 0) {
        Ok(s) => s,
        Err(e) => {
            return Err(e);
        },
    };
    let profile = match &f.profile_id {
        Some(p) => p.clone(),
        None => {
            return Err(CliError::Missing { message: owned(message) });
        },
    };
    let id = id_or_default_exec(f.id.clone());
    Ok((id, profile, f))
}

/// Reads `workspace setup [--id ID] --profile P [--wait] [--timeout-ms N]
/// [--ack-unenforced-policy]`; a timeout also asks to wait.
pub fn parse_workspace_setup_options(args: &Vec<String>) -> (r: Result<
    (String, String, ProfileSetupOptions),
    CliError,
>)
    ensures
        match cli_scan(OptionSet::Setup, args@, 0, no_flags(), Seq::empty()) {
            Err(x) => r matches Err(e) && e@ == x,
            Ok((f, _, _)) => match f.profile_id {
                None => r matches Err(e) && e@ == CliIssue::Missing {
                    message: "workspace setup requires --profile PROFILE"@,
                },
                Some(p) => r matches Ok((id, profile, o)) && id@ == id_or_default(f.id) && profile
                    == p && o.wait == (f.wait || f.timeout_ms is Some) && o.timeout_ms
                    == f.timeout_ms && o.acknowledge_unenforced_policy == f.ack_unenforced_policy
                    && o.dry_run == f.dry_run,
            },
        },
{
    let (id, profile, f) = match parse_profile_required(
        OptionSet::Setup,
        args,
        "workspace setup requires --profile PROFILE",
    ) {
        Ok(t) => t,
        Err(e) => {
            return Err(e);
        },
    };
    Ok(
        (
            id,
            profile,
            ProfileSetupOptions {
                wait: f.wait || f.timeout_ms.is_some(),
                timeout_ms: f.timeout_ms,
                acknowledge_unenforced_policy: f.ack_unenforced_policy,
                dry_run: f.dry_run,
            },
        ),
    )
}

/// Reads `workspace launch-profile-apps [--id ID] --profile P
/// [--ack-unenforced-policy]`.
pub fn parse_profile_launch_options(args: &Vec<String>) -> (r: Result<
    (String, String, ProfileStartupOptions),
    CliError,
>)
    ensures
        match cli_scan(OptionSet::ProfileLaunch, args@, 0, no_flags(), Seq::empty()) {
            Err(x) => r matches Err(e) && e@ == x,
            Ok((f, _, _)) => match f.profile_id {
                None => r matches Err(e) && e@ == CliIssue::Missing {
                    message: "workspace launch-profile-apps requires --profile PROFILE"@,
                },
                Some(p) => r matches Ok((id, profile, o)) && id@ == id_or_default(f.id) && profile
                    == p && o.acknowledge_unenforced_policy == f.ack_unenforced_policy && o.dry_run
                    == f.dry_run,
            },
        },
{
    let (id, profile, f) = match parse_profile_required(
        OptionSet::ProfileLaunch,
        args,
        "workspace launch-profile-apps requires --profile PROFILE",
    ) {
        Ok(t) => t,
        Err(e) => {
            return Err(e);
        },
    };
    Ok(
        (
            id,
            profile,
            ProfileStartupOptions {
                acknowledge_unenforced_policy: f.ack_unenforced_policy,
                dry_run: f.dry_run,
            },
        ),
    )
}

/// Reads `profile template KIND [--id ID] [--host-path PATH]`.
pub fn parse_profile_template_options(args: &Vec<String>) -> (r: Result<
    (String, Option<String>, Option<String>),
    CliError,
>)
    ensures
        args@.len() == 0 ==> (r matches Err(e) && e@ == CliIssue::Missing {
            message: "profile template requires a kind, for example project-dev"@,
        }),
        args@.len() > 0 ==> match cli_scan(OptionSet::Template, args@, 1, no_flags(), Seq::empty()) {
            Err(x) => r matches Err(e) && e@ == x,
            Ok((f, _, _)) => r matches Ok((kind, id, host_path)) && kind == args@[0] && id == f.id
                && host_path == f.host_path,
        },
{
    if args.len() == 0 {
        return Err(
            CliError::Missing {
                message: owned("profile template requires a kind, for example project-dev"),
            },
        );
    }
    let kind = args[0].clone();
    let (f, _env, _pos) = match scan_options(OptionSet::Template, args, 1) {
        Ok(s) => s,
        Err(e) => {
            return Err(e);
        },
    };
    Ok((kind, f.id, f.host_path))
}

/// Reads `profile put --json PATH [--replace] [--dry-run]`: the path, whether to
/// replace a saved profile with the same id, and whether only to preview.
pub fn parse_profile_put_options(args: &Vec<String>) -> (r: Result<(String, bool, bool), CliError>)
    ensures
        match cli_scan(OptionSet::Put, args@, 0, no_flags(), Seq::empty()) {
            Err(x) => r matches Err(e) && e@ == x,
            Ok((f, _, _)) => match f.json {
                None => r matches Err(e) && e@ == CliIssue::Missing {
                    message: "profile put requires --json PATH"@,
                },
                Some(p) => r matches Ok((path, replace, dry_run)) && path == p && replace
                    == f.replace && dry_run == f.dry_run,
            },
        },
{
    let (f, _env, _pos) = match scan_options(OptionSet::Put, args, 0) {
        Ok(s) => s,
        Err(e) => {
            return Err(e);
        },
    };
    match f.json {
        Some(p) => Ok((p, f.replace, f.dry_run)),
        None => Err(CliError::Missing { message: owned("profile put requires --json PATH") }),
    }
}

/// Reads the options of the workspace daemon.
pub fn parse_daemon_options(args: &Vec<String>) -> (r: Result<CliFlags, CliError>)
    ensures
        match r {
            Ok(f) => flags_ok(OptionSet::Daemon, args@, 0, f),
            Err(e) => scan_error(cli_scan(OptionSet::Daemon, args@, 0, no_flags(), Seq::empty()))
                == Some(e@),
        },
{
    let (f, _env, _pos) = match scan_options(OptionSet::Daemon, args, 0) {
        Ok(s) => s,
        Err(e) => {
            return Err(e);
        },
    };
    Ok(f)
}

/// The first required daemon option that is missing, by name.
pub open spec fn daemon_missing(f: CliFlags) -> Option<Seq<char>> {
    if f.id is None {
        Some("--id"@)
    } else if f.display is None {
        Some("--display"@)
    } else if f.width is None {
        Some("--width"@)
    } else if f.height is None {
        Some("--height"@)
    } else if f.runtime_dir is None {
        Some("--runtime-dir"@)
    } else if f.socket is None {
        Some("--socket"@)
    } else if f.xauthority is None {
        Some("--xauthority"@)
    } else {
        None
    }
}

fn missing_daemon(flag: &str) -> (r: CliError)
    ensures
        r@ == (CliIssue::Missing { message: "daemon missing "@ + flag@ }),
{
    CliError::Missing { message: concat2("daemon missing ", flag) }
}

/// The daemon's options from its flags and the applied policy read from the
/// `--policy` file; `--id`, `--display`, `--width`, `--height`, `--runtime-dir`,
/// `--socket` and `--xauthority` are required.
pub fn daemon_options(f: CliFlags, applied_policy: Option<AppliedWorkspacePolicy>) -> (r: Result<
    DaemonOptions,
    CliError,
>)
    ensures
        match daemon_missing(f) {
            Some(flag) => r matches Err(e) && e@ == CliIssue::Missing {
                message: "daemon missing "@ + flag,
            },
            None => r matches Ok(o) && Some(o.id) == f.id && o.purpose == f.purpose
                && o.profile_id == f.profile_id && o.applied_policy == applied_policy
                && o.user_acknowledged_hidden_workspace == f.ack_hidden_workspace
                && o.user_acknowledged_unenforced_policy == f.ack_unenforced_policy && Some(
                o.display,
            ) == f.display && Some(o.width) == f.width && Some(o.height) == f.height && Some(
                o.runtime_dir,
            ) == f.runtime_dir && Some(o.socket_path) == f.socket && Some(o.xauthority_path)
                == f.xauthority,
        },
{
    let id = match f.id {
        Some(v) => v,
        None => {
            return Err(missing_daemon("--id"));
        },
    };
    let display = match f.display {
        Some(v) => v,
        None => {
            return Err(missing_daemon("--display"));
        },
    };
    let width = match f.width {
        Some(v) => v,
        None => {
            return Err(missing_daemon("--width"));
        },
    };
    let height = match f.height {
        Some(v) => v,
        None => {
            return Err(missing_daemon("--height"));
        },
    };
    let runtime_dir = match f.runtime_dir {
        Some(v) => v,
        None => {
            return Err(missing_daemon("--runtime-dir"));
        },
    };
    let socket_path = match f.socket {
        Some(v) => v,
        None => {
            return Err(missing_daemon("--socket"));
        },
    };
    let xauthority_path = match f.xauthority {
        Some(v) => v,
        None => {
            return Err(missing_daemon("--xauthority"));
        },
    };
    Ok(
        DaemonOptions {
            id,
            purpose: f.purpose,
            profile_id: f.profile_id,
            applied_policy,
            user_acknowledged_hidden_workspace: f.ack_hidden_workspace,
            user_acknowledged_unenforced_policy: f.ack_unenforced_policy,
            display,
            width,
            height,
            runtime_dir,
            socket_path,
            xauthority_path,
        },
    )
}

} // verus!

verus! {

// ---------------------------------------------------------------------------
// Dispatch

/// A `workspace` subcommand with its arguments read.
#[derive(Clone, Debug)]
pub enum WorkspaceCommand {
    Start(ParsedStart),
    OpenProfile(ParsedOpenProfile),
    Status { id: String },
    List,
    Cleanup { id: Option<String> },
    Launch(ParsedLaunch),
    Run(ParsedLaunch),
    LaunchProfileApps { id: String, profile_id: String, options: ProfileStartupOptions },
    Windows { id: String },
    Screenshot { id: String, output: Option<String> },
    FocusWindow { id: String, window_id: String },
    CloseWindow { id: String, window_id: String },
    Click { id: String, x: i32, y: i32 },
    Key { id: String, key: String },
    Type { id: String, text: String },
    Logs(ParsedAppTarget),
    WaitApp(ParsedAppTarget),
    Events { id: String, tail: Option<usize> },
    Setup { id: String, profile_id: String, options: ProfileSetupOptions },
    KillApp { id: String, app_id: String },
    Stop { id: String },
}

/// The arguments after the subcommand's name.
pub open spec fn rest_args(args: Seq<String>) -> Seq<String> {
    args.subrange(1, args.len() as int)
}

/// The workspace id and the single argument read from `rest`.
pub open spec fn one_arg_read(rest: Seq<String>, id: String, arg: String) -> bool {
    match id_and_args_scan(rest, 0, default_workspace_id_spec()) {
        Ok((i, a)) => a.len() == 1 && id@ == i && arg@ == a[0]@,
        Err(_) => false,
    }
}

/// A successful reading of `workspace NAME ARGS...`: the subcommand named, with
/// what its own reader gives on the arguments after the name.
pub open spec fn workspace_command_ok(args: Seq<String>, c: WorkspaceCommand) -> bool {
    args.len() > 0 && {
        let name = args[0]@;
        let rest = rest_args(args);
        match c {
            WorkspaceCommand::Start(p) => name == "start"@ && start_ok(rest, p),
            WorkspaceCommand::OpenProfile(p) => name == "open-profile"@ && open_profile_ok(rest, p),
            WorkspaceCommand::Status { id } => name == "status"@ && id_scan(
                rest,
                0,
                default_workspace_id_spec(),
            ) == Ok::<Seq<char>, CliIssue>(id@),
            WorkspaceCommand::List => name == "list"@ && rest.len() == 0,
            WorkspaceCommand::Cleanup { id } => name == "cleanup"@ && optional_id_scan(rest, 0, None)
                == Ok::<Option<Seq<char>>, CliIssue>(opt_view(id)),
            WorkspaceCommand::Launch(p) => name == "launch"@ && launch_ok(rest, false, p),
            WorkspaceCommand::Run(p) => name == "run"@ && launch_ok(rest, true, p),
            WorkspaceCommand::LaunchProfileApps { id, profile_id, options } => name
                == "launch-profile-apps"@ && match cli_scan(
                OptionSet::ProfileLaunch,
                rest,
                0,
                no_flags(),
                Seq::empty(),
            ) {
                Ok((f, _, _)) => f.profile_id == Some(profile_id) && id@ == id_or_default(f.id)
                    && options.acknowledge_unenforced_policy == f.ack_unenforced_policy
                    && options.dry_run == f.dry_run,
                Err(_) => false,
            },
            WorkspaceCommand::Windows { id } => name == "windows"@ && id_scan(
                rest,
                0,
                default_workspace_id_spec(),
            ) == Ok::<Seq<char>, CliIssue>(id@),
            WorkspaceCommand::Screenshot { id, output } => name == "screenshot"@ && exists|
                f: CliFlags,
            |
                #[trigger] flags_ok(OptionSet::Screenshot, rest, 0, f) && id@ == id_or_default(f.id)
                    && output == f.output,
            WorkspaceCommand::FocusWindow { id, window_id } => name == "focus-window"@
                && one_arg_read(rest, id, window_id),
            WorkspaceCommand::CloseWindow { id, window_id } => name == "close-window"@
                && one_arg_read(rest, id, window_id),
            WorkspaceCommand::Click { id, x, y } => name == "click"@ && match id_and_args_scan(
                rest,
                0,
                default_workspace_id_spec(),
            ) {
                Ok((i, a)) => a.len() == 2 && id@ == i && Some(x as int) == parse_i32_spec(a[0]@)
                    && Some(y as int) == parse_i32_spec(a[1]@),
                Err(_) => false,
            },
            WorkspaceCommand::Key { id, key } => name == "key"@ && one_arg_read(rest, id, key),
            WorkspaceCommand::Type { id, text } => name == "type"@ && match id_and_args_scan(
                rest,
                0,
                default_workspace_id_spec(),
            ) {
                Ok((i, a)) => a.len() > 0 && id@ == i && text@ == join(strs(a), " "@),
                Err(_) => false,
            },
            WorkspaceCommand::Logs(p) => name == "logs"@ && app_target_ok(rest, true, p),
            WorkspaceCommand::WaitApp(p) => name == "wait-app"@ && app_target_ok(rest, false, p),
            WorkspaceCommand::Events { id, tail } => name == "events"@ && exists|f: CliFlags|
                #[trigger] flags_ok(OptionSet::Events, rest, 0, f) && id@ == id_or_default(f.id)
                    && tail == f.tail,
            WorkspaceCommand::Setup { id, profile_id, options } => name == "setup"@ && match cli_scan(
                OptionSet::Setup,
                rest,
                0,
                no_flags(),
                Seq::empty(),
            ) {
                Ok((f, _, _)) => f.profile_id == Some(profile_id) && id@ == id_or_default(f.id)
                    && options.wait == (f.wait || f.timeout_ms is Some) && options.timeout_ms
                    == f.timeout_ms && options.acknowledge_unenforced_policy
                    == f.ack_unenforced_policy && options.dry_run == f.dry_run,
                Err(_) => false,
            },
            WorkspaceCommand::KillApp { id, app_id } => name == "kill-app"@ && one_arg_read(
                rest,
                id,
                app_id,
            ),
            WorkspaceCommand::Stop { id } => name == "stop"@ && id_scan(
                rest,
                0,
                default_workspace_id_spec(),
            ) == Ok::<Seq<char>, CliIssue>(id@),
        }
    }
}

/// Whether a name is one of the workspace subcommands.
pub open spec fn is_workspace_command(name: Seq<char>) -> bool {
    name == "start"@ || name == "open-profile"@ || name == "status"@ || name == "list"@ || name
        == "cleanup"@ || name == "launch"@ || name == "run"@ || name == "launch-profile-apps"@
        || name == "windows"@ || name == "screenshot"@ || name == "focus-window"@ || name
        == "close-window"@ || name == "click"@ || name == "key"@ || name == "type"@ || name
        == "logs"@ || name == "wait-app"@ || name == "events"@ || name == "setup"@ || name
        == "kill-app"@ || name == "stop"@
}

/// The message for a missing workspace subcommand.
pub open spec fn missing_workspace_command() -> Seq<char> {
    "missing workspace command. Expected: start, open-profile, list, status, launch, run, launch-profile-apps, windows, screenshot, focus-window, close-window, click, key, type, logs, wait-app, events, setup, kill-app, stop"@
}

/// The error of a failed reading of the single argument after the options.
pub open spec fn one_arg_err(rest: Seq<String>, missing: Seq<char>, e: CliIssue) -> bool {
    match id_and_args_scan(rest, 0, default_workspace_id_spec()) {
        Err(x) => e == x,
        Ok((_, a)) => a.len() != 1 && e == CliIssue::Missing { message: missing },
    }
}

/// The error of a failed reading of a command that needs `--profile`.
pub open spec fn needs_profile_err(set: OptionSet, rest: Seq<String>, missing: Seq<char>, e: CliIssue) -> bool {
    match cli_scan(set, rest, 0, no_flags(), Seq::empty()) {
        Err(x) => e == x,
        Ok((f, _, _)) => f.profile_id is None && e == CliIssue::Missing { message: missing },
    }
}

/// The error of a failed reading of `workspace click`.
pub open spec fn click_err(rest: Seq<String>, e: CliIssue) -> bool {
    match id_and_args_scan(rest, 0, default_workspace_id_spec()) {
        Err(x) => e == x,
        Ok((_, a)) => if a.len() != 2 {
            e == CliIssue::Missing { message: "workspace click requires X and Y coordinates"@ }
        } else if parse_i32_spec(a[0]@) is None {
            e == CliIssue::InvalidNumber { message: "click X must be an integer"@ }
        } else {
            parse_i32_spec(a[1]@) is None && e == CliIssue::InvalidNumber {
                message: "click Y must be an integer"@,
            }
        },
    }
}

/// The error of a failed reading of `workspace type`.
pub open spec fn type_err(rest: Seq<String>, e: CliIssue) -> bool {
    match id_and_args_scan(rest, 0, default_workspace_id_spec()) {
        Err(x) => e == x,
        Ok((_, a)) => a.len() == 0 && e == CliIssue::Missing {
            message: "workspace type requires text"@,
        },
    }
}

/// What a failed reading of `workspace NAME ARGS...` reports: the missing or
/// unknown subcommand, or the error of the subcommand's own reader on the
/// arguments after its name.
pub open spec fn workspace_command_err(args: Seq<String>, e: CliIssue) -> bool {
    if args.len() == 0 {
        e == CliIssue::Missing { message: missing_workspace_command() }
    } else {
        let name = args[0]@;
        let rest = rest_args(args);
        if name == "start"@ {
            scan_error(cli_scan(OptionSet::Start, rest, 0, no_flags(), Seq::empty())) == Some(e)
        } else if name == "open-profile"@ {
            open_profile_err(rest, e)
        } else if name == "status"@ {
            id_scan(rest, 0, default_workspace_id_spec()) == Err::<Seq<char>, CliIssue>(e)
        } else if name == "list"@ {
            rest.len() > 0 && e == CliIssue::NoOptions { command: "workspace list"@, arg: rest[0]@ }
        } else if name == "cleanup"@ {
            optional_id_scan(rest, 0, None) == Err::<Option<Seq<char>>, CliIssue>(e)
        } else if name == "launch"@ {
            launch_err(rest, false, e)
        } else if name == "run"@ {
            launch_err(rest, true, e)
        } else if name == "launch-profile-apps"@ {
            needs_profile_err(
                OptionSet::ProfileLaunch,
                rest,
                "workspace launch-profile-apps requires --profile PROFILE"@,
                e,
            )
        } else if name == "windows"@ {
            id_scan(rest, 0, default_workspace_id_spec()) == Err::<Seq<char>, CliIssue>(e)
        } else if name == "screenshot"@ {
            scan_error(cli_scan(OptionSet::Screenshot, rest, 0, no_flags(), Seq::empty())) == Some(e)
        } else if name == "focus-window"@ {
            one_arg_err(rest, "workspace focus-window requires a window id"@, e)
        } else if name == "close-window"@ {
            one_arg_err(rest, "workspace close-window requires a window id"@, e)
        } else if name == "click"@ {
            click_err(rest, e)
        } else if name == "key"@ {
            one_arg_err(rest, "workspace key requires a key"@, e)
        } else if name == "type"@ {
            type_err(rest, e)
        } else if name == "logs"@ {
            app_target_err(rest, true, e)
        } else if name == "wait-app"@ {
            app_target_err(rest, false, e)
        } else if name == "events"@ {
            scan_error(cli_scan(OptionSet::Events, rest, 0, no_flags(), Seq::empty())) == Some(e)
        } else if name == "setup"@ {
            needs_profile_err(OptionSet::Setup, rest, "workspace setup requires --profile PROFILE"@, e)
        } else if name == "kill-app"@ {
            one_arg_err(rest, "workspace kill-app requires an app id or pid"@, e)
        } else if name == "stop"@ {
            id_scan(rest, 0, default_workspace_id_spec()) == Err::<Seq<char>, CliIssue>(e)
        } else {
            e == CliIssue::UnknownWorkspaceCommand { name }
        }
    }
}

/// Reads `workspace NAME ARGS...`.
pub fn parse_workspace_command(args: &Vec<String>) -> (r: Result<WorkspaceCommand, CliError>)
    ensures
        args@.len() == 0 ==> (r matches Err(e) && e@ == CliIssue::Missing {
            message: missing_workspace_command(),
        }),
        args@.len() > 0 && !is_workspace_command(args@[0]@) ==> (r matches Err(e) && e@
            == CliIssue::UnknownWorkspaceCommand { name: args@[0]@ }),
        r matches Ok(c) ==> workspace_command_ok(args@, c),
        r matches Err(e) ==> workspace_command_err(args@, e@),
{
    if args.len() == 0 {
        return Err(
            CliError::Missing {
                message: owned(
                    "missing workspace command. Expected: start, open-profile, list, status, launch, run, launch-profile-apps, windows, screenshot, focus-window, close-window, click, key, type, logs, wait-app, events, setup, kill-app, stop",
                ),
            },
        );
    }
    let name = args[0].as_str();
    let rest = rest_from(args, 1);
    proof {
        reveal_strlit("start");
        assert("start"@ =~= seq!['s', 't', 'a', 'r', 't']);
        reveal_strlit("open-profile");
        assert("open-profile"@ =~= seq!['o', 'p', 'e', 'n', '-', 'p', 'r', 'o', 'f', 'i', 'l', 'e']);
        reveal_strlit("status");
        assert("status"@ =~= seq!['s', 't', 'a', 't', 'u', 's']);
        reveal_strlit("list");
        assert("list"@ =~= seq!['l', 'i', 's', 't']);
        reveal_strlit("cleanup");
        assert("cleanup"@ =~= seq!['c', 'l', 'e', 'a', 'n', 'u', 'p']);
        reveal_strlit("launch");
        assert("launch"@ =~= seq!['l', 'a', 'u', 'n', 'c', 'h']);
        reveal_strlit("run");
        assert("run"@ =~= seq!['r', 'u', 'n']);
        reveal_strlit("launch-profile-apps");
        assert("launch-profile-apps"@ =~= seq!['l', 'a', 'u', 'n', 'c', 'h', '-', 'p', 'r', 'o', 'f', 'i', 'l', 'e', '-', 'a', 'p', 'p', 's']);
        reveal_strlit("windows");
        assert("windows"@ =~= seq!['w', 'i', 'n', 'd', 'o', 'w', 's']);
        reveal_strlit("screenshot");
        assert("screenshot"@ =~= seq!['s', 'c', 'r', 'e', 'e', 'n', 's', 'h', 'o', 't']);
        reveal_strlit("focus-window");
        assert("focus-window"@ =~= seq!['f', 'o', 'c', 'u', 's', '-', 'w', 'i', 'n', 'd', 'o', 'w']);
        reveal_strlit("close-window");
        assert("close-window"@ =~= seq!['c', 'l', 'o', 's', 'e', '-', 'w', 'i', 'n', 'd', 'o', 'w']);
        reveal_strlit("click");
        assert("click"@ =~= seq!['c', 'l', 'i', 'c', 'k']);
        reveal_strlit("key");
        assert("key"@ =~= seq!['k', 'e', 'y']);
        reveal_strlit("type");
        assert("type"@ =~= seq!['t', 'y', 'p', 'e']);
        reveal_strlit("logs");
        assert("logs"@ =~= seq!['l', 'o', 'g', 's']);
        reveal_strlit("wait-app");
        assert("wait-app"@ =~= seq!['w', 'a', 'i', 't', '-', 'a', 'p', 'p']);
        reveal_strlit("events");
        assert("events"@ =~= seq!['e', 'v', 'e', 'n', 't', 's']);
        reveal_strlit("setup");
        assert("setup"@ =~= seq!['s', 'e', 't', 'u', 'p']);
        reveal_strlit("kill-app");
        assert("kill-app"@ =~= seq!['k', 'i', 'l', 'l', '-', 'a', 'p', 'p']);
        reveal_strlit("stop");
        assert("stop"@ =~= seq!['s', 't', 'o', 'p']);
    }
    let e = |x: &str| -> (b: bool)
        ensures
            b == (name@ == x@),
        { crate::permissions::str_eq(name, x) };
    if e("start") {
        match parse_start_options(&rest) {
            Ok(p) => Ok(WorkspaceCommand::Start(p)),
            Err(err) => Err(err),
        }
    } else if e("open-profile") {
        match parse_open_profile_options(&rest) {
            Ok(p) => Ok(WorkspaceCommand::OpenProfile(p)),
            Err(err) => Err(err),
        }
    } else if e("status") {
        match parse_id_option(&rest) {
            Ok(id) => Ok(WorkspaceCommand::Status { id }),
            Err(err) => Err(err),
        }
    } else if e("list") {
        match parse_no_options(&rest, "workspace list") {
            Ok(()) => Ok(WorkspaceCommand::List),
            Err(err) => Err(err),
        }
    } else if e("cleanup") {
        match parse_optional_id_option(&rest) {
            Ok(id) => Ok(WorkspaceCommand::Cleanup { id }),
            Err(err) => Err(err),
        }
    } else if e("launch") {
        match parse_launch_options(&rest) {
            Ok(p) => Ok(WorkspaceCommand::Launch(p)),
            Err(err) => Err(err),
        }
    } else if e("run") {
        match parse_run_options(&rest) {
            Ok(p) => Ok(WorkspaceCommand::Run(p)),
            Err(err) => Err(err),
        }
    } else if e("launch-profile-apps") {
        match parse_profile_launch_options(&rest) {
            Ok((id, profile_id, options)) => Ok(
                WorkspaceCommand::LaunchProfileApps { id, profile_id, options },
            ),
            Err(err) => Err(err),
        }
    } else if e("windows") {
        match parse_id_option(&rest) {
            Ok(id) => Ok(WorkspaceCommand::Windows { id }),
            Err(err) => Err(err),
        }
    } else if e("screenshot") {
        match parse_screenshot_options(&rest) {
            Ok((id, output)) => Ok(WorkspaceCommand::Screenshot { id, output }),
            Err(err) => Err(err),
        }
    } else if e("focus-window") {
        match parse_one_arg_command(&rest, "workspace focus-window requires a window id") {
            Ok((id, window_id)) => Ok(WorkspaceCommand::FocusWindow { id, window_id }),
            Err(err) => Err(err),
        }
    } else if e("close-window") {
        match parse_one_arg_command(&rest, "workspace close-window requires a window id") {
            Ok((id, window_id)) => Ok(WorkspaceCommand::CloseWindow { id, window_id }),
            Err(err) => Err(err),
        }
    } else if e("click") {
        match parse_click_options(&rest) {
            Ok((id, x, y)) => Ok(WorkspaceCommand::Click { id, x, y }),
            Err(err) => Err(err),
        }
    } else if e("key") {
        match parse_one_arg_command(&rest, "workspace key requires a key") {
            Ok((id, key)) => Ok(WorkspaceCommand::Key { id, key }),
            Err(err) => Err(err),
        }
    } else if e("type") {
        match parse_text_command(&rest) {
            Ok((id, text)) => Ok(WorkspaceCommand::Type { id, text }),
            Err(err) => Err(err),
        }
    } else if e("logs") {
        match parse_logs_options(&rest) {
            Ok(p) => Ok(WorkspaceCommand::Logs(p)),
            Err(err) => Err(err),
        }
    } else if e("wait-app") {
        match parse_wait_app_options(&rest) {
            Ok(p) => Ok(WorkspaceCommand::WaitApp(p)),
            Err(err) => Err(err),
        }
    } else if e("events") {
        match parse_events_options(&rest) {
            Ok((id, tail)) => Ok(WorkspaceCommand::Events { id, tail }),
            Err(err) => Err(err),
        }
    } else if e("setup") {
        match parse_workspace_setup_options(&rest) {
            Ok((id, profile_id, options)) => Ok(WorkspaceCommand::Setup { id, profile_id, options }),
            Err(err) => Err(err),
        }
    } else if e("kill-app") {
        match parse_one_arg_command(&rest, "workspace kill-app requires an app id or pid") {
            Ok((id, app_id)) => Ok(WorkspaceCommand::KillApp { id, app_id }),
            Err(err) => Err(err),
        }
    } else if e("stop") {
        match parse_id_option(&rest) {
            Ok(id) => Ok(WorkspaceCommand::Stop { id }),
            Err(err) => Err(err),
        }
    } else {
        Err(CliError::UnknownWorkspaceCommand { name: args[0].clone() })
    }
}

/// The workspace subcommands that accept `--dry-run` to preview what they would do.
pub open spec fn previewable(name: Seq<char>) -> bool {
    name == "cleanup"@ || name == "close-window"@ || name == "kill-app"@ || name == "stop"@
}

/// The arguments other than `--dry-run`, in order.
pub open spec fn without_dry_run(args: Seq<String>) -> Seq<String>
    decreases args.len(),
{
    if args.len() == 0 {
        Seq::empty()
    } else if args.last()@ == "--dry-run"@ {
        without_dry_run(args.drop_last())
    } else {
        without_dry_run(args.drop_last()).push(args.last())
    }
}

/// Whether `--dry-run` is among the arguments.
pub open spec fn has_dry_run(args: Seq<String>) -> bool {
    exists|i: int| 0 <= i < args.len() && #[trigger] args[i]@ == "--dry-run"@
}

/// The arguments a previewable subcommand is read from once `--dry-run` is taken
/// out (other subcommands keep theirs), and whether a preview was asked for.
pub open spec fn preview_split(args: Seq<String>) -> (Seq<String>, bool) {
    if args.len() > 0 && previewable(args[0]@) {
        (seq![args[0]] + without_dry_run(rest_args(args)), has_dry_run(rest_args(args)))
    } else {
        (args, false)
    }
}

fn split_dry_run(args: &Vec<String>) -> (r: (Vec<String>, bool))
    ensures
        r.0@ == without_dry_run(args@),
        r.1 == has_dry_run(args@),
{
    let mut kept: Vec<String> = Vec::new();
    let mut found = false;
    let mut i: usize = 0;
    proof {
        reveal_strlit("--dry-run");
    }
    assert(args@.subrange(0, 0) =~= Seq::<String>::empty());
    while i < args.len()
        invariant
            i <= args@.len(),
            kept@ == without_dry_run(args@.subrange(0, i as int)),
            found == has_dry_run(args@.subrange(0, i as int)),
        decreases args.len() - i,
    {
        let ghost pre = args@.subrange(0, i as int);
        let ghost next = args@.subrange(0, i + 1);
        assert(next.drop_last() =~= pre);
        assert(next.last() == args@[i as int]);
        let d = crate::permissions::str_eq(args[i].as_str(), "--dry-run");
        if d {
            found = true;
            assert(next[i as int]@ == "--dry-run"@);
        } else {
            kept.push(args[i].clone());
            assert forall|j: int| 0 <= j < next.len() && #[trigger] next[j]@ == "--dry-run"@ implies has_dry_run(pre) by {
                assert(j < i);
                assert(pre[j] == next[j]);
            }
        }
        proof {
            if found && !d {
                let w = choose|j: int| 0 <= j < pre.len() && #[trigger] pre[j]@ == "--dry-run"@;
                assert(next[w] == pre[w]);
            }
        }
        i += 1;
    }
    assert(args@.subrange(0, args@.len() as int) =~= args@);
    (kept, found)
}

/// Reads `workspace NAME ARGS...` where `cleanup`, `close-window`, `kill-app` and
/// `stop` also accept `--dry-run`: the command read from the other arguments, and
/// whether a preview was asked for.
pub fn parse_workspace_command_with_preview(args: &Vec<String>) -> (r: Result<
    (WorkspaceCommand, bool),
    CliError,
>)
    ensures
        r matches Ok((c, d)) ==> d == preview_split(args@).1 && workspace_command_ok(
            preview_split(args@).0,
            c,
        ),
        r matches Err(e) ==> workspace_command_err(preview_split(args@).0, e@),
        (args@.len() > 0 && !is_workspace_command(args@[0]@)) ==> (r matches Err(e) && e@
            == CliIssue::UnknownWorkspaceCommand { name: args@[0]@ }),
{
    if args.len() > 0 {
        let name = args[0].as_str();
        proof {
            reveal_strlit("cleanup");
            reveal_strlit("close-window");
            reveal_strlit("kill-app");
            reveal_strlit("stop");
        }
        if crate::permissions::str_eq(name, "cleanup") || crate::permissions::str_eq(name, "close-window")
            || crate::permissions::str_eq(name, "kill-app") || crate::permissions::str_eq(name, "stop") {
            let rest = rest_from(args, 1);
            let (kept, dry_run) = split_dry_run(&rest);
            let mut stripped: Vec<String> = Vec::new();
            stripped.push(args[0].clone());
            let mut j: usize = 0;
            while j < kept.len()
                invariant
                    j <= kept@.len(),
                    stripped@ == seq![args@[0]] + kept@.subrange(0, j as int),
                decreases kept.len() - j,
            {
                stripped.push(kept[j].clone());
                j += 1;
                assert(stripped@ =~= seq![args@[0]] + kept@.subrange(0, j as int));
            }
            assert(kept@.subrange(0, kept@.len() as int) =~= kept@);
            assert(stripped@ == preview_split(args@).0);
            assert(stripped@[0] == args@[0]);
            return match parse_workspace_command(&stripped) {
                Ok(c) => Ok((c, dry_run)),
                Err(e) => Err(e),
            };
        }
    }
    match parse_workspace_command(args) {
        Ok(c) => Ok((c, false)),
        Err(e) => Err(e),
    }
}

/// A `profile` subcommand with its arguments read.
#[derive(Clone, Debug)]
pub enum ProfileCommand {
    Path,
    List,
    Get { id: String },
    Check { id: String },
    Template { kind: String, id: Option<String>, host_path: Option<String> },
    Put { json_path: String, replace: bool, dry_run: bool },
    Delete { id: String, dry_run: bool },
    Export { id: String, output: Option<String>, replace: bool },
}

/// Reads the options of `profile export ID` from position `i`: `--output PATH`
/// (the last one given wins) and `--replace`.
pub open spec fn export_scan(rest: Seq<String>, i: int, output: Option<String>, replace: bool) -> Result<
    (Option<String>, bool),
    CliIssue,
>
    decreases rest.len() - i,
{
    if i < 1 || i >= rest.len() {
        Ok((output, replace))
    } else if rest[i]@ == "--replace"@ {
        export_scan(rest, i + 1, output, true)
    } else if rest[i]@ == "--output"@ {
        if i + 1 < rest.len() {
            export_scan(rest, i + 2, Some(rest[i + 1]), replace)
        } else {
            Err(CliIssue::MissingValue { flag: "--output"@ })
        }
    } else {
        Err(CliIssue::UnknownOption { command: "profile export"@, flag: rest[i]@ })
    }
}

/// Reads the arguments of `profile export ID [--output PATH] [--replace]`.
pub fn parse_export_args(rest: &Vec<String>) -> (r: Result<(String, Option<String>, bool), CliError>)
    ensures
        rest@.len() == 0 ==> (r matches Err(e) && e@ == CliIssue::Missing {
            message: "profile export requires an id"@,
        }),
        rest@.len() > 0 ==> match export_scan(rest@, 1, None, false) {
            Ok((output, replace)) => r matches Ok((id, o, rp)) && id == rest@[0] && o == output && rp
                == replace,
            Err(x) => r matches Err(e) && e@ == x,
        },
{
    if rest.len() == 0 {
        return Err(CliError::Missing { message: owned("profile export requires an id") });
    }
    let mut output: Option<String> = None;
    let mut replace = false;
    let mut i: usize = 1;
    proof {
        reveal_strlit("--output");
    }
    while i < rest.len()
        invariant
            1 <= i <= rest@.len() + 1,
            export_scan(rest@, 1, None, false) == export_scan(rest@, i as int, output, replace),
        decreases rest.len() + 1 - i,
    {
        if crate::permissions::str_eq(rest[i].as_str(), "--replace") {
            replace = true;
            i += 1;
        } else if crate::permissions::str_eq(rest[i].as_str(), "--output") {
            if i + 1 < rest.len() {
                output = Some(rest[i + 1].clone());
                i += 2;
            } else {
                return Err(CliError::MissingValue { flag: owned("--output") });
            }
        } else {
            return Err(
                CliError::UnknownOption { command: owned("profile export"), flag: rest[i].clone() },
            );
        }
    }
    Ok((rest[0].clone(), output, replace))
}

/// The id and dry-run choice of `profile delete ID [--dry-run]` (`--dry-run` may
/// also come first).
pub open spec fn delete_args(rest: Seq<String>) -> Option<(Seq<char>, bool)> {
    if rest.len() == 1 {
        Some((rest[0]@, false))
    } else if rest.len() == 2 && rest[0]@ == "--dry-run"@ {
        Some((rest[1]@, true))
    } else if rest.len() == 2 && rest[1]@ == "--dry-run"@ {
        Some((rest[0]@, true))
    } else {
        None
    }
}

/// Reads the arguments of `profile delete`.
pub fn parse_delete_args(rest: &Vec<String>) -> (r: Result<(String, bool), CliError>)
    ensures
        match delete_args(rest@) {
            Some((id, dry_run)) => r matches Ok((i, d)) && i@ == id && d == dry_run,
            None => r matches Err(e) && e@ == CliIssue::Missing {
                message: "profile delete requires an id"@,
            },
        },
{
    if rest.len() == 1 {
        return Ok((rest[0].clone(), false));
    }
    if rest.len() == 2 {
        if crate::permissions::str_eq(rest[0].as_str(), "--dry-run") {
            return Ok((rest[1].clone(), true));
        }
        if crate::permissions::str_eq(rest[1].as_str(), "--dry-run") {
            return Ok((rest[0].clone(), true));
        }
    }
    Err(CliError::Missing { message: owned("profile delete requires an id") })
}

/// Whether a name is one of the profile subcommands.
pub open spec fn is_profile_command(name: Seq<char>) -> bool {
    name == "path"@ || name == "list"@ || name == "get"@ || name == "check"@ || name
        == "template"@ || name == "put"@ || name == "delete"@ || name == "export"@
}

/// A successful reading of `profile NAME ARGS...`.
pub open spec fn profile_command_ok(args: Seq<String>, c: ProfileCommand) -> bool {
    args.len() > 0 && {
        let name = args[0]@;
        let rest = rest_args(args);
        match c {
            ProfileCommand::Path => name == "path"@ && rest.len() == 0,
            ProfileCommand::List => name == "list"@ && rest.len() == 0,
            ProfileCommand::Get { id } => name == "get"@ && rest.len() == 1 && id@ == rest[0]@,
            ProfileCommand::Check { id } => name == "check"@ && rest.len() == 1 && id@ == rest[0]@,
            ProfileCommand::Template { kind, id, host_path } => name == "template"@ && rest.len() > 0
                && kind == rest[0] && match cli_scan(OptionSet::Template, rest, 1, no_flags(), Seq::empty()) {
                Ok((f, _, _)) => id == f.id && host_path == f.host_path,
                Err(_) => false,
            },
            ProfileCommand::Put { json_path, replace, dry_run } => name == "put"@ && match cli_scan(
                OptionSet::Put,
                rest,
                0,
                no_flags(),
                Seq::empty(),
            ) {
                Ok((f, _, _)) => f.json == Some(json_path) && replace == f.replace && dry_run
                    == f.dry_run,
                Err(_) => false,
            },
            ProfileCommand::Delete { id, dry_run } => name == "delete"@ && delete_args(rest)
                == Some((id@, dry_run)),
            ProfileCommand::Export { id, output, replace } => name == "export"@ && rest.len() > 0
                && id == rest[0] && export_scan(rest, 1, None, false) == Ok::<
                (Option<String>, bool),
                CliIssue,
            >((output, replace)),
        }
    }
}

/// What a failed reading of `profile NAME ARGS...` reports: the missing or
/// unknown subcommand, or the error of the subcommand's own reader.
pub open spec fn profile_command_err(args: Seq<String>, e: CliIssue) -> bool {
    if args.len() == 0 {
        e == CliIssue::Missing { message: "missing profile command. Expected: "@ + profile_commands() }
    } else {
        let name = args[0]@;
        let rest = rest_args(args);
        if name == "path"@ {
            rest.len() > 0 && e == CliIssue::NoOptions { command: "profile path"@, arg: rest[0]@ }
        } else if name == "list"@ {
            rest.len() > 0 && e == CliIssue::NoOptions { command: "profile list"@, arg: rest[0]@ }
        } else if name == "get"@ {
            rest.len() != 1 && e == CliIssue::Missing { message: "profile get requires an id"@ }
        } else if name == "check"@ {
            rest.len() != 1 && e == CliIssue::Missing { message: "profile check requires an id"@ }
        } else if name == "template"@ {
            if rest.len() == 0 {
                e == CliIssue::Missing {
                    message: "profile template requires a kind, for example project-dev"@,
                }
            } else {
                scan_error(cli_scan(OptionSet::Template, rest, 1, no_flags(), Seq::empty())) == Some(e)
            }
        } else if name == "put"@ {
            match cli_scan(OptionSet::Put, rest, 0, no_flags(), Seq::empty()) {
                Err(x) => e == x,
                Ok((f, _, _)) => f.json is None && e == CliIssue::Missing {
                    message: "profile put requires --json PATH"@,
                },
            }
        } else if name == "delete"@ {
            delete_args(rest) is None && e == CliIssue::Missing {
                message: "profile delete requires an id"@,
            }
        } else if name == "export"@ {
            if rest.len() == 0 {
                e == CliIssue::Missing { message: "profile export requires an id"@ }
            } else {
                export_scan(rest, 1, None, false) == Err::<(Option<String>, bool), CliIssue>(e)
            }
        } else {
            e == CliIssue::UnknownProfileCommand { name }
        }
    }
}

/// Reads `profile NAME ARGS...`.
pub fn parse_profile_command(args: &Vec<String>) -> (r: Result<ProfileCommand, CliError>)
    ensures
        args@.len() == 0 ==> (r matches Err(e) && e@ == CliIssue::Missing {
            message: "missing profile command. Expected: "@ + profile_commands(),
        }),
        args@.len() > 0 && !is_profile_command(args@[0]@) ==> (r matches Err(e) && e@
            == CliIssue::UnknownProfileCommand { name: args@[0]@ }),
        r matches Ok(c) ==> profile_command_ok(args@, c),
        r matches Err(e) ==> profile_command_err(args@, e@),
{
    if args.len() == 0 {
        return Err(
            CliError::Missing {
                message: concat2(
                    "missing profile command. Expected: ",
                    "path, list, get, check, template, put, delete, export",
                ),
            },
        );
    }
    let name = args[0].as_str();
    let rest = rest_from(args, 1);
    proof {
        reveal_strlit("path");
        assert("path"@ =~= seq!['p', 'a', 't', 'h']);
        reveal_strlit("list");
        assert("list"@ =~= seq!['l', 'i', 's', 't']);
        reveal_strlit("get");
        assert("get"@ =~= seq!['g', 'e', 't']);
        reveal_strlit("check");
        assert("check"@ =~= seq!['c', 'h', 'e', 'c', 'k']);
        reveal_strlit("template");
        assert("template"@ =~= seq!['t', 'e', 'm', 'p', 'l', 'a', 't', 'e']);
        reveal_strlit("put");
        assert("put"@ =~= seq!['p', 'u', 't']);
        reveal_strlit("delete");
        assert("delete"@ =~= seq!['d', 'e', 'l', 'e', 't', 'e']);
        reveal_strlit("export");
        assert("export"@ =~= seq!['e', 'x', 'p', 'o', 'r', 't']);
    }
    let e = |x: &str| -> (b: bool)
        ensures
            b == (name@ == x@),
        { crate::permissions::str_eq(name, x) };
    if e("path") {
        match parse_no_options(&rest, "profile path") {
            Ok(()) => Ok(ProfileCommand::Path),
            Err(err) => Err(err),
        }
    } else if e("list") {
        match parse_no_options(&rest, "profile list") {
            Ok(()) => Ok(ProfileCommand::List),
            Err(err) => Err(err),
        }
    } else if e("get") {
        match parse_required_id_arg(&rest, "profile get requires an id") {
            Ok(id) => Ok(ProfileCommand::Get { id }),
            Err(err) => Err(err),
        }
    } else if e("check") {
        match parse_required_id_arg(&rest, "profile check requires an id") {
            Ok(id) => Ok(ProfileCommand::Check { id }),
            Err(err) => Err(err),
        }
    } else if e("template") {
        match parse_profile_template_options(&rest) {
            Ok((kind, id, host_path)) => Ok(ProfileCommand::Template { kind, id, host_path }),
            Err(err) => Err(err),
        }
    } else if e("put") {
        match parse_profile_put_options(&rest) {
            Ok((json_path, replace, dry_run)) => Ok(ProfileCommand::Put { json_path, replace, dry_run }),
            Err(err) => Err(err),
        }
    } else if e("delete") {
        match parse_delete_args(&rest) {
            Ok((id, dry_run)) => Ok(ProfileCommand::Delete { id, dry_run }),
            Err(err) => Err(err),
        }
    } else if e("export") {
        match parse_export_args(&rest) {
            Ok((id, output, replace)) => Ok(ProfileCommand::Export { id, output, replace }),
            Err(err) => Err(err),
        }
    } else {
        Err(CliError::UnknownProfileCommand { name: args[0].clone() })
    }
}

/// The top-level command.
#[derive(Clone, Debug)]
pub enum TopCommand {
    Doctor,
    Mcp,
    Profile { args: Vec<String> },
    Workspace { args: Vec<String> },
    Daemon { args: Vec<String> },
    Help,
}

/// Reads the first argument of the program: the command, with the arguments it
/// passes on; no argument, `--help` and `-h` ask for help.
pub fn parse_top_command(args: &Vec<String>) -> (r: Result<TopCommand, CliError>)
    ensures
        args@.len() == 0 ==> (r matches Ok(TopCommand::Help)),
        args@.len() > 0 ==> {
            let name = args@[0]@;
            if name == "doctor"@ {
                r matches Ok(TopCommand::Doctor)
            } else if name == "mcp"@ {
                r matches Ok(TopCommand::Mcp)
            } else if name == "profile"@ {
                r matches Ok(TopCommand::Profile { args: a }) && a@ == rest_args(args@)
            } else if name == "workspace"@ {
                r matches Ok(TopCommand::Workspace { args: a }) && a@ == rest_args(args@)
            } else if name == "daemon"@ {
                r matches Ok(TopCommand::Daemon { args: a }) && a@ == rest_args(args@)
            } else if name == "--help"@ || name == "-h"@ {
                r matches Ok(TopCommand::Help)
            } else {
                r matches Err(e) && e@ == CliIssue::UnknownCommand { name }
            }
        },
{
    if args.len() == 0 {
        return Ok(TopCommand::Help);
    }
    let name = args[0].as_str();
    let e = |x: &str| -> (b: bool)
        ensures
            b == (name@ == x@),
        { crate::permissions::str_eq(name, x) };
    if e("doctor") {
        Ok(TopCommand::Doctor)
    } else if e("mcp") {
        Ok(TopCommand::Mcp)
    } else if e("profile") {
        Ok(TopCommand::Profile { args: rest_from(args, 1) })
    } else if e("workspace") {
        Ok(TopCommand::Workspace { args: rest_from(args, 1) })
    } else if e("daemon") {
        Ok(TopCommand::Daemon { args: rest_from(args, 1) })
    } else if e("--help") || e("-h") {
        Ok(TopCommand::Help)
    } else {
        Err(CliError::UnknownCommand { name: args[0].clone() })
    }
}

} // verus!
