//! Command lines for the device bridge.

use vstd::prelude::*;
use vstd::string::*;

verus! {

/// Which device to talk to, and whether the bridge's own output is shown.
#[derive(Debug)]
pub struct AdbSettings {
    pub verbose: bool,
    pub device_name: String,
}

/// Where one of the child's output streams goes.
#[derive(Clone, Copy, Debug, PartialEq, Eq, Structural)]
pub enum Stream {
    /// Shown to the user, on the parent's own stream.
    Inherit,
    /// Thrown away.
    Null,
    /// Collected and handed back with the exit status.
    Piped,
}

/// One run of the device bridge: the program, its arguments in order, and
/// what becomes of its two output streams.
#[derive(Debug)]
pub struct Invocation {
    pub program: String,
    pub args: Vec<String>,
    pub stdout: Stream,
    pub stderr: Stream,
}

/// The mathematical content of an [`Invocation`].
pub struct CommandLine {
    pub program: Seq<char>,
    pub args: Seq<Seq<char>>,
    pub stdout: Stream,
    pub stderr: Stream,
}

/// The texts of a sequence of strings, in order.
pub open spec fn texts(items: Seq<String>) -> Seq<Seq<char>> {
    Seq::new(items.len(), |i: int| items[i]@)
}

impl View for Invocation {
    type V = CommandLine;

    open spec fn view(&self) -> CommandLine {
        CommandLine {
            program: self.program@,
            args: texts(self.args@),
            stdout: self.stdout,
            stderr: self.stderr,
        }
    }
}

/// A stream that follows the verbose flag: shown when set, discarded when not.
pub open spec fn gated(verbose: bool) -> Stream {
    if verbose {
        Stream::Inherit
    } else {
        Stream::Null
    }
}

/// The full argument list: the device selector, the device, then `args`.
pub open spec fn device_args(device: Seq<char>, args: Seq<Seq<char>>) -> Seq<Seq<char>> {
    seq!["-s"@, device] + args
}

/// A run whose output is streamed or discarded, both streams by the verbose flag.
pub open spec fn execute_command(args: Seq<Seq<char>>, device: Seq<char>, verbose: bool)
    -> CommandLine {
    CommandLine {
        program: "adb"@,
        args: device_args(device, args),
        stdout: gated(verbose),
        stderr: gated(verbose),
    }
}

/// A run whose standard output is always collected; standard error follows
/// the verbose flag.
pub open spec fn query_command(args: Seq<Seq<char>>, device: Seq<char>, verbose: bool)
    -> CommandLine {
    CommandLine {
        program: "adb"@,
        args: device_args(device, args),
        stdout: Stream::Piped,
        stderr: gated(verbose),
    }
}

/// `adb -s <device> pull <source> <destination>`.
pub open spec fn pull_command(
    source: Seq<char>,
    destination: Seq<char>,
    device: Seq<char>,
    verbose: bool,
) -> CommandLine {
    execute_command(seq!["pull"@, source, destination], device, verbose)
}

/// `adb -s <device> push <source> <destination>`.
pub open spec fn push_command(
    source: Seq<char>,
    destination: Seq<char>,
    device: Seq<char>,
    verbose: bool,
) -> CommandLine {
    execute_command(seq!["push"@, source, destination], device, verbose)
}

/// `adb -s <device> shell find <source> -type f -newermt <mod_date>`.
pub open spec fn find_command(
    source: Seq<char>,
    mod_date: Seq<char>,
    device: Seq<char>,
    verbose: bool,
) -> CommandLine {
    query_command(
        seq!["shell"@, "find"@, source, "-type"@, "f"@, "-newermt"@, mod_date],
        device,
        verbose,
    )
}

fn gate(verbose: bool) -> (stream: Stream)
    ensures
        stream == gated(verbose),
{
    if verbose {
        Stream::Inherit
    } else {
        Stream::Null
    }
}

fn with_device(args: Vec<String>, settings: &AdbSettings) -> (full: Vec<String>)
    ensures
        texts(full@) == device_args(settings.device_name@, texts(args@)),
{
    let mut rest = args;
    let mut full: Vec<String> = Vec::new();
    full.push(String::from_str("-s"));
    full.push(settings.device_name.clone());
    full.append(&mut rest);
    assert(texts(full@) =~= device_args(settings.device_name@, texts(args@)));
    full
}

/// Builds the run of a subcommand whose output is only shown or discarded.
pub fn execute_invocation(args: Vec<String>, settings: &AdbSettings) -> (inv: Invocation)
    ensures
        inv@ == execute_command(texts(args@), settings.device_name@, settings.verbose),
{
    Invocation {
        program: String::from_str("adb"),
        args: with_device(args, settings),
        stdout: gate(settings.verbose),
        stderr: gate(settings.verbose),
    }
}

/// Builds the run of a subcommand whose standard output is to be read.
pub fn query_invocation(args: Vec<String>, settings: &AdbSettings) -> (inv: Invocation)
    ensures
        inv@ == query_command(texts(args@), settings.device_name@, settings.verbose),
{
    Invocation {
        program: String::from_str("adb"),
        args: with_device(args, settings),
        stdout: Stream::Piped,
        stderr: gate(settings.verbose),
    }
}

/// The run that retrieves `source_path` from the device into
/// `destination_path` on the host.
pub fn pull_files(source_path: &String, destination_path: &String, settings: &AdbSettings)
    -> (inv: Invocation)
    ensures
        inv@ == pull_command(
            source_path@,
            destination_path@,
            settings.device_name@,
            settings.verbose,
        ),
{
    let mut args: Vec<String> = Vec::new();
    args.push(String::from_str("pull"));
    args.push(source_path.clone());
    args.push(destination_path.clone());
    assert(texts(args@) =~= seq!["pull"@, source_path@, destination_path@]);
    execute_invocation(args, settings)
}

/// The run that sends `source_path` on the host to `destination_path` on the
/// device.
pub fn push_files(source_path: &String, destination_path: &String, settings: &AdbSettings)
    -> (inv: Invocation)
    ensures
        inv@ == push_command(
            source_path@,
            destination_path@,
            settings.device_name@,
            settings.verbose,
        ),
{
    let mut args: Vec<String> = Vec::new();
    args.push(String::from_str("push"));
    args.push(source_path.clone());
    args.push(destination_path.clone());
    assert(texts(args@) =~= seq!["push"@, source_path@, destination_path@]);
    execute_invocation(args, settings)
}

/// The run that asks the device for the regular files under `source_path`
/// modified after `mod_date`. The date is handed on as it came.
pub fn query_files_after_mod_date(source_path: &String, mod_date: &String, settings: &AdbSettings)
    -> (inv: Invocation)
    ensures
        inv@ == find_command(source_path@, mod_date@, settings.device_name@, settings.verbose),
{
    let mut args: Vec<String> = Vec::new();
    args.push(String::from_str("shell"));
    args.push(String::from_str("find"));
    args.push(source_path.clone());
    args.push(String::from_str("-type"));
    args.push(String::from_str("f"));
    args.push(String::from_str("-newermt"));
    args.push(mod_date.clone());
    assert(texts(args@) =~= seq![
        "shell"@,
        "find"@,
        source_path@,
        "-type"@,
        "f"@,
        "-newermt"@,
        mod_date@,
    ]);
    query_invocation(args, settings)
}

/// A pull and a push of the same paths to the same device differ in the
/// subcommand's name and in nothing else: same program, same streams, the
/// same number of arguments, and every argument but the third the same.
pub proof fn pull_and_push_differ_only_in_subcommand(
    source: Seq<char>,
    destination: Seq<char>,
    device: Seq<char>,
    verbose: bool,
)
    ensures
        ({
            let pull = pull_command(source, destination, device, verbose);
            let push = push_command(source, destination, device, verbose);
            &&& pull.program == push.program
            &&& pull.stdout == push.stdout
            &&& pull.stderr == push.stderr
            &&& pull.args.len() == 5
            &&& push.args.len() == 5
            &&& pull.args[0] == "-s"@
            &&& pull.args[1] == device
            &&& pull.args[2] == "pull"@
            &&& push.args[2] == "push"@
            &&& pull.args[3] == source
            &&& pull.args[4] == destination
            &&& forall|i: int| 0 <= i < 5 && i != 2 ==> pull.args[i] == push.args[i]
        }),
{
}

} // verus!
