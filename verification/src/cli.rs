//! Command-line decisions: which subcommands end the program, which shell a
//! completion script is for, and where that script is installed. Parsing the
//! arguments and writing files are left to the caller.

use vstd::prelude::*;
use crate::text::{seq_contains, str_contains};

verus! {

/// The name that `std::path::Path::file_name` gives of `path`.
pub uninterp spec fn path_file_name(path: Seq<char>) -> Option<Seq<char>>;

/// `std::path::Path::file_name`: the last component of the path, none when it
/// ends in `..` or is a root; named `path_file_name`.
#[verifier::external_body]
fn file_name(path: &str) -> (r: Option<String>)
    ensures
        match r {
            Some(n) => path_file_name(path@) == Some(n@),
            None => path_file_name(path@) is None,
        },
{
    match std::path::Path::new(path).file_name() {
        Some(n) => Some(n.to_string_lossy().into_owned()),
        None => None,
    }
}

/// What to query from the running compositor.
#[derive(Debug, Clone, Copy, PartialEq, Eq, Structural)]
pub enum CliSubQuery {
    Outputs,
    Inputs,
    Windows,
    FocusedWindow,
    FocusedWorkspace,
}

/// Whether the program goes on after the command line was handled.
#[derive(Debug, Clone, Copy, PartialEq, Eq, Structural)]
pub enum CliHandleOutcome {
    Exit,
    Continue,
}

/// A shell that completion scripts can be made for.
#[derive(Debug, Clone, Copy, PartialEq, Eq, Structural)]
pub enum ShellKind {
    Bash,
    Zsh,
    Fish,
    Elvish,
    PowerShell,
}

/// A subcommand.
#[derive(Debug, Clone)]
pub enum CliSub {
    /// Query runtime information.
    Query { query: CliSubQuery, json: bool },
    /// Validate a configuration file.
    Validate { config: Option<String> },
    /// Make completion scripts for a shell.
    MakeCompletion { shell: Option<ShellKind>, stdout: bool },
    /// Ask the running instance to exit.
    Exit,
}

/// The parsed command line.
#[derive(Debug, Clone)]
pub struct Cli {
    pub config: Option<String>,
    pub subcommand: Option<CliSub>,
}

/// The subcommand ends the program once it is done: every subcommand does,
/// `exit` included (it asks a running instance to exit and starts none).
pub open spec fn ends_program(sub: Option<CliSub>) -> bool {
    sub is Some
}

impl Cli {
    /// The outcome once the subcommand has been carried out: every subcommand
    /// ends the program; without one the compositor starts.
    pub fn outcome(&self) -> (r: CliHandleOutcome)
        ensures
            r == (if ends_program(self.subcommand) {
                CliHandleOutcome::Exit
            } else {
                CliHandleOutcome::Continue
            }),
    {
        match &self.subcommand {
            Some(_) => CliHandleOutcome::Exit,
            None => CliHandleOutcome::Continue,
        }
    }
}

/// Every subcommand ends the program once it is done, `exit` among them;
/// only a command line without a subcommand starts the compositor.
pub proof fn lemma_subcommands_end_program(query: CliSubQuery, json: bool, config: Option<String>, shell: Option<ShellKind>, stdout: bool)
    ensures
        ends_program(Some(CliSub::Exit)),
        ends_program(Some(CliSub::Query { query, json })),
        ends_program(Some(CliSub::Validate { config })),
        ends_program(Some(CliSub::MakeCompletion { shell, stdout })),
        !ends_program(None),
{
}

/// The shell could not be told or is not supported.
#[derive(Debug, Clone)]
pub enum CliError {
    ShellNotDetected,
    ShellNotSupported { shell: String },
}

/// `bash`.
pub open spec fn bash_name() -> Seq<char> {
    seq!['b', 'a', 's', 'h']
}

/// `zsh`.
pub open spec fn zsh_name() -> Seq<char> {
    seq!['z', 's', 'h']
}

/// `fish`.
pub open spec fn fish_name() -> Seq<char> {
    seq!['f', 'i', 's', 'h']
}

/// `elvish`.
pub open spec fn elvish_name() -> Seq<char> {
    seq!['e', 'l', 'v', 'i', 's', 'h']
}

/// The shell a program name names, by the first of `bash`, `zsh`, `fish` and
/// `elvish` that it contains.
pub open spec fn shell_named(name: Seq<char>) -> Option<ShellKind> {
    if seq_contains(name, bash_name()) {
        Some(ShellKind::Bash)
    } else if seq_contains(name, zsh_name()) {
        Some(ShellKind::Zsh)
    } else if seq_contains(name, fish_name()) {
        Some(ShellKind::Fish)
    } else if seq_contains(name, elvish_name()) {
        Some(ShellKind::Elvish)
    } else {
        None
    }
}

/// The shell that `shell_var`, the value of `SHELL`, names: none when the
/// variable is unset or has no file name, else the shell its file name
/// contains.
pub open spec fn detected_shell(shell_var: Option<Seq<char>>) -> Result<ShellKind, Option<Seq<char>>> {
    match shell_var {
        None => Err(None),
        Some(v) => match path_file_name(v) {
            None => Err(None),
            Some(name) => match shell_named(name) {
                Some(s) => Ok(s),
                None => Err(Some(name)),
            },
        },
    }
}

/// The characters of an optional string slice.
pub open spec fn opt_chars(o: Option<&str>) -> Option<Seq<char>> {
    match o {
        Some(s) => Some(s@),
        None => None,
    }
}

/// The error that a failed detection gives.
pub open spec fn detection_error(e: CliError, failure: Option<Seq<char>>) -> bool {
    match failure {
        None => e is ShellNotDetected,
        Some(name) => e matches CliError::ShellNotSupported { shell } && shell@ == name,
    }
}

/// The user's shell, from `shell_var`, the value of `SHELL`.
pub fn get_shell(shell_var: Option<&str>) -> (r: Result<ShellKind, CliError>)
    ensures
        match detected_shell(opt_chars(shell_var)) {
            Ok(s) => r == Ok::<ShellKind, CliError>(s),
            Err(failure) => r matches Err(e) && detection_error(e, failure),
        },
{
    let var = match shell_var {
        Some(v) => v,
        None => {
            return Err(CliError::ShellNotDetected);
        },
    };
    let name = match file_name(var) {
        Some(n) => n,
        None => {
            return Err(CliError::ShellNotDetected);
        },
    };
    let (bash, zsh, fish, elvish) = ("bash", "zsh", "fish", "elvish");
    proof {
        reveal_strlit("bash");
        reveal_strlit("zsh");
        reveal_strlit("fish");
        reveal_strlit("elvish");
        assert(bash@ =~= bash_name());
        assert(zsh@ =~= zsh_name());
        assert(fish@ =~= fish_name());
        assert(elvish@ =~= elvish_name());
    }
    if str_contains(name.as_str(), bash) {
        Ok(ShellKind::Bash)
    } else if str_contains(name.as_str(), zsh) {
        Ok(ShellKind::Zsh)
    } else if str_contains(name.as_str(), fish) {
        Ok(ShellKind::Fish)
    } else if str_contains(name.as_str(), elvish) {
        Ok(ShellKind::Elvish)
    } else {
        Err(CliError::ShellNotSupported { shell: name })
    }
}

/// The shell to make completions for: a shell given on the command line is
/// the target; without one, the user's shell is detected.
pub fn choose_shell(requested: Option<ShellKind>, shell_var: Option<&str>) -> (r: Result<
    ShellKind,
    CliError,
>)
    ensures
        match requested {
            Some(q) => r == Ok::<ShellKind, CliError>(q),
            None => match detected_shell(opt_chars(shell_var)) {
                Ok(s) => r == Ok::<ShellKind, CliError>(s),
                Err(failure) => r matches Err(e) && detection_error(e, failure),
            },
        },
{
    match requested {
        Some(q) => Ok(q),
        None => get_shell(shell_var),
    }
}

/// Where the completion script for `shell` is installed.
pub fn get_shell_completion_file(shell: ShellKind) -> (r: &'static str)
    requires
        shell != ShellKind::PowerShell,
    ensures
        shell == ShellKind::Bash ==> r@ == "/usr/share/bash-completion/completions/muxw"@,
        shell == ShellKind::Zsh ==> r@ == "/usr/share/zsh/site-functions/_muxw"@,
        shell == ShellKind::Fish ==> r@ == "/usr/share/fish/completions/muxw.fish"@,
        shell == ShellKind::Elvish ==> r@ == "/usr/share/elvish/lib/muxw.elv"@,
{
    match shell {
        ShellKind::Bash => "/usr/share/bash-completion/completions/muxw",
        ShellKind::Zsh => "/usr/share/zsh/site-functions/_muxw",
        ShellKind::Fish => "/usr/share/fish/completions/muxw.fish",
        ShellKind::Elvish => "/usr/share/elvish/lib/muxw.elv",
        ShellKind::PowerShell => unreached(),
    }
}

/// A subcommand of the compositor's command line.
#[derive(Debug, Clone, Copy, PartialEq, Eq, Structural)]
pub enum CliCommand {
    /// Query the compositor for runtime information.
    Query { target: QueryTarget, json: bool },
    /// Check the configuration file.
    Check,
}

/// What to query from the compositor.
#[derive(Debug, Clone, Copy, PartialEq, Eq, Structural)]
pub enum QueryTarget {
    Outputs,
    Inputs,
    Windows,
    FocusedWindow,
    FocusedWorkspace,
}

} // verus!
