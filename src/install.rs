//! Dependency installation decisions: the presence checks to make, whether
//! to install, the command that installs, and the outcome.
use vstd::prelude::*;
use vstd::string::StringExecFns;
use crate::resolve::{format_path, resolve_placeholders, HostDirs};

verus! {

/// A declared dependency.
#[derive(Debug)]
pub enum Dependency {
    /// Installed with `cargo install`, from crates.io or from a git URL.
    Cargo { name: String, git: Option<String> },
    /// Installed by piping the output of a shell command into `bash`; present
    /// when `binary` is on the PATH or `directory` exists.
    Bash { name: String, command: String, binary: Option<String>, directory: Option<String> },
}

/// A program to run with its arguments.
#[derive(Debug)]
pub struct InstallCommand {
    pub program: String,
    pub args: Vec<String>,
}

/// Whether to install a dependency.
#[derive(Debug)]
pub enum InstallPlan {
    AlreadyPresent,
    Run { command: InstallCommand },
}

/// The result of ensuring a dependency is installed.
#[derive(Clone, Copy, Debug, PartialEq, Eq, Structural)]
pub enum InstallOutcome {
    AlreadyPresent,
    Installed,
    Failed,
}

pub open spec fn args_view(args: Seq<String>) -> Seq<Seq<char>> {
    args.map_values(|a: String| a@)
}

/// The program and arguments that install `dep`.
pub open spec fn install_command_of(dep: Dependency) -> (Seq<char>, Seq<Seq<char>>) {
    match dep {
        Dependency::Cargo { name, git } => match git {
            Some(g) => ("cargo"@, seq!["install"@, "--git"@, g@]),
            None => ("cargo"@, seq!["install"@, name@]),
        },
        Dependency::Bash { command, .. } => ("bash"@, seq!["-c"@, command@ + " | bash"@]),
    }
}

/// Whether the presence checks found the dependency: only checks the
/// dependency declares count.
pub open spec fn found_present(dep: Dependency, binary_found: bool, directory_found: bool) -> bool {
    match dep {
        Dependency::Cargo { .. } => false,
        Dependency::Bash { binary, directory, .. } =>
            (binary is Some && binary_found) || (directory is Some && directory_found),
    }
}

/// Builds the command that installs `dep`.
pub fn install_command(dep: &Dependency) -> (r: InstallCommand)
    ensures
        (r.program@, args_view(r.args@)) == install_command_of(*dep),
{
    let mut args: Vec<String> = Vec::new();
    match dep {
        Dependency::Cargo { name, git } => {
            args.push(String::from_str("install"));
            match git {
                Some(g) => {
                    args.push(String::from_str("--git"));
                    args.push(g.clone());
                },
                None => {
                    args.push(name.clone());
                },
            }
            assert(args_view(args@) =~= install_command_of(*dep).1);
            InstallCommand { program: String::from_str("cargo"), args }
        },
        Dependency::Bash { command, .. } => {
            args.push(String::from_str("-c"));
            let script = command.clone().concat(" | bash");
            args.push(script);
            assert(args_view(args@) =~= install_command_of(*dep).1);
            InstallCommand { program: String::from_str("bash"), args }
        },
    }
}

/// The directory whose existence shows that `dep` is installed, with its
/// placeholders resolved.
pub fn presence_directory(dep: &Dependency, dirs: &HostDirs) -> (r: Option<String>)
    ensures
        match *dep {
            Dependency::Bash { directory: Some(d), .. } =>
                r matches Some(p) && p@ == resolve_placeholders(d@, dirs.home@, dirs.config@),
            _ => r is None,
        },
{
    match dep {
        Dependency::Bash { directory: Some(d), .. } => Some(format_path(d.as_str(), dirs)),
        _ => None,
    }
}

/// Relies on which::which: whether a binary of that name is found on the
/// PATH. The answer depends on the host.
#[verifier::external_body]
fn on_path(binary: &str) -> (r: bool) {
    which::which(binary).is_ok()
}

/// The binary whose presence on the PATH shows that `dep` is installed.
pub fn presence_binary(dep: &Dependency) -> (r: Option<String>)
    ensures
        match *dep {
            Dependency::Bash { binary: Some(b), .. } => r matches Some(n) && n@ == b@,
            _ => r is None,
        },
{
    match dep {
        Dependency::Bash { binary: Some(b), .. } => Some(b.clone()),
        _ => None,
    }
}

/// Looks the binary named by `presence_binary` up on the PATH; false when
/// the dependency declares none.
pub fn binary_present(dep: &Dependency) -> (r: bool)
    ensures
        !(dep matches Dependency::Bash { binary: Some(b), .. }) ==> !r,
{
    match presence_binary(dep) {
        Some(name) => on_path(name.as_str()),
        None => false,
    }
}

/// Decides whether to install `dep` from the results of its presence checks.
pub fn install_decision(dep: &Dependency, binary_found: bool, directory_found: bool) -> (r: InstallPlan)
    ensures
        found_present(*dep, binary_found, directory_found) ==> r is AlreadyPresent,
        !found_present(*dep, binary_found, directory_found) ==> (r matches InstallPlan::Run { command }
            && (command.program@, args_view(command.args@)) == install_command_of(*dep)),
{
    let present = match dep {
        Dependency::Cargo { .. } => false,
        Dependency::Bash { binary, directory, .. } =>
            (binary.is_some() && binary_found) || (directory.is_some() && directory_found),
    };
    if present {
        InstallPlan::AlreadyPresent
    } else {
        InstallPlan::Run { command: install_command(dep) }
    }
}

/// The outcome of running an install command: installed only when it could
/// be started and exited successfully.
pub fn install_outcome(started: bool, succeeded: bool) -> (r: InstallOutcome)
    ensures
        r == if started && succeeded { InstallOutcome::Installed } else { InstallOutcome::Failed },
{
    if started && succeeded {
        InstallOutcome::Installed
    } else {
        InstallOutcome::Failed
    }
}

} // verus!
