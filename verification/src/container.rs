//! The sandbox profile and the command lines derived from it.

use vstd::prelude::*;
use vstd::string::*;
use crate::decimal::{decimal, decimal_text, signed_decimal, signed_text};
use crate::words::{is_plain_word, plain_word};

verus! {

/// Resource limits and runtime selection for one sandboxed run.
#[derive(Clone)]
pub struct ContainerSettings {
    /// Fraction of CPUs, as decimal text such as `0.5`.
    pub cpu: String,
    /// Memory ceiling, such as `100m`.
    pub memory: String,
    /// Swap ceiling. Carried along, but never handed to the runtime: its
    /// arithmetic with the memory ceiling makes the runtime refuse to start.
    pub swap: String,
    /// Registry-qualified image name.
    pub image: String,
    /// Wall-clock ceiling of a run, in milliseconds.
    pub max_runtime: u64,
    /// Network mode, such as `none`.
    pub network: String,
    /// Ceiling on the number of processes inside the sandbox.
    pub pid_limit: u64,
    /// Whether this process itself runs inside a container, and so has to
    /// address the engine through a remote socket.
    pub running_in_container: bool,
}

/// A program and its argument vector, ready to be spawned once.
pub struct RuntimeCommand {
    pub program: String,
    pub arguments: Vec<String>,
}

/// Why the image could not be prepared.
#[derive(Clone, Copy, Debug, PartialEq, Eq, Structural)]
pub enum PullError {
    /// The pull ended with this non-zero exit code.
    Failed { code: i32 },
    /// The pull ended without an exit code that could be read.
    NoExitCode,
}

impl PullError {
    pub open spec fn message_text(&self) -> Seq<char> {
        match self {
            PullError::Failed { code } => "Could not pull container image, got error code "@
                + signed_text(*code as int),
            PullError::NoExitCode => "Could not pull container image, got no exit code"@,
        }
    }

    /// What to tell about the failure.
    pub fn message(&self) -> (text: String)
        ensures
            text@ == self.message_text(),
    {
        match self {
            PullError::Failed { code } => {
                let mut text = String::from_str("Could not pull container image, got error code ");
                let digits = signed_decimal(*code as i64);
                text.append(digits.as_str());
                text
            },
            PullError::NoExitCode => String::from_str(
                "Could not pull container image, got no exit code",
            ),
        }
    }
}

pub open spec fn space() -> Seq<char> {
    seq![' ']
}

/// Name of the runtime binary that talks to the local container engine.
pub open spec fn local_runtime() -> Seq<char> {
    "podman"@
}

/// Name of the runtime binary that talks to a remote engine socket.
pub open spec fn remote_runtime() -> Seq<char> {
    "podman-remote"@
}

/// The runtime binary to invoke, as a function of whether this process
/// itself runs inside a container.
pub open spec fn runtime_binary(in_container: bool) -> Seq<char> {
    if in_container {
        remote_runtime()
    } else {
        local_runtime()
    }
}

pub open spec fn drop_capabilities_flag() -> Seq<char> {
    "--cap-drop=ALL"@
}

pub open spec fn no_new_privileges_flag() -> Seq<char> {
    "--security-opt=no-new-privileges"@
}

pub open spec fn cpus_flag() -> Seq<char> {
    "--cpus="@
}

pub open spec fn memory_flag() -> Seq<char> {
    "--memory="@
}

pub open spec fn network_flag() -> Seq<char> {
    "--network="@
}

pub open spec fn pids_flag() -> Seq<char> {
    "--pids-limit="@
}

/// Start of every spelling of the runtime's swap ceiling flag.
pub open spec fn swap_flag() -> Seq<char> {
    "--memory-swap"@
}

pub open spec fn run_verb() -> Seq<char> {
    "run"@
}

pub open spec fn remove_flag() -> Seq<char> {
    "--rm"@
}

pub open spec fn pull_verb() -> Seq<char> {
    "pull"@
}

pub open spec fn shell() -> Seq<char> {
    "sh"@
}

pub open spec fn shell_command_flag() -> Seq<char> {
    "-c"@
}

impl ContainerSettings {
    /// The profile's invariant: every textual limit is one plain shell
    /// word, the image cannot be mistaken for a flag, and both numeric
    /// ceilings are positive.
    pub open spec fn wf(&self) -> bool {
        &&& is_plain_word(self.cpu@)
        &&& is_plain_word(self.memory@)
        &&& is_plain_word(self.swap@)
        &&& is_plain_word(self.network@)
        &&& is_plain_word(self.image@)
        &&& self.image@[0] != '-'
        &&& self.max_runtime > 0
        &&& self.pid_limit >= 1
    }

    /// The hardening and resource flags, in the order they are passed.
    pub open spec fn flag_words(&self) -> Seq<Seq<char>> {
        seq![
            drop_capabilities_flag(),
            no_new_privileges_flag(),
            cpus_flag() + self.cpu@,
            memory_flag() + self.memory@,
            network_flag() + self.network@,
            pids_flag() + decimal_text(self.pid_limit as nat),
        ]
    }

    /// The flags as one string, separated by single spaces.
    pub open spec fn runtime_flags(&self) -> Seq<char> {
        drop_capabilities_flag() + space() + no_new_privileges_flag() + space() + (cpus_flag()
            + self.cpu@) + space() + (memory_flag() + self.memory@) + space() + (network_flag()
            + self.network@) + space() + (pids_flag() + decimal_text(self.pid_limit as nat))
    }

    /// The line that runs `command` inside a fresh, self-removing container.
    pub open spec fn run_line(&self, command: Seq<char>) -> Seq<char> {
        runtime_binary(self.running_in_container) + space() + run_verb() + space() + remove_flag()
            + space() + self.runtime_flags() + space() + self.image@ + space() + command
    }

    /// Checks the profile's invariant.
    pub fn is_well_formed(&self) -> (ok: bool)
        ensures
            ok == self.wf(),
    {
        plain_word(self.cpu.as_str()) && plain_word(self.memory.as_str()) && plain_word(
            self.swap.as_str(),
        ) && plain_word(self.network.as_str()) && plain_word(self.image.as_str())
            && self.image.as_str().get_char(0) != '-' && self.max_runtime > 0 && self.pid_limit
            >= 1
    }
}

pub trait ContainerActions {
    /// The runtime binary to invoke.
    fn container_command(&self) -> String;

    /// The hardening and resource flags for the runtime.
    fn generate_runtime_flags(&self) -> String;

    /// The command that pulls the image ahead of the first run.
    fn pull_command(&self) -> RuntimeCommand;

    /// Judges the exit code of the pull, `None` standing for a code that
    /// could not be read.
    fn pull_image(&self, exit_code: Option<i32>) -> Result<(), PullError>;

    /// The command that runs `command` in the sandbox, through a shell.
    fn invoke_command(&self, command: String) -> RuntimeCommand;
}

impl ContainerActions for ContainerSettings {
    /// Either the remote-socket binary or the local one.
    fn container_command(&self) -> (name: String)
        ensures
            name@ == runtime_binary(self.running_in_container),
    {
        if self.running_in_container {
            String::from_str("podman-remote")
        } else {
            String::from_str("podman")
        }
    }

    /// Capabilities dropped, privilege escalation disabled, then the CPU,
    /// memory, network and process ceilings. No swap flag.
    fn generate_runtime_flags(&self) -> (flags: String)
        ensures
            flags@ == self.runtime_flags(),
    {
        proof {
            reveal_strlit(" ");
        }
        let mut flags = String::from_str("--cap-drop=ALL");
        flags.append(" ");
        flags.append("--security-opt=no-new-privileges");
        flags.append(" ");
        flags.append("--cpus=");
        flags.append(self.cpu.as_str());
        flags.append(" ");
        flags.append("--memory=");
        flags.append(self.memory.as_str());
        flags.append(" ");
        flags.append("--network=");
        flags.append(self.network.as_str());
        flags.append(" ");
        flags.append("--pids-limit=");
        let pids = decimal(self.pid_limit);
        flags.append(pids.as_str());
        assert(" "@ =~= space());
        assert(flags@ =~= self.runtime_flags());
        flags
    }

    fn pull_command(&self) -> (command: RuntimeCommand)
        ensures
            command.program@ == runtime_binary(self.running_in_container),
            command.arguments@.len() == 2,
            command.arguments@[0]@ == pull_verb(),
            command.arguments@[1]@ == self.image@,
    {
        let mut arguments: Vec<String> = Vec::new();
        arguments.push(String::from_str("pull"));
        arguments.push(self.image.clone());
        RuntimeCommand { program: self.container_command(), arguments }
    }

    /// Only exit code zero lets startup proceed.
    fn pull_image(&self, exit_code: Option<i32>) -> (verdict: Result<(), PullError>)
        ensures
            verdict == pull_verdict(exit_code),
    {
        match exit_code {
            Some(code) => {
                if code == 0 {
                    Ok(())
                } else {
                    Err(PullError::Failed { code })
                }
            },
            None => Err(PullError::NoExitCode),
        }
    }

    /// The whole line travels as the single argument of `sh -c`, so
    /// `command` has to be shell-safe already.
    fn invoke_command(&self, command: String) -> (shell_command: RuntimeCommand)
        ensures
            shell_command.program@ == shell(),
            shell_command.arguments@.len() == 2,
            shell_command.arguments@[0]@ == shell_command_flag(),
            shell_command.arguments@[1]@ == self.run_line(command@),
    {
        proof {
            reveal_strlit(" ");
        }
        let mut line = self.container_command();
        line.append(" ");
        line.append("run");
        line.append(" ");
        line.append("--rm");
        line.append(" ");
        let flags = self.generate_runtime_flags();
        line.append(flags.as_str());
        line.append(" ");
        line.append(self.image.as_str());
        line.append(" ");
        line.append(command.as_str());
        assert(" "@ =~= space());
        assert(line@ =~= self.run_line(command@));
        let mut arguments: Vec<String> = Vec::new();
        arguments.push(String::from_str("-c"));
        arguments.push(line);
        RuntimeCommand { program: String::from_str("sh"), arguments }
    }
}

/// Success exactly for exit code zero; otherwise the error names the code,
/// or says that there was none to read.
pub open spec fn pull_verdict(exit_code: Option<i32>) -> Result<(), PullError> {
    match exit_code {
        Some(code) => if code == 0 {
            Ok(())
        } else {
            Err(PullError::Failed { code })
        },
        None => Err(PullError::NoExitCode),
    }
}

} // verus!
