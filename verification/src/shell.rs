//! How a command line is handed to the host's command shell.

use vstd::prelude::*;

verus! {

/// The family of the host's command shell.
#[derive(Clone, Copy, Debug, PartialEq, Eq, Structural)]
pub enum Platform {
    Unix,
    Windows,
}

/// A program and its arguments, ready to be launched.
#[derive(Clone, Debug, PartialEq, Eq)]
pub struct ShellInvocation {
    pub program: String,
    pub args: Vec<String>,
}

/// The name of the command shell.
pub open spec fn shell_program(platform: Platform) -> Seq<char> {
    match platform {
        Platform::Unix => "sh"@,
        Platform::Windows => "cmd"@,
    }
}

/// The flag that makes the shell run its next argument as a command line.
pub open spec fn shell_flag(platform: Platform) -> Seq<char> {
    match platform {
        Platform::Unix => "-c"@,
        Platform::Windows => "/C"@,
    }
}

/// Wraps `command` in the shell indirection of `platform`: `sh -c <command>`
/// or `cmd /C <command>`. The command line is passed as one argument, as it
/// is: nothing is parsed, quoted or escaped.
pub fn shell_invocation(platform: Platform, command: &str) -> (inv: ShellInvocation)
    ensures
        inv.program@ == shell_program(platform),
        inv.args@.len() == 2,
        inv.args@[0]@ == shell_flag(platform),
        inv.args@[1]@ == command@,
{
    let mut args: Vec<String> = Vec::new();
    match platform {
        Platform::Unix => {
            args.push("-c".to_owned());
            args.push(command.to_owned());
            ShellInvocation { program: "sh".to_owned(), args }
        },
        Platform::Windows => {
            args.push("/C".to_owned());
            args.push(command.to_owned());
            ShellInvocation { program: "cmd".to_owned(), args }
        },
    }
}

} // verus!
