//! Choice of the host's suspend command.
//!
//! The suspend action itself belongs to the operating system: the tool
//! only shells out to one privileged command, chosen by platform. The
//! choice is made here; the binary around the library detects the
//! build platform and spawns the chosen command. A platform without a
//! known suspend command yields `None`, surfaced as an explicit
//! "unsupported platform" error rather than a pretended success.

use vstd::prelude::*;

verus! {

/// The platform families the tool distinguishes.
#[derive(Clone, Copy, Debug, PartialEq, Eq, Structural)]
pub enum Platform {
    Windows,
    Linux,
    MacOs,
}

/// One external command: a program and its arguments.
#[derive(Debug)]
pub struct SuspendCommand {
    pub program: String,
    pub args: Vec<String>,
}

/// Picks the platform's native suspend command, to be issued once when
/// the countdown finishes: on Windows the power-profile helper, on
/// Linux the service manager's suspend action. No macOS command is
/// known here, so that platform gets `None`.
pub fn put_computer_to_sleep(platform: Platform) -> (r: Option<SuspendCommand>)
    ensures
        match platform {
            Platform::Windows => (r matches Some(c) && c.program@ == "rundll32.exe"@
                && c.args@.len() == 4 && c.args@[0]@ == "powrprof.dll"@ && c.args@[1]@ == ","@
                && c.args@[2]@ == "SetSuspendState"@ && c.args@[3]@ == "0,1,0"@),
            Platform::Linux => (r matches Some(c) && c.program@ == "systemctl"@
                && c.args@.len() == 1 && c.args@[0]@ == "suspend"@),
            Platform::MacOs => r is None,
        },
{
    match platform {
        Platform::Windows => {
            let mut args: Vec<String> = Vec::new();
            args.push("powrprof.dll".to_owned());
            args.push(",".to_owned());
            args.push("SetSuspendState".to_owned());
            args.push("0,1,0".to_owned());
            Some(SuspendCommand { program: "rundll32.exe".to_owned(), args })
        },
        Platform::Linux => {
            let mut args: Vec<String> = Vec::new();
            args.push("suspend".to_owned());
            Some(SuspendCommand { program: "systemctl".to_owned(), args })
        },
        Platform::MacOs => None,
    }
}

} // verus!
