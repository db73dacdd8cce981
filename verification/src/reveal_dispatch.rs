// The reveal dispatcher: for a target location and the host platform
// family it constructs the exact file-manager invocation that highlights
// the target, and maps the launch attempt's fate into a result. The
// file manager is long-lived and user-facing, so only the launch is
// judged; nothing waits for or inspects the process beyond that.

use vstd::prelude::*;
use vstd::string::StringExecFns;

use crate::invocation::Invocation;
use crate::invocation::InvocationModel;
use crate::invocation::strings_view;
use crate::pathname::parent_location;
use crate::pathname::parent_of;

verus! {

/// The platform family the process runs under. Environmental, not
/// user-supplied; queried once by the surrounding shell.
#[derive(Debug, Clone, Copy, PartialEq, Eq, Structural)]
pub enum OsKind {
    MacOs,
    Windows,
    Linux,
}

/// Where the Linux file manager is pointed: the parent directory of the
/// target, or the target itself unchanged when it has no parent.
pub open spec fn linux_reveal_target(target: Seq<char>) -> Seq<char> {
    match parent_of(target) {
        Some(dir) => dir,
        None => target,
    }
}

/// The program that reveals a file on a host.
pub open spec fn spec_reveal_program(host: OsKind) -> Seq<char> {
    match host {
        OsKind::MacOs => "open"@,
        OsKind::Windows => "explorer"@,
        OsKind::Linux => "xdg-open"@,
    }
}

/// The argument vector of the reveal invocation: `-R <target>` for the
/// macOS family; the single literal flag `/select,` then the target for
/// the Windows family, whose tool takes the comma in place of a
/// separating space; the enclosing directory alone for the Linux family.
pub open spec fn spec_reveal_args(host: OsKind, target: Seq<char>) -> Seq<Seq<char>> {
    match host {
        OsKind::MacOs => seq!["-R"@, target],
        OsKind::Windows => seq!["/select,"@, target],
        OsKind::Linux => seq![linux_reveal_target(target)],
    }
}

/// The complete reveal invocation for a target on a host.
pub open spec fn spec_reveal_invocation(host: OsKind, target: Seq<char>) -> InvocationModel {
    InvocationModel { program: spec_reveal_program(host), args: spec_reveal_args(host, target) }
}

/// The platform-appropriate file-manager invocation that reveals the
/// target: a pure dispatch on the host family, with no logic shared
/// across the branches.
pub fn reveal_invocation(target: &str, host: OsKind) -> (r: Invocation)
    ensures
        r@ == spec_reveal_invocation(host, target@),
{
    match host {
        OsKind::MacOs => {
            let mut args: Vec<String> = Vec::new();
            args.push(String::from_str("-R"));
            args.push(target.to_owned());
            let r = Invocation { program: String::from_str("open"), args };
            proof {
                assert(strings_view(r.args@) =~= spec_reveal_args(host, target@));
            }
            r
        },
        OsKind::Windows => {
            let mut args: Vec<String> = Vec::new();
            args.push(String::from_str("/select,"));
            args.push(target.to_owned());
            let r = Invocation { program: String::from_str("explorer"), args };
            proof {
                assert(strings_view(r.args@) =~= spec_reveal_args(host, target@));
            }
            r
        },
        OsKind::Linux => {
            let directory = match parent_location(target) {
                Some(dir) => dir,
                None => target.to_owned(),
            };
            let mut args: Vec<String> = Vec::new();
            args.push(directory);
            let r = Invocation { program: String::from_str("xdg-open"), args };
            proof {
                assert(strings_view(r.args@) =~= spec_reveal_args(host, target@));
            }
            r
        },
    }
}

/// How the one attempt to start the file manager ended. Launch is all
/// that is ever observed: the dispatcher has no view of the process past
/// its start, so a file manager that never exits delays nothing.
#[derive(Debug, Clone)]
pub enum LaunchAttempt {
    /// The process was confirmed started.
    Launched,
    /// The operating system refused or failed to start it; carries the
    /// launch error text.
    NotLaunched { detail: String },
}

/// Why a reveal failed: the only failure this layer can see is a failed
/// launch.
#[derive(Debug, Clone)]
pub struct RevealError {
    /// The launch-level error text.
    pub detail: String,
}

impl RevealError {
    /// The human-readable message of this error, with the launch error
    /// text embedded verbatim.
    pub fn message(&self) -> (r: String)
        ensures
            r@ == "Failed to reveal file: "@ + self.detail@,
    {
        String::from_str("Failed to reveal file: ").concat(self.detail.as_str())
    }
}

/// The result a reveal reports, from the launch attempt alone: success
/// exactly when the file manager was confirmed started, and otherwise the
/// launch error text. The eventual fate of the started process is not an
/// input, so the result never waits on it.
pub fn reveal_result(attempt: LaunchAttempt) -> (r: Result<(), RevealError>)
    ensures
        r is Ok <==> attempt is Launched,
        attempt matches LaunchAttempt::NotLaunched { detail } ==> (r matches Err(e)
            && e.detail@ == detail@),
{
    match attempt {
        LaunchAttempt::Launched => Ok(()),
        LaunchAttempt::NotLaunched { detail } => Err(RevealError { detail }),
    }
}

} // verus!
