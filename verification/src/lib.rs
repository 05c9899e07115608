//! Command resolution and execution dispatch for a network reconnaissance
//! command line: turn a raw argument map into exactly one validated option
//! descriptor, decide from privilege and platform whether and how it may
//! run, and route it to the matching external handler. Every stage is a
//! pure function of its input plus read-only platform facts; actual probing,
//! output rendering and system queries belong to the surrounding program.
use vstd::prelude::*;

pub mod gate;
pub mod opts;
pub mod parse;
pub mod ports;
pub mod resolve;
pub mod target;
pub mod text;
pub mod validator;

verus! {

/// Per-run context that replaces any global mutable state: it is built once
/// per invocation and threaded into the components that need it.
pub struct RunContext {
    pub quiet: bool,
}

/// Check if quiet mode is enabled for this run.
pub fn is_quiet_mode(ctx: &RunContext) -> (r: bool)
    ensures
        r == ctx.quiet,
{
    ctx.quiet
}

/// Enable or disable quiet mode for this run. Always succeeds: the context
/// is owned by the caller, so there is no lock to contend on.
pub fn set_quiet_mode(ctx: &mut RunContext, enabled: bool) -> (r: Result<(), String>)
    ensures
        final(ctx).quiet == enabled,
        r is Ok,
{
    ctx.quiet = enabled;
    Ok(())
}

/// The sub-commands the surrounding program understands, one per word.
#[derive(PartialEq, Eq, Structural, Clone, Copy, Debug)]
pub enum AppCommands {
    PortScan,
    HostScan,
    Ping,
    Trace,
    Subdomain,
    Neighbor,
    Interfaces,
    Interface,
    CheckDependencies,
}

/// The sub-command each word names, if any.
pub open spec fn app_command_of(s: Seq<char>) -> Option<AppCommands> {
    if s == "port"@ {
        Some(AppCommands::PortScan)
    } else if s == "host"@ {
        Some(AppCommands::HostScan)
    } else if s == "ping"@ {
        Some(AppCommands::Ping)
    } else if s == "trace"@ {
        Some(AppCommands::Trace)
    } else if s == "subdomain"@ {
        Some(AppCommands::Subdomain)
    } else if s == "nei"@ {
        Some(AppCommands::Neighbor)
    } else if s == "interfaces"@ {
        Some(AppCommands::Interfaces)
    } else if s == "interface"@ {
        Some(AppCommands::Interface)
    } else if s == "check"@ {
        Some(AppCommands::CheckDependencies)
    } else {
        None
    }
}

impl AppCommands {
    pub fn from_str(s: &str) -> (r: Option<AppCommands>)
        ensures
            r == app_command_of(s@),
    {
        if crate::validator::str_eq(s, "port") {
            Some(AppCommands::PortScan)
        } else if crate::validator::str_eq(s, "host") {
            Some(AppCommands::HostScan)
        } else if crate::validator::str_eq(s, "ping") {
            Some(AppCommands::Ping)
        } else if crate::validator::str_eq(s, "trace") {
            Some(AppCommands::Trace)
        } else if crate::validator::str_eq(s, "subdomain") {
            Some(AppCommands::Subdomain)
        } else if crate::validator::str_eq(s, "nei") {
            Some(AppCommands::Neighbor)
        } else if crate::validator::str_eq(s, "interfaces") {
            Some(AppCommands::Interfaces)
        } else if crate::validator::str_eq(s, "interface") {
            Some(AppCommands::Interface)
        } else if crate::validator::str_eq(s, "check") {
            Some(AppCommands::CheckDependencies)
        } else {
            None
        }
    }
}

} // verus!
