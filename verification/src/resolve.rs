//! The command resolver: pick exactly one mode from the flags present, by a
//! fixed precedence. Resolution is total; rejection of conflicting flags is a
//! separate structural check that runs before any mode-specific parsing.
use vstd::prelude::*;
use crate::opts::{CommandType, RawArgs};

verus! {

/// How many of the five mode flags were supplied.
pub open spec fn mode_flag_count(a: RawArgs) -> int {
    (if a.port is Some { 1 as int } else { 0 as int })
        + (if a.host is Some { 1 as int } else { 0 as int })
        + (if a.ping is Some { 1 as int } else { 0 as int })
        + (if a.trace is Some { 1 as int } else { 0 as int })
        + (if a.domain is Some { 1 as int } else { 0 as int })
}

/// The mode the fixed precedence selects: port over host over ping over
/// trace over domain, and port scan when no mode flag is given.
pub open spec fn resolved_mode(a: RawArgs) -> CommandType {
    if a.port is Some {
        CommandType::PortScan
    } else if a.host is Some {
        CommandType::HostScan
    } else if a.ping is Some {
        CommandType::Ping
    } else if a.trace is Some {
        CommandType::Traceroute
    } else if a.domain is Some {
        CommandType::DomainScan
    } else {
        CommandType::PortScan
    }
}

pub fn count_mode_flags(a: &RawArgs) -> (r: usize)
    ensures
        r == mode_flag_count(*a),
{
    let mut r: usize = 0;
    if a.port.is_some() {
        r += 1;
    }
    if a.host.is_some() {
        r += 1;
    }
    if a.ping.is_some() {
        r += 1;
    }
    if a.trace.is_some() {
        r += 1;
    }
    if a.domain.is_some() {
        r += 1;
    }
    r
}

/// Select exactly one mode. Total: it never fails, whatever flags are present.
pub fn resolve_command(a: &RawArgs) -> (r: CommandType)
    ensures
        r == resolved_mode(*a),
{
    if a.port.is_some() {
        CommandType::PortScan
    } else if a.host.is_some() {
        CommandType::HostScan
    } else if a.ping.is_some() {
        CommandType::Ping
    } else if a.trace.is_some() {
        CommandType::Traceroute
    } else if a.domain.is_some() {
        CommandType::DomainScan
    } else {
        CommandType::PortScan
    }
}

/// With no mode flag supplied at all, resolution defaults to a port scan.
pub proof fn lemma_default_mode_is_port_scan(a: RawArgs)
    requires
        mode_flag_count(a) == 0,
    ensures
        resolved_mode(a) == CommandType::PortScan,
{
}

} // verus!
