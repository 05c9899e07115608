//! The privilege/platform admission stage and the execution dispatcher's
//! routing table. Given a resolved command and read-only platform facts, it
//! decides: run directly, run under a single-shot cooperative runtime, or
//! refuse.
use vstd::prelude::*;
use crate::opts::{
    CommandType, DomainScanOption, HostScanOption, HostScanType, PingOption, PortScanOption,
    PortScanType, TracerouteOption,
};

verus! {

/// The host operating system family, as far as admission control cares.
#[derive(PartialEq, Eq, Structural, Clone, Copy, Debug)]
pub enum OsFamily {
    Windows,
    Linux,
    MacOs,
    OtherUnix,
}

/// Read-only facts about the invoking process and its platform, queried once
/// per run by the surrounding program.
#[derive(PartialEq, Eq, Structural, Clone, Copy, Debug)]
pub struct PlatformFacts {
    pub privileged: bool,
    pub os: OsFamily,
}

/// How an allowed command is to be run.
#[derive(PartialEq, Eq, Structural, Clone, Copy, Debug)]
pub enum ExecutionMode {
    /// Call the handler directly on the calling thread.
    Direct,
    /// Run the handler under a cooperative runtime scoped to this one call.
    CooperativeSingleShot,
}

/// Why a command was refused.
#[derive(PartialEq, Eq, Structural, Clone, Copy, Debug)]
pub enum RefuseReason {
    AsyncSynUnsupported,
    RequiresPrivilege,
}

/// The admission decision.
#[derive(PartialEq, Eq, Structural, Clone, Copy, Debug)]
pub enum GateDecision {
    Allow(ExecutionMode),
    Refuse(RefuseReason),
}

impl RefuseReason {
    /// The single diagnostic line for this refusal.
    pub fn message(&self) -> (m: String)
        ensures
            self is AsyncSynUnsupported ==> m@ == "Async TCP SYN Scan is not supported on Windows"@,
            self is RequiresPrivilege ==> m@ == "Requires administrator privilege"@,
    {
        match self {
            RefuseReason::AsyncSynUnsupported => {
                let mut s = String::new();
                s.append("Async TCP SYN Scan is not supported on Windows");
                s
            },
            RefuseReason::RequiresPrivilege => {
                let mut s = String::new();
                s.append("Requires administrator privilege");
                s
            },
        }
    }
}

/// Whether this platform grants ICMP access to unprivileged processes,
/// letting ping and traceroute run without elevation.
pub open spec fn icmp_without_privilege(os: OsFamily) -> bool {
    os is Windows
}

/// Whether this platform supports asynchronous raw-socket SYN scanning.
pub open spec fn async_raw_socket_supported(os: OsFamily) -> bool {
    !(os is Windows)
}

/// The decision table for a port scan.
pub open spec fn port_gate(scan_type: PortScanType, async_scan: bool, f: PlatformFacts)
    -> GateDecision {
    match scan_type {
        PortScanType::TcpSynScan => if async_scan && !async_raw_socket_supported(f.os) {
            GateDecision::Refuse(RefuseReason::AsyncSynUnsupported)
        } else if !f.privileged {
            GateDecision::Refuse(RefuseReason::RequiresPrivilege)
        } else {
            GateDecision::Allow(ExecutionMode::CooperativeSingleShot)
        },
        PortScanType::TcpConnectScan => GateDecision::Allow(ExecutionMode::CooperativeSingleShot),
    }
}

/// The decision table for a host scan.
pub open spec fn host_gate(scan_type: HostScanType, f: PlatformFacts) -> GateDecision {
    match scan_type {
        HostScanType::IcmpPingScan => if !f.privileged {
            GateDecision::Refuse(RefuseReason::RequiresPrivilege)
        } else {
            GateDecision::Allow(ExecutionMode::CooperativeSingleShot)
        },
        _ => GateDecision::Allow(ExecutionMode::CooperativeSingleShot),
    }
}

/// The decision table for ping and traceroute: elevation is required unless
/// the platform grants ICMP to unprivileged processes.
pub open spec fn icmp_gate(f: PlatformFacts) -> GateDecision {
    if f.privileged || icmp_without_privilege(f.os) {
        GateDecision::Allow(ExecutionMode::Direct)
    } else {
        GateDecision::Refuse(RefuseReason::RequiresPrivilege)
    }
}

pub fn gate_port_scan(o: &PortScanOption, f: &PlatformFacts) -> (r: GateDecision)
    ensures
        r == port_gate(o.scan_type, o.async_scan, *f),
{
    match o.scan_type {
        PortScanType::TcpSynScan => {
            if o.async_scan && matches!(f.os, OsFamily::Windows) {
                GateDecision::Refuse(RefuseReason::AsyncSynUnsupported)
            } else if !f.privileged {
                GateDecision::Refuse(RefuseReason::RequiresPrivilege)
            } else {
                GateDecision::Allow(ExecutionMode::CooperativeSingleShot)
            }
        },
        PortScanType::TcpConnectScan => GateDecision::Allow(ExecutionMode::CooperativeSingleShot),
    }
}

pub fn gate_host_scan(o: &HostScanOption, f: &PlatformFacts) -> (r: GateDecision)
    ensures
        r == host_gate(o.scan_type, *f),
{
    match o.scan_type {
        HostScanType::IcmpPingScan => {
            if !f.privileged {
                GateDecision::Refuse(RefuseReason::RequiresPrivilege)
            } else {
                GateDecision::Allow(ExecutionMode::CooperativeSingleShot)
            }
        },
        _ => GateDecision::Allow(ExecutionMode::CooperativeSingleShot),
    }
}

pub fn gate_ping(o: &PingOption, f: &PlatformFacts) -> (r: GateDecision)
    ensures
        r == icmp_gate(*f),
{
    if f.privileged || matches!(f.os, OsFamily::Windows) {
        GateDecision::Allow(ExecutionMode::Direct)
    } else {
        GateDecision::Refuse(RefuseReason::RequiresPrivilege)
    }
}

pub fn gate_trace(o: &TracerouteOption, f: &PlatformFacts) -> (r: GateDecision)
    ensures
        r == icmp_gate(*f),
{
    if f.privileged || matches!(f.os, OsFamily::Windows) {
        GateDecision::Allow(ExecutionMode::Direct)
    } else {
        GateDecision::Refuse(RefuseReason::RequiresPrivilege)
    }
}

pub fn gate_domain_scan(o: &DomainScanOption, f: &PlatformFacts) -> (r: GateDecision)
    ensures
        r == GateDecision::Allow(ExecutionMode::Direct),
{
    GateDecision::Allow(ExecutionMode::Direct)
}

/// One resolved, validated command, ready for gating and dispatch.
#[derive(Clone, Debug, PartialEq)]
pub enum ResolvedCommand {
    PortScan(PortScanOption),
    HostScan(HostScanOption),
    Ping(PingOption),
    Traceroute(TracerouteOption),
    DomainScan(DomainScanOption),
}

impl ResolvedCommand {
    pub open spec fn command_type(&self) -> CommandType {
        match self {
            ResolvedCommand::PortScan(_) => CommandType::PortScan,
            ResolvedCommand::HostScan(_) => CommandType::HostScan,
            ResolvedCommand::Ping(_) => CommandType::Ping,
            ResolvedCommand::Traceroute(_) => CommandType::Traceroute,
            ResolvedCommand::DomainScan(_) => CommandType::DomainScan,
        }
    }
}

/// The admission decision for any resolved command.
pub open spec fn gate_spec(cmd: ResolvedCommand, f: PlatformFacts) -> GateDecision {
    match cmd {
        ResolvedCommand::PortScan(o) => port_gate(o.scan_type, o.async_scan, f),
        ResolvedCommand::HostScan(o) => host_gate(o.scan_type, f),
        ResolvedCommand::Ping(_) => icmp_gate(f),
        ResolvedCommand::Traceroute(_) => icmp_gate(f),
        ResolvedCommand::DomainScan(_) => GateDecision::Allow(ExecutionMode::Direct),
    }
}

pub fn gate(cmd: &ResolvedCommand, f: &PlatformFacts) -> (r: GateDecision)
    ensures
        r == gate_spec(*cmd, *f),
{
    match cmd {
        ResolvedCommand::PortScan(o) => gate_port_scan(o, f),
        ResolvedCommand::HostScan(o) => gate_host_scan(o, f),
        ResolvedCommand::Ping(o) => gate_ping(o, f),
        ResolvedCommand::Traceroute(o) => gate_trace(o, f),
        ResolvedCommand::DomainScan(o) => gate_domain_scan(o, f),
    }
}

/// What the dispatcher is to do for an allowed command: which external
/// handler to invoke, and under which calling convention.
#[derive(PartialEq, Eq, Structural, Clone, Copy, Debug)]
pub struct DispatchPlan {
    pub handler: CommandType,
    pub mode: ExecutionMode,
}

/// Pure routing from a resolved command and a gate verdict to a dispatch
/// plan; a refused command yields no plan.
pub fn dispatch_plan(cmd: &ResolvedCommand, decision: &GateDecision) -> (r: Option<DispatchPlan>)
    ensures
        decision is Refuse ==> r is None,
        decision is Allow ==> r == Some(DispatchPlan {
            handler: cmd.command_type(),
            mode: decision->Allow_0,
        }),
{
    match decision {
        GateDecision::Refuse(_) => None,
        GateDecision::Allow(m) => {
            let handler = match cmd {
                ResolvedCommand::PortScan(_) => CommandType::PortScan,
                ResolvedCommand::HostScan(_) => CommandType::HostScan,
                ResolvedCommand::Ping(_) => CommandType::Ping,
                ResolvedCommand::Traceroute(_) => CommandType::Traceroute,
                ResolvedCommand::DomainScan(_) => CommandType::DomainScan,
            };
            Some(DispatchPlan { handler, mode: *m })
        },
    }
}

/// A TCP SYN port scan never runs without elevation: whatever the other
/// flags and the platform, an unprivileged process is refused; and except
/// on a platform that cannot run the asynchronous variant at all, the
/// refusal names the missing privilege.
pub proof fn lemma_syn_scan_requires_privilege(o: PortScanOption, f: PlatformFacts)
    requires
        o.scan_type is TcpSynScan,
        !f.privileged,
    ensures
        port_gate(o.scan_type, o.async_scan, f) is Refuse,
        !(o.async_scan && !async_raw_socket_supported(f.os))
            ==> port_gate(o.scan_type, o.async_scan, f)
                == GateDecision::Refuse(RefuseReason::RequiresPrivilege),
{
}

/// A TCP connect scan is allowed whatever the privilege level and platform.
pub proof fn lemma_connect_scan_needs_no_privilege(o: PortScanOption, f: PlatformFacts)
    requires
        o.scan_type is TcpConnectScan,
    ensures
        port_gate(o.scan_type, o.async_scan, f)
            == GateDecision::Allow(ExecutionMode::CooperativeSingleShot),
{
}

/// Ping is admitted exactly when the process is elevated or the platform
/// grants ICMP to unprivileged processes.
pub proof fn lemma_ping_gate_matches_exception_table(f: PlatformFacts)
    ensures
        icmp_gate(f) is Allow <==> (f.privileged || icmp_without_privilege(f.os)),
        icmp_gate(f) is Refuse ==> icmp_gate(f)
            == GateDecision::Refuse(RefuseReason::RequiresPrivilege),
{
}

} // verus!
