//! The data model: raw argument map, command types, per-mode option
//! descriptors, validation errors, and the built-in port lists.
use vstd::prelude::*;

verus! {

/// The five mutually exclusive probe modes.
#[derive(PartialEq, Eq, Structural, Clone, Copy, Debug)]
pub enum CommandType {
    PortScan,
    HostScan,
    Ping,
    Traceroute,
    DomainScan,
}

/// Execution variants of a port scan.
#[derive(PartialEq, Eq, Structural, Clone, Copy, Debug)]
pub enum PortScanType {
    TcpSynScan,
    TcpConnectScan,
}

/// Execution variants of a host scan.
#[derive(PartialEq, Eq, Structural, Clone, Copy, Debug)]
pub enum HostScanType {
    IcmpPingScan,
    TcpPingScan,
    UdpPingScan,
}

/// Probe protocol for ping.
#[derive(PartialEq, Eq, Structural, Clone, Copy, Debug)]
pub enum Protocol {
    Icmp,
    Tcp,
    Udp,
}

/// The flag whose value a validator judged.
#[derive(PartialEq, Eq, Structural, Clone, Copy, Debug)]
pub enum FlagKind {
    Port,
    Host,
    Ping,
    Trace,
    Domain,
    Interface,
    Source,
    Protocol,
    MaxHop,
    ScanType,
    Timeout,
    WaitTime,
    Rate,
    Count,
    List,
}

/// Why a single flag value was rejected.
#[derive(PartialEq, Eq, Structural, Clone, Copy, Debug)]
pub enum ViolationReason {
    NotANumber,
    OutOfRange,
    MalformedAddress,
    UnreadableFile,
    UnknownEnumValue,
}

/// A single-cause rejection: which flag failed and why.
#[derive(PartialEq, Eq, Structural, Clone, Copy, Debug)]
pub struct ValidationError {
    pub flag: FlagKind,
    pub reason: ViolationReason,
}

pub open spec fn flag_label(f: FlagKind) -> Seq<char> {
    match f {
        FlagKind::Port => "port"@,
        FlagKind::Host => "host"@,
        FlagKind::Ping => "ping"@,
        FlagKind::Trace => "trace"@,
        FlagKind::Domain => "domain"@,
        FlagKind::Interface => "interface"@,
        FlagKind::Source => "source"@,
        FlagKind::Protocol => "protocol"@,
        FlagKind::MaxHop => "maxhop"@,
        FlagKind::ScanType => "scantype"@,
        FlagKind::Timeout => "timeout"@,
        FlagKind::WaitTime => "waittime"@,
        FlagKind::Rate => "rate"@,
        FlagKind::Count => "count"@,
        FlagKind::List => "list"@,
    }
}

/// The bound-specific text for each rejection.
pub open spec fn reason_label(e: ValidationError) -> Seq<char> {
    match e.reason {
        ViolationReason::NotANumber => "the value is not a number"@,
        ViolationReason::OutOfRange => match e.flag {
            FlagKind::MaxHop => "the value must be between 1 and 255"@,
            FlagKind::Count => "the value must be between 1 and 10000"@,
            FlagKind::Timeout => "the value must be between 0 and 86400000"@,
            FlagKind::WaitTime => "the value must be between 0 and 86400000"@,
            FlagKind::Rate => "the value must be between 0 and 86400000"@,
            _ => "the value is out of range"@,
        },
        ViolationReason::MalformedAddress => "the target is not in an accepted format"@,
        ViolationReason::UnreadableFile => "the file could not be read"@,
        ViolationReason::UnknownEnumValue => "the value is not a recognized name"@,
    }
}

pub open spec fn message_of(e: ValidationError) -> Seq<char> {
    flag_label(e.flag) + ": "@ + reason_label(e)
}

impl ValidationError {
    fn flag_name(&self) -> (r: &'static str)
        ensures
            r@ == flag_label(self.flag),
    {
        match self.flag {
            FlagKind::Port => "port",
            FlagKind::Host => "host",
            FlagKind::Ping => "ping",
            FlagKind::Trace => "trace",
            FlagKind::Domain => "domain",
            FlagKind::Interface => "interface",
            FlagKind::Source => "source",
            FlagKind::Protocol => "protocol",
            FlagKind::MaxHop => "maxhop",
            FlagKind::ScanType => "scantype",
            FlagKind::Timeout => "timeout",
            FlagKind::WaitTime => "waittime",
            FlagKind::Rate => "rate",
            FlagKind::Count => "count",
            FlagKind::List => "list",
        }
    }

    fn reason_text(&self) -> (r: &'static str)
        ensures
            r@ == reason_label(*self),
    {
        match self.reason {
            ViolationReason::NotANumber => "the value is not a number",
            ViolationReason::OutOfRange => match self.flag {
                FlagKind::MaxHop => "the value must be between 1 and 255",
                FlagKind::Count => "the value must be between 1 and 10000",
                FlagKind::Timeout => "the value must be between 0 and 86400000",
                FlagKind::WaitTime => "the value must be between 0 and 86400000",
                FlagKind::Rate => "the value must be between 0 and 86400000",
                _ => "the value is out of range",
            },
            ViolationReason::MalformedAddress => "the target is not in an accepted format",
            ViolationReason::UnreadableFile => "the file could not be read",
            ViolationReason::UnknownEnumValue => "the value is not a recognized name",
        }
    }

    /// The single diagnostic line for this rejection.
    pub fn message(&self) -> (m: String)
        ensures
            m@ == message_of(*self),
    {
        let mut s = String::new();
        s.append(self.flag_name());
        s.append(": ");
        s.append(self.reason_text());
        s
    }
}

/// The raw argument map: one field per command-line flag, exactly as the
/// surrounding program collected it. Value flags are `None` when omitted.
#[derive(Clone, Debug, PartialEq)]
pub struct RawArgs {
    pub port: Option<String>,
    pub host: Option<String>,
    pub ping: Option<String>,
    pub trace: Option<String>,
    pub domain: Option<String>,
    pub interface: Option<String>,
    pub source: Option<String>,
    pub protocol: Option<String>,
    pub maxhop: Option<String>,
    pub scantype: Option<String>,
    pub timeout: Option<String>,
    pub waittime: Option<String>,
    pub rate: Option<String>,
    pub count: Option<String>,
    pub service: bool,
    pub os_detect: bool,
    pub async_scan: bool,
    pub list: Option<String>,
    pub wellknown: bool,
    pub json: bool,
    pub save: Option<String>,
    pub accept_invalid_certs: bool,
}

/// Where a port-scan descriptor's port set came from.
#[derive(PartialEq, Eq, Structural, Clone, Copy, Debug)]
pub enum PortListSource {
    /// No explicit range, list, file or well-known request: the built-in default list.
    DefaultList,
    /// The `wellknown` flag: every well-known port.
    WellKnown,
    /// A range or list embedded in the target itself.
    FromTarget,
    /// An explicit list file.
    FromFile,
}

/// How the host-scan target was given.
#[derive(PartialEq, Eq, Structural, Clone, Copy, Debug)]
pub enum HostTargetKind {
    /// A CIDR network, kept as one entry.
    Network,
    /// Individual hosts, from a comma list or a list file.
    HostList,
}

#[derive(Clone, Debug, PartialEq)]
pub struct PortScanOption {
    pub target_host: String,
    pub ports: Vec<u16>,
    pub port_source: PortListSource,
    pub scan_type: PortScanType,
    pub interface_name: Option<String>,
    pub source_ip: Option<String>,
    pub timeout_ms: u64,
    pub wait_time_ms: u64,
    pub send_rate_ms: u64,
    pub service_detection: bool,
    pub os_detection: bool,
    pub async_scan: bool,
    pub json_output: bool,
    pub save_path: Option<String>,
    pub accept_invalid_certs: bool,
}

#[derive(Clone, Debug, PartialEq)]
pub struct HostScanOption {
    pub targets: Vec<String>,
    pub target_kind: HostTargetKind,
    pub scan_type: HostScanType,
    pub interface_name: Option<String>,
    pub source_ip: Option<String>,
    pub timeout_ms: u64,
    pub wait_time_ms: u64,
    pub send_rate_ms: u64,
    pub os_detection: bool,
    pub async_scan: bool,
    pub json_output: bool,
    pub save_path: Option<String>,
}

#[derive(Clone, Debug, PartialEq)]
pub struct PingOption {
    pub target: String,
    pub protocol: Protocol,
    pub count: u64,
    pub ttl: u8,
    pub timeout_ms: u64,
    pub wait_time_ms: u64,
    pub json_output: bool,
    pub save_path: Option<String>,
}

#[derive(Clone, Debug, PartialEq)]
pub struct TracerouteOption {
    pub target: String,
    pub max_hop: u8,
    pub timeout_ms: u64,
    pub wait_time_ms: u64,
    pub json_output: bool,
    pub save_path: Option<String>,
}

#[derive(Clone, Debug, PartialEq)]
pub struct DomainScanOption {
    pub base_domain: String,
    pub words: Vec<String>,
    pub timeout_ms: u64,
    pub json_output: bool,
    pub save_path: Option<String>,
}

/// Ceiling for every duration flag, in milliseconds: one day.
pub const DURATION_CEILING_MS: u64 = 86400000;

/// Ceiling for the repeat count.
pub const COUNT_CEILING: u64 = 10000;

pub const DEFAULT_TIMEOUT_MS: u64 = 30000;

pub const DEFAULT_WAIT_MS: u64 = 100;

pub const DEFAULT_RATE_MS: u64 = 0;

pub const DEFAULT_COUNT: u64 = 4;

pub const DEFAULT_MAX_HOP: u8 = 64;

/// The built-in default port list, used when a port target carries no range.
pub open spec fn default_port_seq() -> Seq<u16> {
    seq![
        21u16, 22, 23, 25, 53, 80, 110, 111, 135, 139, 143, 443, 445, 587, 993, 995, 1025,
        1723, 3306, 3389, 5432, 5900, 8080, 8443,
    ]
}

pub fn default_ports() -> (r: Vec<u16>)
    ensures
        r@ == default_port_seq(),
{
    let v: Vec<u16> = vec![
        21u16, 22, 23, 25, 53, 80, 110, 111, 135, 139, 143, 443, 445, 587, 993, 995, 1025,
        1723, 3306, 3389, 5432, 5900, 8080, 8443,
    ];
    proof {
        assert(v@ =~= default_port_seq());
    }
    v
}

/// Every well-known port, 1 through 1023, in order.
pub open spec fn well_known_port_seq() -> Seq<u16> {
    Seq::new(1023, |i: int| (i + 1) as u16)
}

pub fn well_known_ports() -> (r: Vec<u16>)
    ensures
        r@ == well_known_port_seq(),
{
    let mut v: Vec<u16> = Vec::new();
    let mut p: u16 = 1;
    while p <= 1023
        invariant
            1 <= p <= 1024,
            v@.len() == p - 1,
            forall|i: int| 0 <= i < v@.len() ==> v@[i] == (i + 1) as u16,
        decreases 1024 - p,
    {
        v.push(p);
        p += 1;
    }
    proof {
        assert(v@ =~= well_known_port_seq());
    }
    v
}

} // verus!
