//! One pure predicate per flag. Each returns acceptance or the single,
//! specific violation, and is mode-agnostic: the same timeout validator
//! serves every mode that accepts a timeout.
use vstd::prelude::*;
use crate::opts::{
    FlagKind, HostScanType, PortScanType, Protocol, ValidationError, ViolationReason,
    COUNT_CEILING, DURATION_CEILING_MS,
};
use crate::target::{
    check_domain, check_host, check_hostscan_target, check_list_file_path, check_port_target,
    valid_domain, valid_host, valid_hostscan_target, is_list_file_path, valid_port_target,
};
use crate::text::{classify_decimal, parse_decimal, NumParse};
use vstd::string::StringSliceAdditionalSpecFns;
use vstd::utf8::is_ascii_chars;

verus! {

/// Equality of two strings, decided byte by byte: the UTF-8 encoding of a
/// character sequence determines it.
pub fn str_eq(a: &str, b: &str) -> (r: bool)
    ensures
        r == (a@ == b@),
{
    let av = a.as_bytes_vec();
    let bv = b.as_bytes_vec();
    let n = av.len();
    if n != bv.len() {
        proof {
            if a@ == b@ {
                assert(a.spec_bytes() == b.spec_bytes());
            }
        }
        return false;
    }
    let mut i: usize = 0;
    while i < n
        invariant
            0 <= i <= n,
            n == av@.len(),
            n == bv@.len(),
            av@ == a.spec_bytes(),
            bv@ == b.spec_bytes(),
            forall|j: int| 0 <= j < i ==> #[trigger] av@[j] == bv@[j],
        decreases n - i,
    {
        if av[i] != bv[i] {
            proof {
                if a@ == b@ {
                    assert(a.spec_bytes() == b.spec_bytes());
                }
            }
            return false;
        }
        i += 1;
    }
    proof {
        assert(a.spec_bytes() =~= b.spec_bytes());
        vstd::utf8::encode_utf8_decode_utf8(a@);
        vstd::utf8::encode_utf8_decode_utf8(b@);
    }
    true
}

/// What a numeric flag's validation yields: the parsed value, or the reason.
pub open spec fn numeric_flag_spec(s: Seq<char>, flag: FlagKind, lo: u64, hi: u64) -> Result<
    u64,
    ValidationError,
> {
    match classify_decimal(s) {
        NumParse::Value(v) => if lo <= v && v <= hi {
            Ok(v)
        } else {
            Err(ValidationError { flag, reason: ViolationReason::OutOfRange })
        },
        NumParse::TooLarge => Err(ValidationError { flag, reason: ViolationReason::OutOfRange }),
        NumParse::Negative => Err(ValidationError { flag, reason: ViolationReason::OutOfRange }),
        NumParse::NotANumber => Err(
            ValidationError { flag, reason: ViolationReason::NotANumber },
        ),
    }
}

fn validate_numeric(s: &str, flag: FlagKind, lo: u64, hi: u64) -> (r: Result<
    u64,
    ValidationError,
>)
    ensures
        r == numeric_flag_spec(s@, flag, lo, hi),
{
    match parse_decimal(s) {
        NumParse::Value(v) => if lo <= v && v <= hi {
            Ok(v)
        } else {
            Err(ValidationError { flag, reason: ViolationReason::OutOfRange })
        },
        NumParse::TooLarge => Err(ValidationError { flag, reason: ViolationReason::OutOfRange }),
        NumParse::Negative => Err(ValidationError { flag, reason: ViolationReason::OutOfRange }),
        NumParse::NotANumber => Err(
            ValidationError { flag, reason: ViolationReason::NotANumber },
        ),
    }
}

/// TTL / max-hop: 1 through 255.
pub fn validate_ttl(s: &str) -> (r: Result<u8, ValidationError>)
    ensures
        r is Ok <==> numeric_flag_spec(s@, FlagKind::MaxHop, 1, 255) is Ok,
        r is Ok ==> r->Ok_0 as u64 == numeric_flag_spec(s@, FlagKind::MaxHop, 1, 255)->Ok_0,
        r is Err ==> r->Err_0 == numeric_flag_spec(s@, FlagKind::MaxHop, 1, 255)->Err_0,
{
    match validate_numeric(s, FlagKind::MaxHop, 1, 255) {
        Ok(v) => Ok(v as u8),
        Err(e) => Err(e),
    }
}

/// Timeout in milliseconds: 0 through the duration ceiling.
pub fn validate_timeout(s: &str) -> (r: Result<u64, ValidationError>)
    ensures
        r == numeric_flag_spec(s@, FlagKind::Timeout, 0, DURATION_CEILING_MS),
{
    validate_numeric(s, FlagKind::Timeout, 0, DURATION_CEILING_MS)
}

/// Wait time in milliseconds: 0 through the duration ceiling.
pub fn validate_waittime(s: &str) -> (r: Result<u64, ValidationError>)
    ensures
        r == numeric_flag_spec(s@, FlagKind::WaitTime, 0, DURATION_CEILING_MS),
{
    validate_numeric(s, FlagKind::WaitTime, 0, DURATION_CEILING_MS)
}

/// Send rate in milliseconds: 0 through the duration ceiling.
pub fn validate_rate(s: &str) -> (r: Result<u64, ValidationError>)
    ensures
        r == numeric_flag_spec(s@, FlagKind::Rate, 0, DURATION_CEILING_MS),
{
    validate_numeric(s, FlagKind::Rate, 0, DURATION_CEILING_MS)
}

/// Repeat count: 1 through the count ceiling.
pub fn validate_count(s: &str) -> (r: Result<u64, ValidationError>)
    ensures
        r == numeric_flag_spec(s@, FlagKind::Count, 1, COUNT_CEILING),
{
    validate_numeric(s, FlagKind::Count, 1, COUNT_CEILING)
}

/// Whether a target string is ASCII and of the given spec shape.
pub open spec fn shape_ok(s: Seq<char>, shape: bool) -> bool {
    is_ascii_chars(s) && shape
}

/// A port-scan target: `host`, `host:low-high` or `host:p1,p2,...`.
pub fn validate_port_opt(s: &str) -> (r: Result<(), ValidationError>)
    ensures
        r is Ok <==> shape_ok(s@, valid_port_target(s@)),
        r is Err ==> r->Err_0 == (ValidationError {
            flag: FlagKind::Port,
            reason: ViolationReason::MalformedAddress,
        }),
{
    if s.is_ascii() && check_port_target(s) {
        Ok(())
    } else {
        Err(ValidationError { flag: FlagKind::Port, reason: ViolationReason::MalformedAddress })
    }
}

/// A host-scan target: list file, CIDR network, or comma-separated hosts.
pub fn validate_hostscan_opt(s: &str) -> (r: Result<(), ValidationError>)
    ensures
        r is Ok <==> shape_ok(s@, valid_hostscan_target(s@)),
        r is Err ==> r->Err_0 == (ValidationError {
            flag: FlagKind::Host,
            reason: ViolationReason::MalformedAddress,
        }),
{
    if s.is_ascii() && check_hostscan_target(s) {
        Ok(())
    } else {
        Err(ValidationError { flag: FlagKind::Host, reason: ViolationReason::MalformedAddress })
    }
}

/// A single host, for ping.
pub fn validate_host_opt(s: &str) -> (r: Result<(), ValidationError>)
    ensures
        r is Ok <==> shape_ok(s@, valid_host(s@)),
        r is Err ==> r->Err_0 == (ValidationError {
            flag: FlagKind::Ping,
            reason: ViolationReason::MalformedAddress,
        }),
{
    if s.is_ascii() && check_host(s) {
        Ok(())
    } else {
        Err(ValidationError { flag: FlagKind::Ping, reason: ViolationReason::MalformedAddress })
    }
}

/// A single host, for traceroute.
pub fn validate_trace_opt(s: &str) -> (r: Result<(), ValidationError>)
    ensures
        r is Ok <==> shape_ok(s@, valid_host(s@)),
        r is Err ==> r->Err_0 == (ValidationError {
            flag: FlagKind::Trace,
            reason: ViolationReason::MalformedAddress,
        }),
{
    if s.is_ascii() && check_host(s) {
        Ok(())
    } else {
        Err(ValidationError { flag: FlagKind::Trace, reason: ViolationReason::MalformedAddress })
    }
}

/// A base domain of at least two labels.
pub fn validate_domain_opt(s: &str) -> (r: Result<(), ValidationError>)
    ensures
        r is Ok <==> shape_ok(s@, valid_domain(s@)),
        r is Err ==> r->Err_0 == (ValidationError {
            flag: FlagKind::Domain,
            reason: ViolationReason::MalformedAddress,
        }),
{
    if s.is_ascii() && check_domain(s) {
        Ok(())
    } else {
        Err(ValidationError { flag: FlagKind::Domain, reason: ViolationReason::MalformedAddress })
    }
}

/// A usable name: non-empty ASCII without spaces (interface names, source IPs
/// share this shape gate; a source IP must further parse as a host).
pub open spec fn valid_name(s: Seq<char>) -> bool {
    1 <= s.len() && forall|i: int| 0 <= i < s.len() ==> #[trigger] s[i] != ' '
}

pub fn validate_interface(s: &str) -> (r: Result<(), ValidationError>)
    ensures
        r is Ok <==> shape_ok(s@, valid_name(s@)),
        r is Err ==> r->Err_0 == (ValidationError {
            flag: FlagKind::Interface,
            reason: ViolationReason::MalformedAddress,
        }),
{
    let err = ValidationError {
        flag: FlagKind::Interface,
        reason: ViolationReason::MalformedAddress,
    };
    if !s.is_ascii() {
        return Err(err);
    }
    let n = s.unicode_len();
    if n < 1 {
        return Err(err);
    }
    proof {
        vstd::utf8::is_ascii_chars_nat_bound(s@);
    }
    let mut i: usize = 0;
    while i < n
        invariant
            0 <= i <= n,
            n == s@.len(),
            s.is_ascii(),
            forall|j: int| 0 <= j < s@.len() ==> #[trigger] s@[j] <= '\u{7f}',
            forall|j: int| 0 <= j < i ==> #[trigger] s@[j] != ' ',
        decreases n - i,
    {
        if s.get_ascii(i) == 32 {
            return Err(ValidationError {
                flag: FlagKind::Interface,
                reason: ViolationReason::MalformedAddress,
            });
        }
        i += 1;
    }
    Ok(())
}

/// The protocol names ping accepts.
pub open spec fn protocol_of(s: Seq<char>) -> Option<Protocol> {
    if s == "icmp"@ {
        Some(Protocol::Icmp)
    } else if s == "tcp"@ {
        Some(Protocol::Tcp)
    } else if s == "udp"@ {
        Some(Protocol::Udp)
    } else {
        None
    }
}

pub fn validate_protocol(s: &str) -> (r: Result<Protocol, ValidationError>)
    ensures
        r is Ok <==> protocol_of(s@) is Some,
        r is Ok ==> Some(r->Ok_0) == protocol_of(s@),
        r is Err ==> r->Err_0 == (ValidationError {
            flag: FlagKind::Protocol,
            reason: ViolationReason::UnknownEnumValue,
        }),
{
    if str_eq(s, "icmp") {
        Ok(Protocol::Icmp)
    } else if str_eq(s, "tcp") {
        Ok(Protocol::Tcp)
    } else if str_eq(s, "udp") {
        Ok(Protocol::Udp)
    } else {
        Err(ValidationError { flag: FlagKind::Protocol, reason: ViolationReason::UnknownEnumValue })
    }
}

/// The scan sub-type names a port scan accepts.
pub open spec fn port_scan_type_of(s: Seq<char>) -> Option<PortScanType> {
    if s == "syn"@ {
        Some(PortScanType::TcpSynScan)
    } else if s == "connect"@ {
        Some(PortScanType::TcpConnectScan)
    } else {
        None
    }
}

pub fn validate_portscantype(s: &str) -> (r: Result<PortScanType, ValidationError>)
    ensures
        r is Ok <==> port_scan_type_of(s@) is Some,
        r is Ok ==> Some(r->Ok_0) == port_scan_type_of(s@),
        r is Err ==> r->Err_0 == (ValidationError {
            flag: FlagKind::ScanType,
            reason: ViolationReason::UnknownEnumValue,
        }),
{
    if str_eq(s, "syn") {
        Ok(PortScanType::TcpSynScan)
    } else if str_eq(s, "connect") {
        Ok(PortScanType::TcpConnectScan)
    } else {
        Err(ValidationError { flag: FlagKind::ScanType, reason: ViolationReason::UnknownEnumValue })
    }
}

/// The scan sub-type names a host scan accepts.
pub open spec fn host_scan_type_of(s: Seq<char>) -> Option<HostScanType> {
    if s == "icmp"@ {
        Some(HostScanType::IcmpPingScan)
    } else if s == "tcp"@ {
        Some(HostScanType::TcpPingScan)
    } else if s == "udp"@ {
        Some(HostScanType::UdpPingScan)
    } else {
        None
    }
}

pub fn validate_hostscantype(s: &str) -> (r: Result<HostScanType, ValidationError>)
    ensures
        r is Ok <==> host_scan_type_of(s@) is Some,
        r is Ok ==> Some(r->Ok_0) == host_scan_type_of(s@),
        r is Err ==> r->Err_0 == (ValidationError {
            flag: FlagKind::ScanType,
            reason: ViolationReason::UnknownEnumValue,
        }),
{
    if str_eq(s, "icmp") {
        Ok(HostScanType::IcmpPingScan)
    } else if str_eq(s, "tcp") {
        Ok(HostScanType::TcpPingScan)
    } else if str_eq(s, "udp") {
        Ok(HostScanType::UdpPingScan)
    } else {
        Err(ValidationError { flag: FlagKind::ScanType, reason: ViolationReason::UnknownEnumValue })
    }
}

/// A list-file path: ASCII with a `.txt` suffix.
pub fn validate_filepath(s: &str) -> (r: Result<(), ValidationError>)
    ensures
        r is Ok <==> shape_ok(s@, is_list_file_path(s@)),
        r is Err ==> r->Err_0 == (ValidationError {
            flag: FlagKind::List,
            reason: ViolationReason::MalformedAddress,
        }),
{
    if s.is_ascii() && check_list_file_path(s) {
        Ok(())
    } else {
        Err(ValidationError { flag: FlagKind::List, reason: ViolationReason::MalformedAddress })
    }
}

} // verus!
