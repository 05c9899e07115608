//! The option parser: from the raw argument map (plus the lines of a list
//! file, read by the surrounding program) to exactly one validated option
//! descriptor. Validators run during parsing, in a fixed order, so the first
//! invalid flag in that order produces a single-cause error.
use vstd::prelude::*;
use crate::gate::ResolvedCommand;
use crate::opts::{
    DomainScanOption, FlagKind, HostScanOption, HostScanType, HostTargetKind, PingOption,
    PortListSource, PortScanOption, PortScanType, Protocol, RawArgs, TracerouteOption,
    ValidationError, ViolationReason, COUNT_CEILING, DEFAULT_COUNT, DEFAULT_MAX_HOP,
    DEFAULT_RATE_MS, DEFAULT_TIMEOUT_MS, DEFAULT_WAIT_MS, DURATION_CEILING_MS,
    default_port_seq, default_ports, well_known_port_seq, well_known_ports,
};
use crate::ports::{
    first_bad_port_line, port_text_reason, ports_of_lines, ports_of_parts, ports_from_lines,
    ports_from_list_text, expand_range, parse_port_text, range_seq,
};
use crate::resolve::{count_mode_flags, mode_flag_count, resolve_command, resolved_mode};
use crate::target::{
    check_cidr, check_host, check_list_file_path, check_port_range, is_list_file_path,
    valid_cidr, valid_domain, valid_host, valid_hostscan_target, valid_port, valid_port_list,
    valid_port_range, valid_port_target,
};
use crate::text::{dec_value, split_by, split_str};
use crate::validator::{
    host_scan_type_of, numeric_flag_spec, port_scan_type_of, protocol_of, valid_name,
    validate_count, validate_domain_opt, validate_filepath, validate_host_opt,
    validate_hostscan_opt, validate_hostscantype, validate_interface, validate_port_opt,
    validate_portscantype, validate_protocol, validate_rate, validate_timeout, validate_trace_opt,
    validate_ttl,
};
use vstd::utf8::is_ascii_chars;

verus! {

/// Both absent, or both present with the same characters.
pub open spec fn opt_str_eq(x: Option<String>, y: Option<String>) -> bool {
    (x is Some <==> y is Some) && (x is Some ==> x->0@ == y->0@)
}

fn clone_opt(x: &Option<String>) -> (r: Option<String>)
    ensures
        opt_str_eq(r, *x),
{
    match x {
        Some(s) => Some(s.clone()),
        None => None,
    }
}

/// A source address: ASCII and host-shaped.
pub open spec fn source_ok(s: Seq<char>) -> bool {
    is_ascii_chars(s) && valid_host(s)
}

/// The port set named by the `:`-embedded part of a port target.
pub open spec fn embedded_ports(p: Seq<char>) -> Seq<u16> {
    if valid_port_range(p) {
        range_seq(
            dec_value(split_by(p, '-')[0]) as u16,
            dec_value(split_by(p, '-')[1]) as u16,
        )
    } else {
        ports_of_parts(split_by(p, ','))
    }
}

/// The first error port-scan parsing hits, in validation order, or `Ok`.
pub open spec fn port_outcome(a: RawArgs, lines: Option<Vec<String>>) -> Result<
    (),
    ValidationError,
> {
    if !(a.port is Some && is_ascii_chars(a.port->0@) && valid_port_target(a.port->0@)) {
        Err(ValidationError { flag: FlagKind::Port, reason: ViolationReason::MalformedAddress })
    } else if a.scantype is Some && port_scan_type_of(a.scantype->0@) is None {
        Err(ValidationError { flag: FlagKind::ScanType, reason: ViolationReason::UnknownEnumValue })
    } else if a.timeout is Some && numeric_flag_spec(
        a.timeout->0@,
        FlagKind::Timeout,
        0,
        DURATION_CEILING_MS,
    ) is Err {
        Err(numeric_flag_spec(a.timeout->0@, FlagKind::Timeout, 0, DURATION_CEILING_MS)->Err_0)
    } else if a.waittime is Some && numeric_flag_spec(
        a.waittime->0@,
        FlagKind::WaitTime,
        0,
        DURATION_CEILING_MS,
    ) is Err {
        Err(numeric_flag_spec(a.waittime->0@, FlagKind::WaitTime, 0, DURATION_CEILING_MS)->Err_0)
    } else if a.rate is Some && numeric_flag_spec(
        a.rate->0@,
        FlagKind::Rate,
        0,
        DURATION_CEILING_MS,
    ) is Err {
        Err(numeric_flag_spec(a.rate->0@, FlagKind::Rate, 0, DURATION_CEILING_MS)->Err_0)
    } else if a.interface is Some && !(is_ascii_chars(a.interface->0@) && valid_name(
        a.interface->0@,
    )) {
        Err(
            ValidationError {
                flag: FlagKind::Interface,
                reason: ViolationReason::MalformedAddress,
            },
        )
    } else if a.source is Some && !source_ok(a.source->0@) {
        Err(ValidationError { flag: FlagKind::Source, reason: ViolationReason::MalformedAddress })
    } else if a.list is Some {
        if !(is_ascii_chars(a.list->0@) && is_list_file_path(a.list->0@)) {
            Err(ValidationError { flag: FlagKind::List, reason: ViolationReason::MalformedAddress })
        } else if lines is None {
            Err(ValidationError { flag: FlagKind::List, reason: ViolationReason::UnreadableFile })
        } else if !(forall|i: int|
            0 <= i < lines->0@.len() ==> valid_port(#[trigger] lines->0@[i]@)) {
            Err(
                ValidationError {
                    flag: FlagKind::List,
                    reason: port_text_reason(lines->0@[first_bad_port_line(lines->0@)]@),
                },
            )
        } else {
            Ok(())
        }
    } else {
        Ok(())
    }
}

/// Every field of a port-scan descriptor, pinned from the raw arguments.
pub open spec fn port_opt_matches(a: RawArgs, lines: Option<Vec<String>>, o: PortScanOption)
    -> bool {
    let t = a.port->0@;
    let tparts = split_by(t, ':');
    &&& o.target_host@ == tparts[0]
    &&& o.scan_type == (if a.scantype is Some {
        port_scan_type_of(a.scantype->0@)->0
    } else {
        PortScanType::TcpSynScan
    })
    &&& o.timeout_ms == (if a.timeout is Some {
        numeric_flag_spec(a.timeout->0@, FlagKind::Timeout, 0, DURATION_CEILING_MS)->Ok_0
    } else {
        DEFAULT_TIMEOUT_MS
    })
    &&& o.wait_time_ms == (if a.waittime is Some {
        numeric_flag_spec(a.waittime->0@, FlagKind::WaitTime, 0, DURATION_CEILING_MS)->Ok_0
    } else {
        DEFAULT_WAIT_MS
    })
    &&& o.send_rate_ms == (if a.rate is Some {
        numeric_flag_spec(a.rate->0@, FlagKind::Rate, 0, DURATION_CEILING_MS)->Ok_0
    } else {
        DEFAULT_RATE_MS
    })
    &&& opt_str_eq(o.interface_name, a.interface)
    &&& opt_str_eq(o.source_ip, a.source)
    &&& (if a.list is Some {
        o.port_source is FromFile && o.ports@ == ports_of_lines(lines->0@)
    } else if tparts.len() == 2 {
        o.port_source is FromTarget && o.ports@ == embedded_ports(tparts[1])
    } else if a.wellknown {
        o.port_source is WellKnown && o.ports@ == well_known_port_seq()
    } else {
        o.port_source is DefaultList && o.ports@ == default_port_seq()
    })
    &&& o.service_detection == a.service
    &&& o.os_detection == a.os_detect
    &&& o.async_scan == a.async_scan
    &&& o.json_output == a.json
    &&& opt_str_eq(o.save_path, a.save)
    &&& o.accept_invalid_certs == a.accept_invalid_certs
}

/// Parse the arguments of a port scan.
pub fn parse_port_args(a: &RawArgs, list_lines: &Option<Vec<String>>) -> (r: Result<
    PortScanOption,
    ValidationError,
>)
    ensures
        r is Ok <==> port_outcome(*a, *list_lines) is Ok,
        r is Err ==> r->Err_0 == port_outcome(*a, *list_lines)->Err_0,
        r is Ok ==> port_opt_matches(*a, *list_lines, r->Ok_0),
{
    let target = match &a.port {
        Some(t) => t,
        None => {
            return Err(
                ValidationError { flag: FlagKind::Port, reason: ViolationReason::MalformedAddress },
            );
        },
    };
    if let Err(e) = validate_port_opt(target.as_str()) {
        return Err(e);
    }
    let tparts = split_str(target.as_str(), 58);
    proof {
        crate::text::lemma_split_by_len(target@, ':');
    }
    let target_host = tparts[0].clone();
    let scan_type = match &a.scantype {
        Some(s) => match validate_portscantype(s.as_str()) {
            Ok(t) => t,
            Err(e) => {
                return Err(e);
            },
        },
        None => PortScanType::TcpSynScan,
    };
    let timeout_ms = match &a.timeout {
        Some(s) => match validate_timeout(s.as_str()) {
            Ok(v) => v,
            Err(e) => {
                return Err(e);
            },
        },
        None => DEFAULT_TIMEOUT_MS,
    };
    let wait_time_ms = match &a.waittime {
        Some(s) => match crate::validator::validate_waittime(s.as_str()) {
            Ok(v) => v,
            Err(e) => {
                return Err(e);
            },
        },
        None => DEFAULT_WAIT_MS,
    };
    let send_rate_ms = match &a.rate {
        Some(s) => match crate::validator::validate_rate(s.as_str()) {
            Ok(v) => v,
            Err(e) => {
                return Err(e);
            },
        },
        None => DEFAULT_RATE_MS,
    };
    let interface_name = match &a.interface {
        Some(s) => {
            if let Err(e) = validate_interface(s.as_str()) {
                return Err(e);
            }
            Some(s.clone())
        },
        None => None,
    };
    let source_ip = match &a.source {
        Some(s) => {
            if !s.as_str().is_ascii() || !check_host(s.as_str()) {
                return Err(
                    ValidationError {
                        flag: FlagKind::Source,
                        reason: ViolationReason::MalformedAddress,
                    },
                );
            }
            Some(s.clone())
        },
        None => None,
    };
    let (port_source, ports): (PortListSource, Vec<u16>) = match &a.list {
        Some(path) => {
            if let Err(e) = validate_filepath(path.as_str()) {
                return Err(e);
            }
            match list_lines {
                None => {
                    return Err(
                        ValidationError {
                            flag: FlagKind::List,
                            reason: ViolationReason::UnreadableFile,
                        },
                    );
                },
                Some(lines) => {
                    match ports_from_lines(lines) {
                        Ok(v) => (PortListSource::FromFile, v),
                        Err(e) => {
                            return Err(e);
                        },
                    }
                },
            }
        },
        None => {
            if tparts.len() == 2 {
                let spec_part = &tparts[1];
                proof {
                    assert(spec_part@ == split_by(target@, ':')[1]);
                }
                if check_port_range(spec_part.as_str()) {
                    let rparts = split_str(spec_part.as_str(), 45);
                    let lo = match parse_port_text(rparts[0].as_str(), FlagKind::Port) {
                        Ok(v) => v,
                        // a valid range has two valid port parts: unreachable
                        Err(_) => {
                            proof {
                                assert(rparts@[0]@ == split_by(spec_part@, '-')[0]);
                                assert(false);
                            }
                            return Err(
                                ValidationError {
                                    flag: FlagKind::Port,
                                    reason: ViolationReason::MalformedAddress,
                                },
                            );
                        },
                    };
                    let hi = match parse_port_text(rparts[1].as_str(), FlagKind::Port) {
                        Ok(v) => v,
                        // a valid range has two valid port parts: unreachable
                        Err(_) => {
                            proof {
                                assert(rparts@[1]@ == split_by(spec_part@, '-')[1]);
                                assert(false);
                            }
                            return Err(
                                ValidationError {
                                    flag: FlagKind::Port,
                                    reason: ViolationReason::MalformedAddress,
                                },
                            );
                        },
                    };
                    proof {
                        assert(rparts@[0]@ == split_by(spec_part@, '-')[0]);
                        assert(rparts@[1]@ == split_by(spec_part@, '-')[1]);
                    }
                    (PortListSource::FromTarget, expand_range(lo, hi))
                } else {
                    let cparts = split_str(spec_part.as_str(), 44);
                    proof {
                        assert(valid_port_list(spec_part@));
                        assert(forall|i: int|
                            0 <= i < cparts@.len() ==> #[trigger] cparts@[i]@ == split_by(
                                spec_part@,
                                ',',
                            )[i]);
                    }
                    match ports_from_list_text(&cparts, FlagKind::Port) {
                        Ok(v) => (PortListSource::FromTarget, v),
                        Err(e) => {
                            return Err(e);
                        },
                    }
                }
            } else if a.wellknown {
                (PortListSource::WellKnown, well_known_ports())
            } else {
                (PortListSource::DefaultList, default_ports())
            }
        },
    };
    Ok(
        PortScanOption {
            target_host,
            ports,
            port_source,
            scan_type,
            interface_name,
            source_ip,
            timeout_ms,
            wait_time_ms,
            send_rate_ms,
            service_detection: a.service,
            os_detection: a.os_detect,
            async_scan: a.async_scan,
            json_output: a.json,
            save_path: clone_opt(&a.save),
            accept_invalid_certs: a.accept_invalid_certs,
        },
    )
}


/// A file line that names a host: ASCII and host-shaped.
pub open spec fn host_line_ok(l: String) -> bool {
    is_ascii_chars(l@) && valid_host(l@)
}

/// Copy the lines of a host-list file, rejecting the first that is no host.
fn hosts_from_lines(lines: &Vec<String>) -> (r: Result<Vec<String>, ValidationError>)
    ensures
        r is Ok <==> forall|i: int| 0 <= i < lines@.len() ==> host_line_ok(#[trigger] lines@[i]),
        r is Ok ==> r->Ok_0.deep_view() == lines.deep_view(),
        r is Err ==> r->Err_0 == (ValidationError {
            flag: FlagKind::Host,
            reason: ViolationReason::MalformedAddress,
        }),
{
    let n = lines.len();
    let mut v: Vec<String> = Vec::new();
    let mut i: usize = 0;
    while i < n
        invariant
            0 <= i <= n,
            n == lines@.len(),
            v@.len() == i,
            forall|j: int| 0 <= j < i ==> host_line_ok(#[trigger] lines@[j]),
            forall|j: int| 0 <= j < i ==> #[trigger] v@[j]@ == lines@[j]@,
        decreases n - i,
    {
        let s = &lines[i];
        if !s.as_str().is_ascii() || !check_host(s.as_str()) {
            return Err(
                ValidationError { flag: FlagKind::Host, reason: ViolationReason::MalformedAddress },
            );
        }
        v.push(s.clone());
        i += 1;
    }
    proof {
        assert(v.deep_view() =~~= lines.deep_view());
    }
    Ok(v)
}

/// The first error host-scan parsing hits, in validation order, or `Ok`.
pub open spec fn host_outcome(a: RawArgs, lines: Option<Vec<String>>) -> Result<
    (),
    ValidationError,
> {
    if !(a.host is Some && is_ascii_chars(a.host->0@) && valid_hostscan_target(a.host->0@)) {
        Err(ValidationError { flag: FlagKind::Host, reason: ViolationReason::MalformedAddress })
    } else if a.scantype is Some && host_scan_type_of(a.scantype->0@) is None {
        Err(ValidationError { flag: FlagKind::ScanType, reason: ViolationReason::UnknownEnumValue })
    } else if a.timeout is Some && numeric_flag_spec(
        a.timeout->0@,
        FlagKind::Timeout,
        0,
        DURATION_CEILING_MS,
    ) is Err {
        Err(numeric_flag_spec(a.timeout->0@, FlagKind::Timeout, 0, DURATION_CEILING_MS)->Err_0)
    } else if a.waittime is Some && numeric_flag_spec(
        a.waittime->0@,
        FlagKind::WaitTime,
        0,
        DURATION_CEILING_MS,
    ) is Err {
        Err(numeric_flag_spec(a.waittime->0@, FlagKind::WaitTime, 0, DURATION_CEILING_MS)->Err_0)
    } else if a.rate is Some && numeric_flag_spec(
        a.rate->0@,
        FlagKind::Rate,
        0,
        DURATION_CEILING_MS,
    ) is Err {
        Err(numeric_flag_spec(a.rate->0@, FlagKind::Rate, 0, DURATION_CEILING_MS)->Err_0)
    } else if a.interface is Some && !(is_ascii_chars(a.interface->0@) && valid_name(
        a.interface->0@,
    )) {
        Err(
            ValidationError {
                flag: FlagKind::Interface,
                reason: ViolationReason::MalformedAddress,
            },
        )
    } else if a.source is Some && !source_ok(a.source->0@) {
        Err(ValidationError { flag: FlagKind::Source, reason: ViolationReason::MalformedAddress })
    } else if is_list_file_path(a.host->0@) {
        if lines is None {
            Err(ValidationError { flag: FlagKind::Host, reason: ViolationReason::UnreadableFile })
        } else if !(forall|i: int| 0 <= i < lines->0@.len() ==> host_line_ok(#[trigger] lines->0@[i])) {
            Err(
                ValidationError {
                    flag: FlagKind::Host,
                    reason: ViolationReason::MalformedAddress,
                },
            )
        } else {
            Ok(())
        }
    } else {
        Ok(())
    }
}

/// Every field of a host-scan descriptor, pinned from the raw arguments.
pub open spec fn host_opt_matches(a: RawArgs, lines: Option<Vec<String>>, o: HostScanOption)
    -> bool {
    let t = a.host->0@;
    &&& (if is_list_file_path(t) {
        o.target_kind is HostList && o.targets.deep_view() == lines->0.deep_view()
    } else if valid_cidr(t) {
        o.target_kind is Network && o.targets@.len() == 1 && o.targets@[0]@ == t
    } else {
        o.target_kind is HostList && o.targets.deep_view() == split_by(t, ',')
    })
    &&& o.scan_type == (if a.scantype is Some {
        host_scan_type_of(a.scantype->0@)->0
    } else {
        HostScanType::IcmpPingScan
    })
    &&& o.timeout_ms == (if a.timeout is Some {
        numeric_flag_spec(a.timeout->0@, FlagKind::Timeout, 0, DURATION_CEILING_MS)->Ok_0
    } else {
        DEFAULT_TIMEOUT_MS
    })
    &&& o.wait_time_ms == (if a.waittime is Some {
        numeric_flag_spec(a.waittime->0@, FlagKind::WaitTime, 0, DURATION_CEILING_MS)->Ok_0
    } else {
        DEFAULT_WAIT_MS
    })
    &&& o.send_rate_ms == (if a.rate is Some {
        numeric_flag_spec(a.rate->0@, FlagKind::Rate, 0, DURATION_CEILING_MS)->Ok_0
    } else {
        DEFAULT_RATE_MS
    })
    &&& opt_str_eq(o.interface_name, a.interface)
    &&& opt_str_eq(o.source_ip, a.source)
    &&& o.os_detection == a.os_detect
    &&& o.async_scan == a.async_scan
    &&& o.json_output == a.json
    &&& opt_str_eq(o.save_path, a.save)
}

/// Parse the arguments of a host scan.
pub fn parse_host_args(a: &RawArgs, list_lines: &Option<Vec<String>>) -> (r: Result<
    HostScanOption,
    ValidationError,
>)
    ensures
        r is Ok <==> host_outcome(*a, *list_lines) is Ok,
        r is Err ==> r->Err_0 == host_outcome(*a, *list_lines)->Err_0,
        r is Ok ==> host_opt_matches(*a, *list_lines, r->Ok_0),
{
    let target = match &a.host {
        Some(t) => t,
        None => {
            return Err(
                ValidationError { flag: FlagKind::Host, reason: ViolationReason::MalformedAddress },
            );
        },
    };
    if let Err(e) = validate_hostscan_opt(target.as_str()) {
        return Err(e);
    }
    let scan_type = match &a.scantype {
        Some(s) => match validate_hostscantype(s.as_str()) {
            Ok(t) => t,
            Err(e) => {
                return Err(e);
            },
        },
        None => HostScanType::IcmpPingScan,
    };
    let timeout_ms = match &a.timeout {
        Some(s) => match validate_timeout(s.as_str()) {
            Ok(v) => v,
            Err(e) => {
                return Err(e);
            },
        },
        None => DEFAULT_TIMEOUT_MS,
    };
    let wait_time_ms = match &a.waittime {
        Some(s) => match crate::validator::validate_waittime(s.as_str()) {
            Ok(v) => v,
            Err(e) => {
                return Err(e);
            },
        },
        None => DEFAULT_WAIT_MS,
    };
    let send_rate_ms = match &a.rate {
        Some(s) => match validate_rate(s.as_str()) {
            Ok(v) => v,
            Err(e) => {
                return Err(e);
            },
        },
        None => DEFAULT_RATE_MS,
    };
    let interface_name = match &a.interface {
        Some(s) => {
            if let Err(e) = validate_interface(s.as_str()) {
                return Err(e);
            }
            Some(s.clone())
        },
        None => None,
    };
    let source_ip = match &a.source {
        Some(s) => {
            if !s.as_str().is_ascii() || !check_host(s.as_str()) {
                return Err(
                    ValidationError {
                        flag: FlagKind::Source,
                        reason: ViolationReason::MalformedAddress,
                    },
                );
            }
            Some(s.clone())
        },
        None => None,
    };
    let (target_kind, targets): (HostTargetKind, Vec<String>) = if check_list_file_path(
        target.as_str(),
    ) {
        match list_lines {
            None => {
                return Err(
                    ValidationError {
                        flag: FlagKind::Host,
                        reason: ViolationReason::UnreadableFile,
                    },
                );
            },
            Some(lines) => {
                match hosts_from_lines(lines) {
                    Ok(v) => (HostTargetKind::HostList, v),
                    Err(e) => {
                        return Err(e);
                    },
                }
            },
        }
    } else if check_cidr(target.as_str()) {
        let mut v: Vec<String> = Vec::new();
        v.push(target.clone());
        (HostTargetKind::Network, v)
    } else {
        (HostTargetKind::HostList, split_str(target.as_str(), 44))
    };
    Ok(
        HostScanOption {
            targets,
            target_kind,
            scan_type,
            interface_name,
            source_ip,
            timeout_ms,
            wait_time_ms,
            send_rate_ms,
            os_detection: a.os_detect,
            async_scan: a.async_scan,
            json_output: a.json,
            save_path: clone_opt(&a.save),
        },
    )
}

/// The first error ping parsing hits, in validation order, or `Ok`.
pub open spec fn ping_outcome(a: RawArgs) -> Result<(), ValidationError> {
    if !(a.ping is Some && is_ascii_chars(a.ping->0@) && valid_host(a.ping->0@)) {
        Err(ValidationError { flag: FlagKind::Ping, reason: ViolationReason::MalformedAddress })
    } else if a.protocol is Some && protocol_of(a.protocol->0@) is None {
        Err(ValidationError { flag: FlagKind::Protocol, reason: ViolationReason::UnknownEnumValue })
    } else if a.count is Some && numeric_flag_spec(
        a.count->0@,
        FlagKind::Count,
        1,
        COUNT_CEILING,
    ) is Err {
        Err(numeric_flag_spec(a.count->0@, FlagKind::Count, 1, COUNT_CEILING)->Err_0)
    } else if a.maxhop is Some && numeric_flag_spec(a.maxhop->0@, FlagKind::MaxHop, 1, 255) is Err {
        Err(numeric_flag_spec(a.maxhop->0@, FlagKind::MaxHop, 1, 255)->Err_0)
    } else if a.timeout is Some && numeric_flag_spec(
        a.timeout->0@,
        FlagKind::Timeout,
        0,
        DURATION_CEILING_MS,
    ) is Err {
        Err(numeric_flag_spec(a.timeout->0@, FlagKind::Timeout, 0, DURATION_CEILING_MS)->Err_0)
    } else if a.waittime is Some && numeric_flag_spec(
        a.waittime->0@,
        FlagKind::WaitTime,
        0,
        DURATION_CEILING_MS,
    ) is Err {
        Err(numeric_flag_spec(a.waittime->0@, FlagKind::WaitTime, 0, DURATION_CEILING_MS)->Err_0)
    } else {
        Ok(())
    }
}

/// Every field of a ping descriptor, pinned from the raw arguments.
pub open spec fn ping_opt_matches(a: RawArgs, o: PingOption) -> bool {
    &&& o.target@ == a.ping->0@
    &&& o.protocol == (if a.protocol is Some {
        protocol_of(a.protocol->0@)->0
    } else {
        Protocol::Icmp
    })
    &&& o.count == (if a.count is Some {
        numeric_flag_spec(a.count->0@, FlagKind::Count, 1, COUNT_CEILING)->Ok_0
    } else {
        DEFAULT_COUNT
    })
    &&& o.ttl as int == (if a.maxhop is Some {
        numeric_flag_spec(a.maxhop->0@, FlagKind::MaxHop, 1, 255)->Ok_0 as int
    } else {
        DEFAULT_MAX_HOP as int
    })
    &&& o.timeout_ms == (if a.timeout is Some {
        numeric_flag_spec(a.timeout->0@, FlagKind::Timeout, 0, DURATION_CEILING_MS)->Ok_0
    } else {
        DEFAULT_TIMEOUT_MS
    })
    &&& o.wait_time_ms == (if a.waittime is Some {
        numeric_flag_spec(a.waittime->0@, FlagKind::WaitTime, 0, DURATION_CEILING_MS)->Ok_0
    } else {
        DEFAULT_WAIT_MS
    })
    &&& o.json_output == a.json
    &&& opt_str_eq(o.save_path, a.save)
}

/// Parse the arguments of a ping.
pub fn parse_ping_args(a: &RawArgs) -> (r: Result<PingOption, ValidationError>)
    ensures
        r is Ok <==> ping_outcome(*a) is Ok,
        r is Err ==> r->Err_0 == ping_outcome(*a)->Err_0,
        r is Ok ==> ping_opt_matches(*a, r->Ok_0),
{
    let target = match &a.ping {
        Some(t) => t,
        None => {
            return Err(
                ValidationError { flag: FlagKind::Ping, reason: ViolationReason::MalformedAddress },
            );
        },
    };
    if let Err(e) = validate_host_opt(target.as_str()) {
        return Err(e);
    }
    let protocol = match &a.protocol {
        Some(s) => match validate_protocol(s.as_str()) {
            Ok(p) => p,
            Err(e) => {
                return Err(e);
            },
        },
        None => Protocol::Icmp,
    };
    let count = match &a.count {
        Some(s) => match validate_count(s.as_str()) {
            Ok(v) => v,
            Err(e) => {
                return Err(e);
            },
        },
        None => DEFAULT_COUNT,
    };
    let ttl = match &a.maxhop {
        Some(s) => match validate_ttl(s.as_str()) {
            Ok(v) => v,
            Err(e) => {
                return Err(e);
            },
        },
        None => DEFAULT_MAX_HOP,
    };
    let timeout_ms = match &a.timeout {
        Some(s) => match validate_timeout(s.as_str()) {
            Ok(v) => v,
            Err(e) => {
                return Err(e);
            },
        },
        None => DEFAULT_TIMEOUT_MS,
    };
    let wait_time_ms = match &a.waittime {
        Some(s) => match crate::validator::validate_waittime(s.as_str()) {
            Ok(v) => v,
            Err(e) => {
                return Err(e);
            },
        },
        None => DEFAULT_WAIT_MS,
    };
    Ok(
        PingOption {
            target: target.clone(),
            protocol,
            count,
            ttl,
            timeout_ms,
            wait_time_ms,
            json_output: a.json,
            save_path: clone_opt(&a.save),
        },
    )
}

/// The first error traceroute parsing hits, in validation order, or `Ok`.
pub open spec fn trace_outcome(a: RawArgs) -> Result<(), ValidationError> {
    if !(a.trace is Some && is_ascii_chars(a.trace->0@) && valid_host(a.trace->0@)) {
        Err(ValidationError { flag: FlagKind::Trace, reason: ViolationReason::MalformedAddress })
    } else if a.maxhop is Some && numeric_flag_spec(a.maxhop->0@, FlagKind::MaxHop, 1, 255) is Err {
        Err(numeric_flag_spec(a.maxhop->0@, FlagKind::MaxHop, 1, 255)->Err_0)
    } else if a.timeout is Some && numeric_flag_spec(
        a.timeout->0@,
        FlagKind::Timeout,
        0,
        DURATION_CEILING_MS,
    ) is Err {
        Err(numeric_flag_spec(a.timeout->0@, FlagKind::Timeout, 0, DURATION_CEILING_MS)->Err_0)
    } else if a.waittime is Some && numeric_flag_spec(
        a.waittime->0@,
        FlagKind::WaitTime,
        0,
        DURATION_CEILING_MS,
    ) is Err {
        Err(numeric_flag_spec(a.waittime->0@, FlagKind::WaitTime, 0, DURATION_CEILING_MS)->Err_0)
    } else {
        Ok(())
    }
}

/// Every field of a traceroute descriptor, pinned from the raw arguments.
pub open spec fn trace_opt_matches(a: RawArgs, o: TracerouteOption) -> bool {
    &&& o.target@ == a.trace->0@
    &&& o.max_hop as int == (if a.maxhop is Some {
        numeric_flag_spec(a.maxhop->0@, FlagKind::MaxHop, 1, 255)->Ok_0 as int
    } else {
        DEFAULT_MAX_HOP as int
    })
    &&& o.timeout_ms == (if a.timeout is Some {
        numeric_flag_spec(a.timeout->0@, FlagKind::Timeout, 0, DURATION_CEILING_MS)->Ok_0
    } else {
        DEFAULT_TIMEOUT_MS
    })
    &&& o.wait_time_ms == (if a.waittime is Some {
        numeric_flag_spec(a.waittime->0@, FlagKind::WaitTime, 0, DURATION_CEILING_MS)->Ok_0
    } else {
        DEFAULT_WAIT_MS
    })
    &&& o.json_output == a.json
    &&& opt_str_eq(o.save_path, a.save)
}

/// Parse the arguments of a traceroute.
pub fn parse_trace_args(a: &RawArgs) -> (r: Result<TracerouteOption, ValidationError>)
    ensures
        r is Ok <==> trace_outcome(*a) is Ok,
        r is Err ==> r->Err_0 == trace_outcome(*a)->Err_0,
        r is Ok ==> trace_opt_matches(*a, r->Ok_0),
{
    let target = match &a.trace {
        Some(t) => t,
        None => {
            return Err(
                ValidationError {
                    flag: FlagKind::Trace,
                    reason: ViolationReason::MalformedAddress,
                },
            );
        },
    };
    if let Err(e) = validate_trace_opt(target.as_str()) {
        return Err(e);
    }
    let max_hop = match &a.maxhop {
        Some(s) => match validate_ttl(s.as_str()) {
            Ok(v) => v,
            Err(e) => {
                return Err(e);
            },
        },
        None => DEFAULT_MAX_HOP,
    };
    let timeout_ms = match &a.timeout {
        Some(s) => match validate_timeout(s.as_str()) {
            Ok(v) => v,
            Err(e) => {
                return Err(e);
            },
        },
        None => DEFAULT_TIMEOUT_MS,
    };
    let wait_time_ms = match &a.waittime {
        Some(s) => match crate::validator::validate_waittime(s.as_str()) {
            Ok(v) => v,
            Err(e) => {
                return Err(e);
            },
        },
        None => DEFAULT_WAIT_MS,
    };
    Ok(
        TracerouteOption {
            target: target.clone(),
            max_hop,
            timeout_ms,
            wait_time_ms,
            json_output: a.json,
            save_path: clone_opt(&a.save),
        },
    )
}

/// The first error sub-domain-scan parsing hits, in validation order, or `Ok`.
pub open spec fn domain_outcome(a: RawArgs, lines: Option<Vec<String>>) -> Result<
    (),
    ValidationError,
> {
    if !(a.domain is Some && is_ascii_chars(a.domain->0@) && valid_domain(a.domain->0@)) {
        Err(ValidationError { flag: FlagKind::Domain, reason: ViolationReason::MalformedAddress })
    } else if a.timeout is Some && numeric_flag_spec(
        a.timeout->0@,
        FlagKind::Timeout,
        0,
        DURATION_CEILING_MS,
    ) is Err {
        Err(numeric_flag_spec(a.timeout->0@, FlagKind::Timeout, 0, DURATION_CEILING_MS)->Err_0)
    } else if a.list is Some {
        if !(is_ascii_chars(a.list->0@) && is_list_file_path(a.list->0@)) {
            Err(ValidationError { flag: FlagKind::List, reason: ViolationReason::MalformedAddress })
        } else if lines is None {
            Err(ValidationError { flag: FlagKind::List, reason: ViolationReason::UnreadableFile })
        } else {
            Ok(())
        }
    } else {
        Ok(())
    }
}

/// Every field of a sub-domain-scan descriptor, pinned from the raw arguments.
pub open spec fn domain_opt_matches(a: RawArgs, lines: Option<Vec<String>>, o: DomainScanOption)
    -> bool {
    &&& o.base_domain@ == a.domain->0@
    &&& (if a.list is Some {
        o.words.deep_view() == lines->0.deep_view()
    } else {
        o.words@.len() == 0
    })
    &&& o.timeout_ms == (if a.timeout is Some {
        numeric_flag_spec(a.timeout->0@, FlagKind::Timeout, 0, DURATION_CEILING_MS)->Ok_0
    } else {
        DEFAULT_TIMEOUT_MS
    })
    &&& o.json_output == a.json
    &&& opt_str_eq(o.save_path, a.save)
}

fn clone_lines(lines: &Vec<String>) -> (r: Vec<String>)
    ensures
        r.deep_view() == lines.deep_view(),
{
    let n = lines.len();
    let mut v: Vec<String> = Vec::new();
    let mut i: usize = 0;
    while i < n
        invariant
            0 <= i <= n,
            n == lines@.len(),
            v@.len() == i,
            forall|j: int| 0 <= j < i ==> #[trigger] v@[j]@ == lines@[j]@,
        decreases n - i,
    {
        v.push(lines[i].clone());
        i += 1;
    }
    proof {
        assert(v.deep_view() =~~= lines.deep_view());
    }
    v
}

/// Parse the arguments of a sub-domain scan.
pub fn parse_domain_args(a: &RawArgs, list_lines: &Option<Vec<String>>) -> (r: Result<
    DomainScanOption,
    ValidationError,
>)
    ensures
        r is Ok <==> domain_outcome(*a, *list_lines) is Ok,
        r is Err ==> r->Err_0 == domain_outcome(*a, *list_lines)->Err_0,
        r is Ok ==> domain_opt_matches(*a, *list_lines, r->Ok_0),
{
    let target = match &a.domain {
        Some(t) => t,
        None => {
            return Err(
                ValidationError {
                    flag: FlagKind::Domain,
                    reason: ViolationReason::MalformedAddress,
                },
            );
        },
    };
    if let Err(e) = validate_domain_opt(target.as_str()) {
        return Err(e);
    }
    let timeout_ms = match &a.timeout {
        Some(s) => match validate_timeout(s.as_str()) {
            Ok(v) => v,
            Err(e) => {
                return Err(e);
            },
        },
        None => DEFAULT_TIMEOUT_MS,
    };
    let words: Vec<String> = match &a.list {
        Some(path) => {
            if let Err(e) = validate_filepath(path.as_str()) {
                return Err(e);
            }
            match list_lines {
                None => {
                    return Err(
                        ValidationError {
                            flag: FlagKind::List,
                            reason: ViolationReason::UnreadableFile,
                        },
                    );
                },
                Some(lines) => clone_lines(lines),
            }
        },
        None => Vec::new(),
    };
    Ok(
        DomainScanOption {
            base_domain: target.clone(),
            words,
            timeout_ms,
            json_output: a.json,
            save_path: clone_opt(&a.save),
        },
    )
}

/// Why resolution-and-parsing failed: conflicting mode flags, or one flag's
/// specific violation.
#[derive(PartialEq, Eq, Structural, Clone, Copy, Debug)]
pub enum ParseFailure {
    /// More than one of the five mode flags was supplied.
    ModeConflict,
    Flag(ValidationError),
}

impl ParseFailure {
    /// The single diagnostic line for this failure.
    pub fn message(&self) -> (m: String)
        ensures
            self is ModeConflict ==> m@
                == "only one of the port, host, ping, trace and domain flags may be given"@,
            self is Flag ==> m@ == crate::opts::message_of(self->Flag_0),
    {
        match self {
            ParseFailure::ModeConflict => {
                let mut s = String::new();
                s.append("only one of the port, host, ping, trace and domain flags may be given");
                s
            },
            ParseFailure::Flag(e) => e.message(),
        }
    }
}

/// The whole front half of a run: the structural mutual-exclusion check,
/// then resolution, then exactly one mode's parsing.
pub open spec fn resolve_outcome(a: RawArgs, lines: Option<Vec<String>>) -> Result<
    (),
    ParseFailure,
> {
    if mode_flag_count(a) > 1 {
        Err(ParseFailure::ModeConflict)
    } else {
        let inner = match resolved_mode(a) {
            crate::opts::CommandType::PortScan => port_outcome(a, lines),
            crate::opts::CommandType::HostScan => host_outcome(a, lines),
            crate::opts::CommandType::Ping => ping_outcome(a),
            crate::opts::CommandType::Traceroute => trace_outcome(a),
            crate::opts::CommandType::DomainScan => domain_outcome(a, lines),
        };
        match inner {
            Ok(u) => Ok(u),
            Err(e) => Err(ParseFailure::Flag(e)),
        }
    }
}

/// The resolved command is of the resolved mode, with every field pinned.
pub open spec fn resolved_matches(a: RawArgs, lines: Option<Vec<String>>, c: ResolvedCommand)
    -> bool {
    match resolved_mode(a) {
        crate::opts::CommandType::PortScan => c is PortScan && port_opt_matches(
            a,
            lines,
            c->PortScan_0,
        ),
        crate::opts::CommandType::HostScan => c is HostScan && host_opt_matches(
            a,
            lines,
            c->HostScan_0,
        ),
        crate::opts::CommandType::Ping => c is Ping && ping_opt_matches(a, c->Ping_0),
        crate::opts::CommandType::Traceroute => c is Traceroute && trace_opt_matches(
            a,
            c->Traceroute_0,
        ),
        crate::opts::CommandType::DomainScan => c is DomainScan && domain_opt_matches(
            a,
            lines,
            c->DomainScan_0,
        ),
    }
}

/// Resolve the mode and parse its options. Supplying more than one mode flag
/// is rejected here, before any mode-specific parsing runs.
pub fn resolve_and_parse(a: &RawArgs, list_lines: &Option<Vec<String>>) -> (r: Result<
    ResolvedCommand,
    ParseFailure,
>)
    ensures
        r is Ok <==> resolve_outcome(*a, *list_lines) is Ok,
        r is Err ==> r->Err_0 == resolve_outcome(*a, *list_lines)->Err_0,
        r is Ok ==> resolved_matches(*a, *list_lines, r->Ok_0),
        mode_flag_count(*a) > 1 ==> r == Err::<ResolvedCommand, ParseFailure>(
            ParseFailure::ModeConflict,
        ),
{
    if count_mode_flags(a) > 1 {
        return Err(ParseFailure::ModeConflict);
    }
    match resolve_command(a) {
        crate::opts::CommandType::PortScan => match parse_port_args(a, list_lines) {
            Ok(o) => Ok(ResolvedCommand::PortScan(o)),
            Err(e) => Err(ParseFailure::Flag(e)),
        },
        crate::opts::CommandType::HostScan => match parse_host_args(a, list_lines) {
            Ok(o) => Ok(ResolvedCommand::HostScan(o)),
            Err(e) => Err(ParseFailure::Flag(e)),
        },
        crate::opts::CommandType::Ping => match parse_ping_args(a) {
            Ok(o) => Ok(ResolvedCommand::Ping(o)),
            Err(e) => Err(ParseFailure::Flag(e)),
        },
        crate::opts::CommandType::Traceroute => match parse_trace_args(a) {
            Ok(o) => Ok(ResolvedCommand::Traceroute(o)),
            Err(e) => Err(ParseFailure::Flag(e)),
        },
        crate::opts::CommandType::DomainScan => match parse_domain_args(a, list_lines) {
            Ok(o) => Ok(ResolvedCommand::DomainScan(o)),
            Err(e) => Err(ParseFailure::Flag(e)),
        },
    }
}


/// Which port set a well-formed `--port` target receives: an explicit list
/// file yields the ports read from it; without one, a target lacking an
/// embedded range yields the well-known list when that flag is set and the
/// built-in default list otherwise.
pub proof fn lemma_port_list_choice(a: RawArgs, lines: Option<Vec<String>>, o: PortScanOption)
    requires
        port_opt_matches(a, lines, o),
    ensures
        a.list is Some ==> o.port_source is FromFile && o.ports@ == ports_of_lines(lines->0@),
        a.list is None && split_by(a.port->0@, ':').len() == 1 && a.wellknown ==> o.port_source
            is WellKnown && o.ports@ == well_known_port_seq(),
        a.list is None && split_by(a.port->0@, ':').len() == 1 && !a.wellknown ==> o.port_source
            is DefaultList && o.ports@ == default_port_seq(),
{
}

/// Observational equality of two port-scan descriptors.
pub open spec fn port_opt_obs_eq(o1: PortScanOption, o2: PortScanOption) -> bool {
    &&& o1.target_host@ == o2.target_host@
    &&& o1.ports@ == o2.ports@
    &&& o1.port_source == o2.port_source
    &&& o1.scan_type == o2.scan_type
    &&& opt_str_eq(o1.interface_name, o2.interface_name)
    &&& opt_str_eq(o1.source_ip, o2.source_ip)
    &&& o1.timeout_ms == o2.timeout_ms
    &&& o1.wait_time_ms == o2.wait_time_ms
    &&& o1.send_rate_ms == o2.send_rate_ms
    &&& o1.service_detection == o2.service_detection
    &&& o1.os_detection == o2.os_detection
    &&& o1.async_scan == o2.async_scan
    &&& o1.json_output == o2.json_output
    &&& opt_str_eq(o1.save_path, o2.save_path)
    &&& o1.accept_invalid_certs == o2.accept_invalid_certs
}

/// Observational equality of two host-scan descriptors.
pub open spec fn host_opt_obs_eq(o1: HostScanOption, o2: HostScanOption) -> bool {
    &&& o1.targets.deep_view() == o2.targets.deep_view()
    &&& o1.target_kind == o2.target_kind
    &&& o1.scan_type == o2.scan_type
    &&& opt_str_eq(o1.interface_name, o2.interface_name)
    &&& opt_str_eq(o1.source_ip, o2.source_ip)
    &&& o1.timeout_ms == o2.timeout_ms
    &&& o1.wait_time_ms == o2.wait_time_ms
    &&& o1.send_rate_ms == o2.send_rate_ms
    &&& o1.os_detection == o2.os_detection
    &&& o1.async_scan == o2.async_scan
    &&& o1.json_output == o2.json_output
    &&& opt_str_eq(o1.save_path, o2.save_path)
}

/// Observational equality of two ping descriptors.
pub open spec fn ping_opt_obs_eq(o1: PingOption, o2: PingOption) -> bool {
    &&& o1.target@ == o2.target@
    &&& o1.protocol == o2.protocol
    &&& o1.count == o2.count
    &&& o1.ttl == o2.ttl
    &&& o1.timeout_ms == o2.timeout_ms
    &&& o1.wait_time_ms == o2.wait_time_ms
    &&& o1.json_output == o2.json_output
    &&& opt_str_eq(o1.save_path, o2.save_path)
}

/// Observational equality of two traceroute descriptors.
pub open spec fn trace_opt_obs_eq(o1: TracerouteOption, o2: TracerouteOption) -> bool {
    &&& o1.target@ == o2.target@
    &&& o1.max_hop == o2.max_hop
    &&& o1.timeout_ms == o2.timeout_ms
    &&& o1.wait_time_ms == o2.wait_time_ms
    &&& o1.json_output == o2.json_output
    &&& opt_str_eq(o1.save_path, o2.save_path)
}

/// Observational equality of two sub-domain-scan descriptors.
pub open spec fn domain_opt_obs_eq(o1: DomainScanOption, o2: DomainScanOption) -> bool {
    &&& o1.base_domain@ == o2.base_domain@
    &&& o1.words.deep_view() == o2.words.deep_view()
    &&& o1.timeout_ms == o2.timeout_ms
    &&& o1.json_output == o2.json_output
    &&& opt_str_eq(o1.save_path, o2.save_path)
}

/// Observational equality of two resolved commands: the same mode, and the
/// same descriptor contents.
pub open spec fn resolved_obs_eq(c1: ResolvedCommand, c2: ResolvedCommand) -> bool {
    match (c1, c2) {
        (ResolvedCommand::PortScan(a), ResolvedCommand::PortScan(b)) => port_opt_obs_eq(a, b),
        (ResolvedCommand::HostScan(a), ResolvedCommand::HostScan(b)) => host_opt_obs_eq(a, b),
        (ResolvedCommand::Ping(a), ResolvedCommand::Ping(b)) => ping_opt_obs_eq(a, b),
        (ResolvedCommand::Traceroute(a), ResolvedCommand::Traceroute(b)) => trace_opt_obs_eq(a, b),
        (ResolvedCommand::DomainScan(a), ResolvedCommand::DomainScan(b)) => domain_opt_obs_eq(
            a,
            b,
        ),
        _ => false,
    }
}

/// Parsing is deterministic and side-effect-free: the contract of
/// `resolve_and_parse` pins every observable field of the descriptor, so any
/// two descriptors resolved from the same argument set are identical in
/// content.
pub proof fn lemma_resolution_deterministic(
    a: RawArgs,
    lines: Option<Vec<String>>,
    c1: ResolvedCommand,
    c2: ResolvedCommand,
)
    requires
        resolved_matches(a, lines, c1),
        resolved_matches(a, lines, c2),
    ensures
        resolved_obs_eq(c1, c2),
{
    match resolved_mode(a) {
        crate::opts::CommandType::PortScan => {
        },
        crate::opts::CommandType::HostScan => {
            let o1 = c1->HostScan_0;
            let o2 = c2->HostScan_0;
            let t = a.host->0@;
            if is_list_file_path(t) {
            } else if valid_cidr(t) {
                assert(o1.targets.deep_view() =~= o2.targets.deep_view()) by {
                    assert(o1.targets.deep_view().len() == o1.targets@.len());
                    assert(o2.targets.deep_view().len() == o2.targets@.len());
                    assert(o1.targets.deep_view()[0] == o1.targets@[0]@);
                    assert(o2.targets.deep_view()[0] == o2.targets@[0]@);
                }
            } else {
            }
        },
        crate::opts::CommandType::Ping => {
        },
        crate::opts::CommandType::Traceroute => {
        },
        crate::opts::CommandType::DomainScan => {
            let o1 = c1->DomainScan_0;
            let o2 = c2->DomainScan_0;
            if a.list is Some {
            } else {
                assert(o1.words.deep_view() =~= o2.words.deep_view()) by {
                    assert(o1.words.deep_view().len() == o1.words@.len());
                    assert(o2.words.deep_view().len() == o2.words@.len());
                }
            }
        },
    }
}

} // verus!
