use rmap_cli_core::gate::{
    dispatch_plan, gate, gate_host_scan, gate_ping, gate_port_scan, DispatchPlan, ExecutionMode,
    GateDecision, OsFamily, PlatformFacts, RefuseReason, ResolvedCommand,
};
use rmap_cli_core::opts::{
    CommandType, FlagKind, HostScanType, HostTargetKind, PortListSource, PortScanType, Protocol,
    RawArgs, ViolationReason,
};
use rmap_cli_core::parse::{
    parse_domain_args, parse_host_args, parse_ping_args, parse_port_args, parse_trace_args,
    resolve_and_parse, ParseFailure,
};
use rmap_cli_core::resolve::{count_mode_flags, resolve_command};
use rmap_cli_core::validator::{
    validate_count, validate_domain_opt, validate_filepath, validate_host_opt,
    validate_hostscan_opt, validate_interface, validate_port_opt, validate_portscantype,
    validate_protocol, validate_rate, validate_timeout, validate_ttl, validate_waittime,
};
use rmap_cli_core::{is_quiet_mode, set_quiet_mode, AppCommands, RunContext};

fn empty_args() -> RawArgs {
    RawArgs {
        port: None,
        host: None,
        ping: None,
        trace: None,
        domain: None,
        interface: None,
        source: None,
        protocol: None,
        maxhop: None,
        scantype: None,
        timeout: None,
        waittime: None,
        rate: None,
        count: None,
        service: false,
        os_detect: false,
        async_scan: false,
        list: None,
        wellknown: false,
        json: false,
        save: None,
        accept_invalid_certs: false,
    }
}

#[test]
fn mode_conflict_rejected_before_parsing() {
    let mut a = empty_args();
    a.port = Some("192.168.1.8".to_string());
    a.ping = Some("192.168.1.8".to_string());
    assert_eq!(count_mode_flags(&a), 2);
    let r = resolve_and_parse(&a, &None);
    assert_eq!(r.unwrap_err(), ParseFailure::ModeConflict);
}

#[test]
fn three_mode_flags_still_conflict() {
    let mut a = empty_args();
    a.host = Some("192.168.1.0/24".to_string());
    a.trace = Some("192.168.1.8".to_string());
    a.domain = Some("example.com".to_string());
    let r = resolve_and_parse(&a, &None);
    assert_eq!(r.unwrap_err(), ParseFailure::ModeConflict);
}

#[test]
fn no_mode_flag_defaults_to_port_scan() {
    let a = empty_args();
    assert_eq!(resolve_command(&a), CommandType::PortScan);
}

#[test]
fn precedence_port_over_domain() {
    let mut a = empty_args();
    a.port = Some("192.168.1.8".to_string());
    a.domain = Some("example.com".to_string());
    assert_eq!(resolve_command(&a), CommandType::PortScan);
}

#[test]
fn maxhop_zero_is_out_of_range() {
    let e = validate_ttl("0").unwrap_err();
    assert_eq!(e.flag, FlagKind::MaxHop);
    assert_eq!(e.reason, ViolationReason::OutOfRange);
    assert_eq!(e.message(), "maxhop: the value must be between 1 and 255");
}

#[test]
fn maxhop_256_is_out_of_range() {
    let e = validate_ttl("256").unwrap_err();
    assert_eq!(e.reason, ViolationReason::OutOfRange);
    assert_eq!(validate_ttl("255").unwrap(), 255u8);
    assert_eq!(validate_ttl("1").unwrap(), 1u8);
}

#[test]
fn negative_timeout_is_out_of_range() {
    let e = validate_timeout("-5").unwrap_err();
    assert_eq!(e.flag, FlagKind::Timeout);
    assert_eq!(e.reason, ViolationReason::OutOfRange);
    assert_eq!(e.message(), "timeout: the value must be between 0 and 86400000");
}

#[test]
fn timeout_text_is_not_a_number() {
    let e = validate_timeout("soon").unwrap_err();
    assert_eq!(e.reason, ViolationReason::NotANumber);
    assert_eq!(e.message(), "timeout: the value is not a number");
}

#[test]
fn huge_timeout_is_out_of_range() {
    let e = validate_timeout("99999999999999999999999").unwrap_err();
    assert_eq!(e.reason, ViolationReason::OutOfRange);
    assert_eq!(validate_timeout("86400000").unwrap(), 86400000u64);
    assert!(validate_timeout("86400001").is_err());
}

#[test]
fn count_bounds() {
    assert_eq!(validate_count("4").unwrap(), 4u64);
    assert!(validate_count("0").is_err());
    assert!(validate_count("10001").is_err());
    assert_eq!(validate_waittime("200").unwrap(), 200u64);
    assert_eq!(validate_rate("1").unwrap(), 1u64);
}

#[test]
fn port_target_without_range_gets_default_list() {
    let mut a = empty_args();
    a.port = Some("192.168.1.8".to_string());
    let o = parse_port_args(&a, &None).unwrap();
    assert_eq!(o.target_host, "192.168.1.8");
    assert_eq!(o.port_source, PortListSource::DefaultList);
    assert_eq!(
        o.ports,
        vec![
            21u16, 22, 23, 25, 53, 80, 110, 111, 135, 139, 143, 443, 445, 587, 993, 995, 1025,
            1723, 3306, 3389, 5432, 5900, 8080, 8443
        ]
    );
}

#[test]
fn wellknown_flag_yields_wellknown_list() {
    let mut a = empty_args();
    a.port = Some("192.168.1.8".to_string());
    a.wellknown = true;
    let o = parse_port_args(&a, &None).unwrap();
    assert_eq!(o.port_source, PortListSource::WellKnown);
    assert_eq!(o.ports.len(), 1023);
    assert_eq!(o.ports[0], 1);
    assert_eq!(o.ports[1022], 1023);
}

#[test]
fn list_file_overrides_everything() {
    let mut a = empty_args();
    a.port = Some("192.168.1.8:1-1000".to_string());
    a.list = Some("custom-list.txt".to_string());
    a.wellknown = true;
    let lines = Some(vec!["80".to_string(), "443".to_string(), "8080".to_string()]);
    let o = parse_port_args(&a, &lines).unwrap();
    assert_eq!(o.port_source, PortListSource::FromFile);
    assert_eq!(o.ports, vec![80u16, 443, 8080]);
}

#[test]
fn embedded_range_expands() {
    let mut a = empty_args();
    a.port = Some("192.168.1.8:1-10".to_string());
    let o = parse_port_args(&a, &None).unwrap();
    assert_eq!(o.port_source, PortListSource::FromTarget);
    assert_eq!(o.ports, (1u16..=10).collect::<Vec<u16>>());
    assert_eq!(o.target_host, "192.168.1.8");
}

#[test]
fn embedded_list_is_taken_verbatim() {
    let mut a = empty_args();
    a.port = Some("192.168.1.8:22,80,8080".to_string());
    let o = parse_port_args(&a, &None).unwrap();
    assert_eq!(o.port_source, PortListSource::FromTarget);
    assert_eq!(o.ports, vec![22u16, 80, 8080]);
}

#[test]
fn bad_port_target_is_malformed() {
    let mut a = empty_args();
    a.port = Some("a..b".to_string());
    let e = parse_port_args(&a, &None).unwrap_err();
    assert_eq!(e.flag, FlagKind::Port);
    assert_eq!(e.reason, ViolationReason::MalformedAddress);
    assert!(validate_port_opt("a..b").is_err());
    assert!(validate_port_opt("192.168.1.8:70000").is_err());
    assert!(validate_port_opt("192.168.1.8:10-5").is_err());
    assert!(validate_port_opt("192.168.1.8").is_ok());
}

#[test]
fn unknown_scan_type_is_rejected() {
    let mut a = empty_args();
    a.port = Some("192.168.1.8".to_string());
    a.scantype = Some("xmas".to_string());
    let e = parse_port_args(&a, &None).unwrap_err();
    assert_eq!(e.flag, FlagKind::ScanType);
    assert_eq!(e.reason, ViolationReason::UnknownEnumValue);
    assert_eq!(validate_portscantype("syn").unwrap(), PortScanType::TcpSynScan);
    assert_eq!(validate_portscantype("connect").unwrap(), PortScanType::TcpConnectScan);
}

#[test]
fn missing_list_file_is_unreadable() {
    let mut a = empty_args();
    a.port = Some("192.168.1.8".to_string());
    a.list = Some("custom-list.txt".to_string());
    let e = parse_port_args(&a, &None).unwrap_err();
    assert_eq!(e.flag, FlagKind::List);
    assert_eq!(e.reason, ViolationReason::UnreadableFile);
}

#[test]
fn bad_list_file_path_is_malformed() {
    let mut a = empty_args();
    a.port = Some("192.168.1.8".to_string());
    a.list = Some("custom-list.dat".to_string());
    let e = parse_port_args(&a, &None).unwrap_err();
    assert_eq!(e.flag, FlagKind::List);
    assert_eq!(e.reason, ViolationReason::MalformedAddress);
    assert!(validate_filepath("custom-list.txt").is_ok());
}

#[test]
fn bad_line_in_port_list_file() {
    let mut a = empty_args();
    a.port = Some("192.168.1.8".to_string());
    a.list = Some("l.txt".to_string());
    let e = parse_port_args(&a, &Some(vec!["80".to_string(), "abc".to_string()])).unwrap_err();
    assert_eq!(e.flag, FlagKind::List);
    assert_eq!(e.reason, ViolationReason::NotANumber);
    let e2 = parse_port_args(&a, &Some(vec!["80".to_string(), "70000".to_string()])).unwrap_err();
    assert_eq!(e2.reason, ViolationReason::OutOfRange);
}

#[test]
fn syn_scan_unprivileged_is_refused() {
    let mut a = empty_args();
    a.port = Some("192.168.1.8".to_string());
    a.service = true;
    a.os_detect = true;
    let o = parse_port_args(&a, &None).unwrap();
    assert_eq!(o.scan_type, PortScanType::TcpSynScan);
    let f = PlatformFacts { privileged: false, os: OsFamily::Linux };
    let d = gate_port_scan(&o, &f);
    assert_eq!(d, GateDecision::Refuse(RefuseReason::RequiresPrivilege));
    assert_eq!(
        RefuseReason::RequiresPrivilege.message(),
        "Requires administrator privilege"
    );
    assert_eq!(dispatch_plan(&ResolvedCommand::PortScan(o), &d), None);
}

#[test]
fn connect_scan_allowed_without_privilege() {
    let mut a = empty_args();
    a.port = Some("192.168.1.8".to_string());
    a.scantype = Some("connect".to_string());
    let o = parse_port_args(&a, &None).unwrap();
    assert_eq!(o.scan_type, PortScanType::TcpConnectScan);
    for privileged in [false, true] {
        for os in [OsFamily::Linux, OsFamily::Windows, OsFamily::MacOs] {
            let d = gate_port_scan(&o, &PlatformFacts { privileged, os });
            assert_eq!(d, GateDecision::Allow(ExecutionMode::CooperativeSingleShot));
        }
    }
}

#[test]
fn async_syn_scan_refused_on_windows() {
    let mut a = empty_args();
    a.port = Some("192.168.1.8".to_string());
    a.async_scan = true;
    let o = parse_port_args(&a, &None).unwrap();
    let f = PlatformFacts { privileged: true, os: OsFamily::Windows };
    let d = gate_port_scan(&o, &f);
    assert_eq!(d, GateDecision::Refuse(RefuseReason::AsyncSynUnsupported));
    assert_eq!(
        RefuseReason::AsyncSynUnsupported.message(),
        "Async TCP SYN Scan is not supported on Windows"
    );
    let on_linux = gate_port_scan(&o, &PlatformFacts { privileged: true, os: OsFamily::Linux });
    assert_eq!(on_linux, GateDecision::Allow(ExecutionMode::CooperativeSingleShot));
}

#[test]
fn icmp_host_scan_needs_privilege() {
    let mut a = empty_args();
    a.host = Some("192.168.1.0/24".to_string());
    let o = parse_host_args(&a, &None).unwrap();
    assert_eq!(o.scan_type, HostScanType::IcmpPingScan);
    assert_eq!(o.target_kind, HostTargetKind::Network);
    assert_eq!(o.targets, vec!["192.168.1.0/24".to_string()]);
    let unpriv = PlatformFacts { privileged: false, os: OsFamily::Linux };
    assert_eq!(
        gate_host_scan(&o, &unpriv),
        GateDecision::Refuse(RefuseReason::RequiresPrivilege)
    );
    let priv_ = PlatformFacts { privileged: true, os: OsFamily::Linux };
    assert_eq!(
        gate_host_scan(&o, &priv_),
        GateDecision::Allow(ExecutionMode::CooperativeSingleShot)
    );
}

#[test]
fn tcp_host_scan_needs_no_privilege() {
    let mut a = empty_args();
    a.host = Some("192.168.1.10,192.168.1.20,192.168.1.30".to_string());
    a.scantype = Some("tcp".to_string());
    let o = parse_host_args(&a, &None).unwrap();
    assert_eq!(o.scan_type, HostScanType::TcpPingScan);
    assert_eq!(o.target_kind, HostTargetKind::HostList);
    assert_eq!(
        o.targets,
        vec![
            "192.168.1.10".to_string(),
            "192.168.1.20".to_string(),
            "192.168.1.30".to_string()
        ]
    );
    let unpriv = PlatformFacts { privileged: false, os: OsFamily::Linux };
    assert_eq!(
        gate_host_scan(&o, &unpriv),
        GateDecision::Allow(ExecutionMode::CooperativeSingleShot)
    );
}

#[test]
fn host_list_file_lines_become_targets() {
    let mut a = empty_args();
    a.host = Some("custom-list.txt".to_string());
    let lines = Some(vec!["192.168.1.8".to_string(), "192.168.1.9".to_string()]);
    let o = parse_host_args(&a, &lines).unwrap();
    assert_eq!(o.target_kind, HostTargetKind::HostList);
    assert_eq!(o.targets, vec!["192.168.1.8".to_string(), "192.168.1.9".to_string()]);
    assert!(parse_host_args(&a, &None).is_err());
    assert!(validate_hostscan_opt("custom-list.txt").is_ok());
}

#[test]
fn ping_scenario_with_count() {
    let mut a = empty_args();
    a.ping = Some("192.168.1.8".to_string());
    a.count = Some("4".to_string());
    let o = parse_ping_args(&a).unwrap();
    assert_eq!(o.target, "192.168.1.8");
    assert_eq!(o.count, 4);
    assert_eq!(o.protocol, Protocol::Icmp);
    assert_eq!(o.ttl, 64);
    // the platform exception table: unprivileged ping is allowed only where
    // the OS grants ICMP without elevation
    assert_eq!(
        gate_ping(&o, &PlatformFacts { privileged: false, os: OsFamily::Linux }),
        GateDecision::Refuse(RefuseReason::RequiresPrivilege)
    );
    assert_eq!(
        gate_ping(&o, &PlatformFacts { privileged: false, os: OsFamily::Windows }),
        GateDecision::Allow(ExecutionMode::Direct)
    );
    assert_eq!(
        gate_ping(&o, &PlatformFacts { privileged: true, os: OsFamily::Linux }),
        GateDecision::Allow(ExecutionMode::Direct)
    );
}

#[test]
fn trace_parses_maxhop() {
    let mut a = empty_args();
    a.trace = Some("192.168.1.8".to_string());
    a.maxhop = Some("5".to_string());
    let o = parse_trace_args(&a).unwrap();
    assert_eq!(o.target, "192.168.1.8");
    assert_eq!(o.max_hop, 5);
    assert!(validate_host_opt("192.168.1.8").is_ok());
}

#[test]
fn domain_scan_parses_and_gates_freely() {
    let mut a = empty_args();
    a.domain = Some("example.com".to_string());
    let o = parse_domain_args(&a, &None).unwrap();
    assert_eq!(o.base_domain, "example.com");
    assert!(o.words.is_empty());
    let cmd = ResolvedCommand::DomainScan(o);
    for privileged in [false, true] {
        let f = PlatformFacts { privileged, os: OsFamily::Linux };
        let d = gate(&cmd, &f);
        assert_eq!(d, GateDecision::Allow(ExecutionMode::Direct));
        assert_eq!(
            dispatch_plan(&cmd, &d),
            Some(DispatchPlan { handler: CommandType::DomainScan, mode: ExecutionMode::Direct })
        );
    }
    assert!(validate_domain_opt("localhost").is_err());
    assert!(validate_domain_opt("example.com").is_ok());
}

#[test]
fn parsing_same_arguments_twice_is_bit_identical() {
    let mut a = empty_args();
    a.port = Some("192.168.1.8:22,80".to_string());
    a.timeout = Some("10000".to_string());
    a.waittime = Some("200".to_string());
    a.save = Some("result.json".to_string());
    a.json = true;
    let r1 = resolve_and_parse(&a, &None).unwrap();
    let r2 = resolve_and_parse(&a, &None).unwrap();
    assert_eq!(r1, r2);
    let mut p = empty_args();
    p.ping = Some("192.168.1.8".to_string());
    p.count = Some("4".to_string());
    assert_eq!(resolve_and_parse(&p, &None).unwrap(), resolve_and_parse(&p, &None).unwrap());
}

#[test]
fn resolve_and_parse_routes_to_the_resolved_mode() {
    let mut a = empty_args();
    a.ping = Some("192.168.1.8".to_string());
    match resolve_and_parse(&a, &None).unwrap() {
        ResolvedCommand::Ping(o) => assert_eq!(o.target, "192.168.1.8"),
        other => panic!("expected a ping descriptor, got {:?}", other),
    }
}

#[test]
fn interface_and_protocol_validators() {
    assert!(validate_interface("eth0").is_ok());
    assert!(validate_interface("").is_err());
    assert!(validate_interface("e th0").is_err());
    assert_eq!(validate_protocol("icmp").unwrap(), Protocol::Icmp);
    assert_eq!(validate_protocol("tcp").unwrap(), Protocol::Tcp);
    assert_eq!(validate_protocol("udp").unwrap(), Protocol::Udp);
    let e = validate_protocol("sctp").unwrap_err();
    assert_eq!(e.reason, ViolationReason::UnknownEnumValue);
}

#[test]
fn quiet_mode_round_trip() {
    let mut ctx = RunContext { quiet: false };
    assert!(!is_quiet_mode(&ctx));
    assert!(set_quiet_mode(&mut ctx, true).is_ok());
    assert!(is_quiet_mode(&ctx));
    assert!(set_quiet_mode(&mut ctx, false).is_ok());
    assert!(!is_quiet_mode(&ctx));
}

#[test]
fn app_commands_from_str() {
    assert_eq!(AppCommands::from_str("port"), Some(AppCommands::PortScan));
    assert_eq!(AppCommands::from_str("host"), Some(AppCommands::HostScan));
    assert_eq!(AppCommands::from_str("ping"), Some(AppCommands::Ping));
    assert_eq!(AppCommands::from_str("trace"), Some(AppCommands::Trace));
    assert_eq!(AppCommands::from_str("subdomain"), Some(AppCommands::Subdomain));
    assert_eq!(AppCommands::from_str("nei"), Some(AppCommands::Neighbor));
    assert_eq!(AppCommands::from_str("interfaces"), Some(AppCommands::Interfaces));
    assert_eq!(AppCommands::from_str("interface"), Some(AppCommands::Interface));
    assert_eq!(AppCommands::from_str("check"), Some(AppCommands::CheckDependencies));
    assert_eq!(AppCommands::from_str("bogus"), None);
    assert_eq!(AppCommands::from_str(""), None);
}

#[test]
fn mode_conflict_message() {
    assert_eq!(
        ParseFailure::ModeConflict.message(),
        "only one of the port, host, ping, trace and domain flags may be given"
    );
}

#[test]
fn non_ascii_target_is_rejected() {
    let mut a = empty_args();
    a.port = Some("exämple.com".to_string());
    let e = parse_port_args(&a, &None).unwrap_err();
    assert_eq!(e.reason, ViolationReason::MalformedAddress);
}

#[test]
fn ipv4_shape_edges() {
    // a leading zero makes an octet invalid, but the string may still pass
    // as a hostname of digit labels
    assert!(validate_host_opt("192.168.001.8").is_ok());
    assert!(validate_host_opt("256.1.1.1").is_ok());
    assert!(validate_host_opt("a..b").is_err());
    assert!(validate_host_opt("-bad.com").is_err());
    assert!(validate_host_opt("").is_err());
}

#[test]
fn cidr_prefix_edges() {
    assert!(validate_hostscan_opt("192.168.1.0/32").is_ok());
    assert!(validate_hostscan_opt("192.168.1.0/0").is_ok());
    assert!(validate_hostscan_opt("192.168.1.0/33").is_err());
    assert!(validate_hostscan_opt("192.168.1.0/x").is_err());
}

#[test]
fn port_zero_is_invalid() {
    assert!(validate_port_opt("192.168.1.8:0").is_err());
    assert!(validate_port_opt("192.168.1.8:0-10").is_err());
    assert!(validate_port_opt("192.168.1.8:1").is_ok());
    assert!(validate_port_opt("192.168.1.8:65535").is_ok());
    assert!(validate_port_opt("192.168.1.8:1:2").is_err());
}

#[test]
fn host_list_file_with_bad_line() {
    let mut a = empty_args();
    a.host = Some("custom-list.txt".to_string());
    let lines = Some(vec!["192.168.1.8".to_string(), "a..b".to_string()]);
    let e = parse_host_args(&a, &lines).unwrap_err();
    assert_eq!(e.flag, FlagKind::Host);
    assert_eq!(e.reason, ViolationReason::MalformedAddress);
}

#[test]
fn domain_wordlist_is_carried() {
    let mut a = empty_args();
    a.domain = Some("example.com".to_string());
    a.list = Some("words.txt".to_string());
    let lines = Some(vec!["www".to_string(), "mail".to_string()]);
    let o = parse_domain_args(&a, &lines).unwrap();
    assert_eq!(o.words, vec!["www".to_string(), "mail".to_string()]);
    assert!(parse_domain_args(&a, &None).is_err());
}
