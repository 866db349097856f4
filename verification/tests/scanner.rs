use netrat::commands::Listen;
use netrat::commands::Scan;
use netrat::port_scanner::probe_report;
use netrat::port_scanner::sort_ports;
use netrat::port_scanner::PortScanner;
use netrat::protocol::Protocol;

#[test]
fn scanner_probes_exactly_the_range() {
    let scanner = PortScanner::new("127.0.0.1", 8079, 8082);
    assert_eq!(scanner.ports_to_probe(), vec![8079, 8080, 8081, 8082]);
}

#[test]
fn scanner_single_port_range() {
    let scanner = PortScanner::new("127.0.0.1", 443, 443);
    assert_eq!(scanner.ports_to_probe(), vec![443]);
}

#[test]
fn scanner_inverted_range_probes_nothing() {
    let scanner = PortScanner::new("127.0.0.1", 9000, 8000);
    assert_eq!(scanner.ports_to_probe(), Vec::<u16>::new());
}

#[test]
fn scanner_range_reaches_the_last_port() {
    let scanner = PortScanner::new("127.0.0.1", 65534, 65535);
    assert_eq!(scanner.ports_to_probe(), vec![65534, 65535]);
}

#[test]
fn scanner_timeout_defaults_and_overrides() {
    let scanner = PortScanner::new("127.0.0.1", 1, 1024);
    assert_eq!(scanner.timeout_millis(), 200);
    let scanner = scanner.with_timeout(50);
    assert_eq!(scanner.timeout_millis(), 50);
}

#[test]
fn scanner_probe_target_text() {
    let scanner = PortScanner::new("10.0.0.2", 1, 1024);
    assert_eq!(scanner.probe_target(8080), "10.0.0.2:8080");
    assert_eq!(scanner.probe_target(1), "10.0.0.2:1");
}

#[test]
fn probe_reports_only_open_ports() {
    assert_eq!(probe_report(8080, true), Some(8080));
    assert_eq!(probe_report(8080, false), None);
}

#[test]
fn known_open_ports_are_found_exactly() {
    // A host listens on ports 3 and 7 of the scanned range 1..=10; all
    // other ports stay silent.
    let scanner = PortScanner::new("127.0.0.1", 1, 10);
    let mut reports: Vec<u16> = Vec::new();
    for port in scanner.ports_to_probe() {
        let connected = port == 3 || port == 7;
        if let Some(open) = probe_report(port, connected) {
            reports.push(open);
        }
    }
    let open_ports = sort_ports(reports);
    assert_eq!(open_ports, vec![3, 7]);
    for port in &open_ports {
        assert!((1..=10).contains(port));
    }
}

#[test]
fn ports_outside_the_range_never_appear() {
    // Ports 11 and 12 listen too, but lie outside the scanned range.
    let scanner = PortScanner::new("127.0.0.1", 1, 10);
    let mut reports: Vec<u16> = Vec::new();
    for port in scanner.ports_to_probe() {
        let connected = port == 5 || port == 11 || port == 12;
        if let Some(open) = probe_report(port, connected) {
            reports.push(open);
        }
    }
    assert_eq!(sort_ports(reports), vec![5]);
}

#[test]
fn result_does_not_depend_on_completion_order() {
    // The same probes finish in two different orders; the presented
    // result is identical.
    let first = sort_ports(vec![8080, 22, 443]);
    let second = sort_ports(vec![443, 8080, 22]);
    assert_eq!(first, second);
    assert_eq!(first, vec![22, 443, 8080]);
}

#[test]
fn sort_keeps_every_report() {
    assert_eq!(sort_ports(vec![5, 3, 5, 1]), vec![1, 3, 5, 5]);
    assert_eq!(sort_ports(Vec::new()), Vec::<u16>::new());
}

#[test]
fn scan_command_configures_the_scanner() {
    let scan = Scan { host: String::from("127.0.0.1"), start: 1, end: 1024, timeout: 75 };
    let scanner = scan.scanner();
    assert_eq!(scanner.timeout_millis(), 75);
    assert_eq!(scanner.probe_target(80), "127.0.0.1:80");
    let ports = scanner.ports_to_probe();
    assert_eq!(ports.len(), 1024);
    assert_eq!(ports[0], 1);
    assert_eq!(ports[1023], 1024);
}

#[test]
fn listen_bind_addresses() {
    let listen = Listen { port: 4321, host: String::from("localhost"), protocol: Protocol::TCP };
    assert_eq!(listen.bind_address(), "127.0.0.1:4321");
    assert_eq!(listen.udp_bind_address(), "0.0.0.0:4321");
    let listen = Listen { port: 80, host: String::from("0.0.0.0"), protocol: Protocol::UDP };
    assert_eq!(listen.bind_address(), "0.0.0.0:80");
}
