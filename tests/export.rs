use nmap_report::batch::{batch_rows, collect_hosts, HostBatch, SourceError};
use nmap_report::flatten::{flatten, summary_only_groups};
use nmap_report::model::{
    Address, Debugging, Extraports, Host, Hostname, Hostnames, Port, Ports, Scan, Scaninfo,
    Service, State, Verbose,
};
use nmap_report::table::{batch_to_csv, encode_header, header, row_record, scan_to_csv};

const HEADER: &str = "addr,addrtype,protocol,portid,state,reason,reason_ttl,name,product,tunnel,method,conf\r\n";

fn s(v: &str) -> String {
    v.to_string()
}

fn address(addr: &str) -> Address {
    Address { addr: s(addr), addrtype: s("ipv4") }
}

fn port(protocol: &str, portid: &str, state: &str, service: Option<&str>) -> Port {
    Port {
        protocol: Some(s(protocol)),
        portid: Some(s(portid)),
        state: Some(State { state: s(state), reason: s("syn-ack"), reason_ttl: s("64") }),
        service: service.map(|n| Service {
            name: Some(s(n)),
            product: None,
            servicefp: None,
            tunnel: None,
            method: None,
            conf: None,
            cpe: None,
        }),
    }
}

fn host(addr: &str, ports: Vec<Ports>) -> Host {
    Host {
        address: address(addr),
        hostnames: Hostnames { hostname: Some(Hostname { name: Some(s("example.org")), kind: s("user") }) },
        ports,
        os: None,
        uptime: None,
        tcpsequence: None,
        ipidsequence: None,
        tcptssequence: None,
        times: None,
    }
}

fn listed(ports: Vec<Port>) -> Ports {
    Ports { extraports: None, port: Some(ports) }
}

fn summary_only() -> Ports {
    Ports {
        extraports: Some(vec![Extraports { state: s("filtered"), count: s("1000"), extrareasons: None }]),
        port: None,
    }
}

fn scan(hosts: Vec<Host>) -> Scan {
    Scan {
        scaninfo: Scaninfo { kind: s("syn"), protocol: Some(s("tcp")), numservices: s("1000"), services: s("1-1000") },
        verbose: Verbose { level: s("0") },
        debugging: Debugging { level: s("0") },
        host: hosts,
    }
}

fn text(b: Vec<u8>) -> String {
    String::from_utf8(b).unwrap()
}

#[test]
fn single_port_scan_gives_header_and_one_row() {
    let sc = scan(vec![host("10.0.0.1", vec![listed(vec![port("tcp", "80", "open", Some("http"))])])]);
    let out = batch_to_csv(&vec![Ok(sc)]).unwrap();
    assert_eq!(text(out), format!("{}10.0.0.1,ipv4,tcp,80,open,syn-ack,64,http,,,,\r\n", HEADER));
}

#[test]
fn summary_only_group_gives_no_row_but_keeps_host() {
    let sc = scan(vec![host("10.0.0.2", vec![summary_only()])]);
    assert_eq!(flatten(&sc).len(), 0);
    assert_eq!(summary_only_groups(&sc), vec![(0, 0)]);
    assert_eq!(scan_to_csv(&sc).unwrap(), Vec::<u8>::new());
    let batch = collect_hosts(vec![Ok(sc.clone())]);
    assert_eq!(batch.hosts.len(), 1);
    let ports = &batch.hosts[0].ports;
    assert_eq!(ports.len(), 1);
    assert_eq!(ports[0].extraports.as_ref().unwrap()[0].count, "1000");
    assert!(ports[0].port.is_none());
}

#[test]
fn malformed_middle_source_is_skipped() {
    let a = scan(vec![host("10.0.0.1", vec![])]);
    let c = scan(vec![host("10.0.0.3", vec![])]);
    let batch = collect_hosts(vec![Ok(a), Err(SourceError::Malformed), Ok(c)]);
    let addrs: Vec<&str> = batch.hosts.iter().map(|h| h.address.addr.as_str()).collect();
    assert_eq!(addrs, vec!["10.0.0.1", "10.0.0.3"]);
    assert_eq!(batch.skipped, vec![1]);
    assert_eq!(batch.seen, 3);
}

#[test]
fn partial_failure_counts() {
    let outs = vec![
        Err(SourceError::Unreadable),
        Ok(scan(vec![host("10.0.0.1", vec![]), host("10.0.0.2", vec![])])),
        Err(SourceError::Malformed),
        Ok(scan(vec![])),
    ];
    let batch = collect_hosts(outs);
    assert_eq!(batch.skipped, vec![0, 2]);
    assert_eq!(batch.hosts.len(), 2);
}

#[test]
fn row_count_sums_listed_ports() {
    let sc = scan(vec![
        host("10.0.0.1", vec![
            listed(vec![port("tcp", "22", "open", None), port("tcp", "80", "open", None)]),
            summary_only(),
        ]),
        host("10.0.0.2", vec![listed(vec![port("udp", "53", "open", Some("domain"))])]),
    ]);
    assert_eq!(flatten(&sc).len(), 3);
    let outs = vec![Ok(sc.clone()), Err(SourceError::Malformed), Ok(sc)];
    assert_eq!(batch_rows(&outs).len(), 6);
}

#[test]
fn rows_follow_document_order() {
    let sc = scan(vec![
        host("10.0.0.1", vec![
            listed(vec![port("tcp", "443", "open", None), port("tcp", "22", "open", None)]),
            listed(vec![port("udp", "161", "open", None)]),
        ]),
        host("10.0.0.0", vec![listed(vec![port("tcp", "80", "closed", None)])]),
    ]);
    let rows = flatten(&sc);
    let got: Vec<(String, String)> = rows
        .iter()
        .map(|r| (r.address.addr.clone(), r.port.portid.clone().unwrap()))
        .collect();
    assert_eq!(got, vec![
        (s("10.0.0.1"), s("443")),
        (s("10.0.0.1"), s("22")),
        (s("10.0.0.1"), s("161")),
        (s("10.0.0.0"), s("80")),
    ]);
}

#[test]
fn flatten_twice_gives_same_rows() {
    let sc = scan(vec![host("10.0.0.1", vec![listed(vec![port("tcp", "80", "open", Some("http")), port("tcp", "25", "filtered", None)])])]);
    let a: Vec<Vec<String>> = flatten(&sc).iter().map(row_record).collect();
    let b: Vec<Vec<String>> = flatten(&sc).iter().map(row_record).collect();
    assert_eq!(a, b);
    assert_eq!(a.len(), 2);
}

#[test]
fn empty_batch_still_has_header() {
    assert_eq!(text(batch_to_csv(&vec![]).unwrap()), HEADER);
    assert_eq!(text(encode_header().unwrap()), HEADER);
    assert_eq!(header().len(), 12);
}

#[test]
fn absent_port_fields_are_empty_cells() {
    let bare = Port { protocol: None, portid: Some(s("8080")), state: None, service: None };
    let sc = scan(vec![host("10.0.0.9", vec![listed(vec![bare])])]);
    assert_eq!(text(scan_to_csv(&sc).unwrap()), "10.0.0.9,ipv4,,8080,,,,,,,,\r\n");
}

#[test]
fn service_fields_fill_their_columns() {
    let mut p = port("tcp", "443", "open", Some("https"));
    p.service = Some(Service {
        name: Some(s("https")),
        product: Some(s("nginx")),
        servicefp: Some(s("fingerprint")),
        tunnel: Some(s("ssl")),
        method: Some(s("probed")),
        conf: Some(s("10")),
        cpe: None,
    });
    let sc = scan(vec![host("10.0.0.4", vec![listed(vec![p])])]);
    assert_eq!(
        text(scan_to_csv(&sc).unwrap()),
        "10.0.0.4,ipv4,tcp,443,open,syn-ack,64,https,nginx,ssl,probed,10\r\n"
    );
}

#[test]
fn cells_with_separators_are_quoted() {
    let mut p = port("tcp", "80", "open", Some("http"));
    if let Some(sv) = p.service.as_mut() {
        sv.product = Some(s("Apache, \"httpd\""));
    }
    let sc = scan(vec![host("10.0.0.5", vec![listed(vec![p])])]);
    assert_eq!(
        text(scan_to_csv(&sc).unwrap()),
        "10.0.0.5,ipv4,tcp,80,open,syn-ack,64,http,\"Apache, \"\"httpd\"\"\",,,\r\n"
    );
}

#[test]
fn host_batch_adds_one_source_at_a_time() {
    let mut batch = HostBatch::new();
    batch.add(Ok(scan(vec![host("10.0.0.1", vec![])])));
    batch.add(Err(SourceError::Unreadable));
    batch.add(Ok(scan(vec![host("10.0.0.2", vec![]), host("10.0.0.3", vec![])])));
    assert_eq!(batch.seen, 3);
    assert_eq!(batch.skipped, vec![1]);
    assert_eq!(batch.hosts.len(), 3);
    assert_eq!(batch.hosts[2].address.addr, "10.0.0.3");
}

#[test]
fn summary_positions_in_document_order() {
    let sc = scan(vec![
        host("10.0.0.1", vec![listed(vec![port("tcp", "22", "open", None)]), summary_only()]),
        host("10.0.0.2", vec![summary_only(), summary_only()]),
    ]);
    assert_eq!(summary_only_groups(&sc), vec![(0, 1), (1, 0), (1, 1)]);
}

#[test]
fn batch_table_skips_failed_source_and_keeps_order() {
    let a = scan(vec![host("10.0.0.1", vec![listed(vec![port("tcp", "22", "open", Some("ssh"))])])]);
    let c = scan(vec![host("10.0.0.3", vec![summary_only(), listed(vec![port("udp", "53", "open", None)])])]);
    let out = batch_to_csv(&vec![Ok(a), Err(SourceError::Malformed), Ok(c)]).unwrap();
    assert_eq!(
        text(out),
        format!(
            "{}10.0.0.1,ipv4,tcp,22,open,syn-ack,64,ssh,,,,\r\n10.0.0.3,ipv4,udp,53,open,syn-ack,64,,,,,\r\n",
            HEADER
        )
    );
}

#[test]
fn all_malformed_batch_gives_header_only() {
    let outs = vec![Err(SourceError::Malformed), Err(SourceError::Unreadable)];
    assert_eq!(text(batch_to_csv(&outs).unwrap()), HEADER);
    let summary = vec![Ok(scan(vec![host("10.0.0.2", vec![summary_only()])]))];
    assert_eq!(text(batch_to_csv(&summary).unwrap()), HEADER);
}
