//! The scan report data model.
//!
//! Every element whose presence varies between scanner versions is an
//! `Option`, so that "not reported" stays distinct from "reported as empty".
//! Values keep their textual form: nothing is parsed into numbers.
use vstd::prelude::*;

verus! {

/// Root record of one decoded report.
#[derive(Clone, Debug, PartialEq, Eq)]
pub struct Scan {
    pub scaninfo: Scaninfo,
    pub verbose: Verbose,
    pub debugging: Debugging,
    /// Hosts in document order.
    pub host: Vec<Host>,
}

/// Scan metadata: scan type and the summary of scanned services.
#[derive(Clone, Debug, PartialEq, Eq)]
pub struct Scaninfo {
    /// The `type` attribute.
    pub kind: String,
    pub protocol: Option<String>,
    pub numservices: String,
    pub services: String,
}

#[derive(Clone, Debug, PartialEq, Eq)]
pub struct Verbose {
    pub level: String,
}

#[derive(Clone, Debug, PartialEq, Eq)]
pub struct Debugging {
    pub level: String,
}

/// One scanned endpoint.
#[derive(Clone, Debug, PartialEq, Eq)]
pub struct Host {
    pub address: Address,
    pub hostnames: Hostnames,
    /// One group per scanned protocol, in document order.
    pub ports: Vec<Ports>,
    pub os: Option<Os>,
    pub uptime: Option<Uptime>,
    pub tcpsequence: Option<Tcpsequence>,
    pub ipidsequence: Option<Ipidsequence>,
    pub tcptssequence: Option<Tcptssequence>,
    pub times: Option<Times>,
}

#[derive(Clone, Debug, PartialEq, Eq)]
pub struct Address {
    pub addr: String,
    pub addrtype: String,
}

#[derive(Clone, Debug, PartialEq, Eq)]
pub struct Hostnames {
    pub hostname: Option<Hostname>,
}

/// A ports group. Without a `port` list it summarises every port of the
/// group through `extraports`; that is not the same as no port scanned.
#[derive(Clone, Debug, PartialEq, Eq)]
pub struct Ports {
    pub extraports: Option<Vec<Extraports>>,
    pub port: Option<Vec<Port>>,
}

/// Summary of ports that share one state and are not listed one by one.
#[derive(Clone, Debug, PartialEq, Eq)]
pub struct Extraports {
    pub state: String,
    pub count: String,
    pub extrareasons: Option<Vec<Extrareasons>>,
}

#[derive(Clone, Debug, PartialEq, Eq)]
pub struct Hostname {
    pub name: Option<String>,
    /// The `type` attribute.
    pub kind: String,
}

/// One individually reported port; every part of it may be absent.
#[derive(Clone, Debug, PartialEq, Eq)]
pub struct Port {
    pub protocol: Option<String>,
    pub portid: Option<String>,
    pub state: Option<State>,
    pub service: Option<Service>,
}

#[derive(Clone, Debug, PartialEq, Eq)]
pub struct State {
    pub state: String,
    pub reason: String,
    pub reason_ttl: String,
}

/// Service detection result. `servicefp` and `cpe` are kept in the model but
/// left out of both exports.
#[derive(Clone, Debug, PartialEq, Eq)]
pub struct Service {
    pub name: Option<String>,
    pub product: Option<String>,
    pub servicefp: Option<String>,
    pub tunnel: Option<String>,
    pub method: Option<String>,
    pub conf: Option<String>,
    pub cpe: Option<Vec<CPE>>,
}

#[derive(Clone, Debug, PartialEq, Eq)]
pub struct Status {
    pub state: String,
    pub reason: String,
    pub reason_ttl: String,
}

#[derive(Clone, Debug, PartialEq, Eq)]
pub struct Extrareasons {
    pub reason: Option<String>,
    pub count: Option<String>,
    pub proto: Option<String>,
    pub ports: Option<String>,
}

/// A port used for OS fingerprinting.
#[derive(Clone, Debug, PartialEq, Eq)]
pub struct Portused {
    pub state: String,
    pub proto: String,
    pub portid: Option<String>,
}

#[derive(Clone, Debug, PartialEq, Eq)]
pub struct Uptime {
    pub seconds: String,
    pub lastboot: String,
}

#[derive(Clone, Debug, PartialEq, Eq)]
pub struct Tcpsequence {
    pub index: String,
    pub difficulty: String,
    pub values: Option<String>,
}

#[derive(Clone, Debug, PartialEq, Eq)]
pub struct Ipidsequence {
    pub class: String,
    pub values: Option<String>,
}

#[derive(Clone, Debug, PartialEq, Eq)]
pub struct Tcptssequence {
    pub class: String,
    pub values: Option<String>,
}

#[derive(Clone, Debug, PartialEq, Eq)]
pub struct Times {
    pub srtt: String,
    pub rttvar: String,
    pub to: String,
}

#[derive(Clone, Debug, PartialEq, Eq)]
pub struct Finished {
    pub time: String,
    pub timestr: String,
    pub summary: String,
    pub elapsed: String,
    pub exit: String,
}

#[derive(Clone, Debug, PartialEq, Eq)]
pub struct Hosts {
    pub up: String,
    pub down: String,
    pub total: String,
}

/// Operating-system fingerprinting results.
#[derive(Clone, Debug, PartialEq, Eq)]
pub struct Os {
    pub portused: Option<Vec<Portused>>,
    pub osmatch: Option<Vec<Osmatch>>,
}

/// One candidate operating-system identification.
#[derive(Clone, Debug, PartialEq, Eq)]
pub struct Osmatch {
    pub name: String,
    pub accuracy: String,
    pub line: String,
    pub osclass: Option<Vec<Osclass>>,
}

#[derive(Clone, Debug, PartialEq, Eq)]
pub struct Osclass {
    /// The `type` attribute.
    pub kind: String,
    pub vendor: Option<String>,
    pub osfamily: Option<String>,
    pub osgen: Option<String>,
    pub accuracy: Option<String>,
    pub cpe: Option<Vec<String>>,
}

/// A CPE identifier, wrapped in an element of its own in the report.
#[derive(Clone, Debug, PartialEq, Eq)]
pub struct CPE {
    pub name: Option<String>,
}

} // verus!
