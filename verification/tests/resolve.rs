use outbound::addr::{IpAddr, NetworkAddress, SocketAddr};
use outbound::model::{
    Address, Destination, GatewayAddress, Identity, NamespacedHostname, PortMapping, Protocol,
    Service, ServiceDescription, Upstream, Workload, WorkloadInfo, WorkloadType,
};
use outbound::request::{Error, Request, RequestType, WaypointFailure};
use outbound::resolve::{advance, start, Answer, Query, Resolution, Settings, Stage, Step};

fn ip(text: &str) -> IpAddr {
    let parts: Vec<u8> = text.split('.').map(|p| p.parse().unwrap()).collect();
    assert_eq!(parts.len(), 4);
    IpAddr::V4(parts[0], parts[1], parts[2], parts[3])
}

fn sock(text: &str) -> SocketAddr {
    let (host, port) = text.rsplit_once(':').unwrap();
    SocketAddr::new(ip(host), port.parse().unwrap())
}

fn show(addr: SocketAddr) -> String {
    match addr.ip {
        IpAddr::V4(a, b, c, d) => format!("{}.{}.{}.{}:{}", a, b, c, d, addr.port),
        IpAddr::V6(..) => panic!("these tests use IPv4 only"),
    }
}

fn workload(uid: &str, name: &str, namespace: &str, address: [u8; 4], node: &str) -> Workload {
    Workload {
        uid: uid.to_string(),
        name: name.to_string(),
        namespace: namespace.to_string(),
        trust_domain: "cluster.local".to_string(),
        service_account: "default".to_string(),
        network: "".to_string(),
        node: node.to_string(),
        workload_name: name.to_string(),
        workload_type: WorkloadType::Deployment,
        canonical_name: name.to_string(),
        canonical_revision: "latest".to_string(),
        addresses: vec![IpAddr::V4(address[0], address[1], address[2], address[3])],
        protocol: Protocol::TCP,
        waypoint: None,
    }
}

fn waypoint_at(address: [u8; 4]) -> GatewayAddress {
    GatewayAddress {
        destination: Destination::Address(NetworkAddress {
            network: "".to_string(),
            address: IpAddr::V4(address[0], address[1], address[2], address[3]),
        }),
        hbone_mtls_port: 15008,
        hbone_single_tls_port: Some(15003),
    }
}

/// A small directory held in memory, which answers as a directory of
/// workloads and services would.
struct Book {
    workloads: Vec<Workload>,
    services: Vec<Service>,
}

impl Book {
    fn workload_at(&self, address: IpAddr) -> Option<Workload> {
        self.workloads.iter().find(|w| w.addresses.contains(&address)).cloned()
    }

    fn service_at(&self, address: IpAddr) -> Option<Service> {
        self.services.iter().find(|s| s.addresses.iter().any(|a| a.address == address)).cloned()
    }

    fn upstream_at(&self, target: SocketAddr) -> Option<Upstream> {
        self.workload_at(target.ip).map(|w| Upstream {
            workload: w,
            port: target.port,
            sans: vec![],
            destination_service: None,
        })
    }

    fn answer(&self, settings: &Settings, state: &Resolution) -> Answer {
        match state.query(settings) {
            Query::Workload(a) => Answer::Workload(self.workload_at(a.address)),
            Query::Destination(Destination::Address(a)) => {
                let found = match self.service_at(a.address) {
                    Some(s) => Some(Address::Service(s)),
                    None => self.workload_at(a.address).map(Address::Workload),
                };
                Answer::Destination(found)
            }
            Query::Destination(Destination::Hostname(_)) => Answer::Destination(None),
            Query::Upstream { target, .. } => {
                assert!(state.source().is_some());
                Answer::Upstream(self.upstream_at(target))
            }
            Query::Replica => {
                let subject = state.subject().unwrap();
                Answer::Replica(Ok(subject.addresses[0]))
            }
            Query::FromWaypoint { source_address } => {
                let subject = state.subject().unwrap();
                let from = match &subject.waypoint {
                    Some(GatewayAddress { destination: Destination::Address(a), .. }) => {
                        a.address == source_address
                    }
                    _ => false,
                };
                Answer::FromWaypoint(from)
            }
            Query::Waypoint { .. } => {
                let subject = state.subject().unwrap();
                let found = match &subject.waypoint {
                    None => Ok(None),
                    Some(GatewayAddress { destination: Destination::Address(a), hbone_mtls_port, .. }) => {
                        match self.upstream_at(SocketAddr::new(a.address, *hbone_mtls_port)) {
                            Some(us) => Ok(Some(us)),
                            None => Err("waypoint not found".to_string()),
                        }
                    }
                    Some(_) => Err("hostname lookup not supported yet".to_string()),
                };
                Answer::Waypoint(found)
            }
        }
    }
}

fn settings() -> Settings {
    Settings { network: "".to_string(), hbone_port: 15008, proxy_workload_info: None }
}

fn resolve_in(book: &Book, settings: &Settings, from: IpAddr, to: SocketAddr) -> Result<Request, Error> {
    let mut state = start(from, to);
    let mut answers = 0;
    loop {
        let answer = book.answer(settings, &state);
        answers += 1;
        assert!(answers <= 7, "a resolution takes seven answers at most");
        match advance(settings, state, answer) {
            Step::Ask(next) => state = next,
            Step::Done(r) => return r,
        }
    }
}

enum Entry {
    Workload(Workload),
    Service(Service),
}

#[derive(PartialEq, Debug)]
struct ExpectedRequest<'a> {
    protocol: Protocol,
    destination: &'a str,
    gateway: &'a str,
    request_type: RequestType,
}

fn run_build_request(from: &str, to: &str, entry: Entry, expect: Option<ExpectedRequest<'_>>) {
    let source = workload("cluster1//v1/Pod/ns/source-workload", "source-workload", "ns", [127, 0, 0, 1], "local-node");
    let mut waypoint = workload("cluster1//v1/Pod/ns/waypoint-workload", "waypoint-workload", "ns", [127, 0, 0, 10], "local-node");
    waypoint.service_account = "waypoint-sa".to_string();
    let book = match entry {
        Entry::Workload(wl) => Book { workloads: vec![source, waypoint, wl], services: vec![] },
        Entry::Service(svc) => Book { workloads: vec![source, waypoint], services: vec![svc] },
    };
    let req = resolve_in(&book, &settings(), ip(from), sock(to)).ok();
    if let Some(r) = req {
        let destination = show(r.destination);
        let gateway = show(r.gateway);
        assert_eq!(
            expect,
            Some(ExpectedRequest {
                protocol: r.protocol,
                destination: &destination,
                gateway: &gateway,
                request_type: r.request_type,
            })
        );
    } else {
        assert_eq!(expect, None);
    }
}

fn my_pod() -> Workload {
    workload("cluster1//v1/Pod/default/my-pod", "", "", [127, 0, 0, 2], "")
}

fn test_tcp(node: &str, protocol: Protocol) -> Workload {
    let mut w = workload("cluster1//v1/Pod/ns/test-tcp", "test-tcp", "ns", [127, 0, 0, 2], node);
    w.protocol = protocol;
    w
}

#[test]
fn build_request_unknown_dest() {
    run_build_request(
        "127.0.0.1",
        "1.2.3.4:80",
        Entry::Workload(my_pod()),
        Some(ExpectedRequest {
            protocol: Protocol::TCP,
            destination: "1.2.3.4:80",
            gateway: "1.2.3.4:80",
            request_type: RequestType::Passthrough,
        }),
    );
}

#[test]
fn build_request_known_dest_remote_node_tcp() {
    run_build_request(
        "127.0.0.1",
        "127.0.0.2:80",
        Entry::Workload(test_tcp("remote-node", Protocol::TCP)),
        Some(ExpectedRequest {
            protocol: Protocol::TCP,
            destination: "127.0.0.2:80",
            gateway: "127.0.0.2:80",
            request_type: RequestType::Direct,
        }),
    );
}

#[test]
fn build_request_known_dest_remote_node_hbone() {
    run_build_request(
        "127.0.0.1",
        "127.0.0.2:80",
        Entry::Workload(test_tcp("remote-node", Protocol::HBONE)),
        Some(ExpectedRequest {
            protocol: Protocol::HBONE,
            destination: "127.0.0.2:80",
            gateway: "127.0.0.2:15008",
            request_type: RequestType::Direct,
        }),
    );
}

#[test]
fn build_request_known_dest_local_node_tcp() {
    run_build_request(
        "127.0.0.1",
        "127.0.0.2:80",
        Entry::Workload(test_tcp("local-node", Protocol::TCP)),
        Some(ExpectedRequest {
            protocol: Protocol::TCP,
            destination: "127.0.0.2:80",
            gateway: "127.0.0.2:80",
            request_type: RequestType::Direct,
        }),
    );
}

#[test]
fn build_request_known_dest_local_node_hbone() {
    run_build_request(
        "127.0.0.1",
        "127.0.0.2:80",
        Entry::Workload(test_tcp("local-node", Protocol::HBONE)),
        Some(ExpectedRequest {
            protocol: Protocol::HBONE,
            destination: "127.0.0.2:80",
            gateway: "127.0.0.2:15008",
            request_type: RequestType::Direct,
        }),
    );
}

#[test]
fn build_request_unknown_source() {
    run_build_request("1.2.3.4", "127.0.0.2:80", Entry::Workload(my_pod()), None);
}

#[test]
fn build_request_source_waypoint() {
    let mut pod = my_pod();
    pod.waypoint = Some(waypoint_at([127, 0, 0, 10]));
    run_build_request(
        "127.0.0.2",
        "127.0.0.1:80",
        Entry::Workload(pod),
        // Even though source has a waypoint, we don't use it
        Some(ExpectedRequest {
            protocol: Protocol::TCP,
            destination: "127.0.0.1:80",
            gateway: "127.0.0.1:80",
            request_type: RequestType::Direct,
        }),
    );
}

#[test]
fn build_request_destination_waypoint() {
    let mut pod = my_pod();
    pod.waypoint = Some(waypoint_at([127, 0, 0, 10]));
    run_build_request(
        "127.0.0.1",
        "127.0.0.2:80",
        Entry::Workload(pod),
        // Should use the waypoint
        Some(ExpectedRequest {
            protocol: Protocol::HBONE,
            destination: "127.0.0.2:80",
            gateway: "127.0.0.10:15008",
            request_type: RequestType::ToServerWaypoint,
        }),
    );
}

fn service_at(address: [u8; 4], waypoint: Option<GatewayAddress>) -> Service {
    Service {
        name: "svc".to_string(),
        namespace: "ns".to_string(),
        hostname: "svc.ns.svc.cluster.local".to_string(),
        addresses: vec![NetworkAddress {
            network: "".to_string(),
            address: IpAddr::V4(address[0], address[1], address[2], address[3]),
        }],
        ports: vec![PortMapping { service_port: 80, target_port: 8080 }],
        waypoint,
    }
}

#[test]
fn build_request_destination_svc_waypoint() {
    run_build_request(
        "127.0.0.1",
        "127.0.0.3:80",
        Entry::Service(service_at([127, 0, 0, 3], Some(waypoint_at([127, 0, 0, 10])))),
        // Should use the waypoint
        Some(ExpectedRequest {
            protocol: Protocol::HBONE,
            destination: "127.0.0.3:80",
            gateway: "127.0.0.10:15008",
            request_type: RequestType::ToServerWaypoint,
        }),
    );
}

fn source() -> Workload {
    workload("cluster1//v1/Pod/ns/source-workload", "source-workload", "ns", [127, 0, 0, 1], "local-node")
}

fn upstream_of(w: Workload, port: u16) -> Upstream {
    Upstream { workload: w, port, sans: vec![], destination_service: None }
}

fn asked(step: Step) -> Resolution {
    match step {
        Step::Ask(state) => state,
        Step::Done(r) => panic!("the resolution ended early: {:?}", r),
    }
}

fn done(step: Step) -> Result<Request, Error> {
    match step {
        Step::Done(r) => r,
        Step::Ask(state) => panic!("the resolution goes on: {:?}", state),
    }
}

#[test]
fn unknown_source_is_refused_at_the_first_answer() {
    let s = settings();
    let state = start(ip("1.2.3.4"), sock("127.0.0.2:80"));
    assert_eq!(
        state.query(&s),
        Query::Workload(NetworkAddress { network: "".to_string(), address: ip("1.2.3.4") })
    );
    let r = done(advance(&s, state, Answer::Workload(None)));
    assert_eq!(r, Err(Error::UnknownSource(ip("1.2.3.4"))));
}

#[test]
fn mismatched_source_is_refused() {
    let info = WorkloadInfo {
        name: "other".to_string(),
        namespace: "ns".to_string(),
        service_account: "default".to_string(),
    };
    let s = Settings { proxy_workload_info: Some(info.clone()), ..settings() };
    let state = start(ip("127.0.0.1"), sock("127.0.0.2:80"));
    let r = done(advance(&s, state, Answer::Workload(Some(source()))));
    assert_eq!(r, Err(Error::MismatchedSource(ip("127.0.0.1"), info)));
}

#[test]
fn matching_source_goes_on_to_the_service_probe() {
    let info = WorkloadInfo {
        name: "source-workload".to_string(),
        namespace: "ns".to_string(),
        service_account: "default".to_string(),
    };
    let s = Settings { network: "net".to_string(), proxy_workload_info: Some(info), ..settings() };
    let state = start(ip("127.0.0.1"), sock("127.0.0.2:80"));
    let state = asked(advance(&s, state, Answer::Workload(Some(source()))));
    assert_eq!(state.stage, Stage::ServiceProbe { source: source() });
    assert_eq!(
        state.query(&s),
        Query::Destination(Destination::Address(NetworkAddress {
            network: "net".to_string(),
            address: ip("127.0.0.2"),
        }))
    );
    assert_eq!(state.source(), Some(&source()));
    assert_eq!(state.subject(), None);
}

#[test]
fn hostname_waypoint_is_refused() {
    let s = settings();
    let gateway = GatewayAddress {
        destination: Destination::Hostname(NamespacedHostname {
            namespace: "ns".to_string(),
            hostname: "waypoint.ns.svc.cluster.local".to_string(),
        }),
        hbone_mtls_port: 15008,
        hbone_single_tls_port: None,
    };
    let state = Resolution {
        downstream: ip("127.0.0.1"),
        target: sock("127.0.0.3:80"),
        stage: Stage::ServiceProbe { source: source() },
    };
    let answer = Answer::Destination(Some(Address::Service(service_at([127, 0, 0, 3], Some(gateway)))));
    let r = done(advance(&s, state, answer));
    assert_eq!(r, Err(Error::UnknownWaypoint(WaypointFailure::HostnameUnsupported)));
    assert_eq!(WaypointFailure::HostnameUnsupported.message(), "hostname lookup not supported yet");
    assert_eq!(WaypointFailure::NoUpstream.message(), "unable to determine waypoint upstream");
    assert_eq!(WaypointFailure::Directory("gone".to_string()).message(), "gone");
}

#[test]
fn service_waypoint_without_upstream_is_refused() {
    let s = Settings { network: "net".to_string(), ..settings() };
    let state = Resolution {
        downstream: ip("127.0.0.1"),
        target: sock("127.0.0.3:80"),
        stage: Stage::ServiceProbe { source: source() },
    };
    let answer = Answer::Destination(Some(Address::Service(service_at(
        [127, 0, 0, 3],
        Some(waypoint_at([127, 0, 0, 10])),
    ))));
    let state = asked(advance(&s, state, answer));
    assert_eq!(
        state.query(&s),
        Query::Upstream { network: "net".to_string(), target: sock("127.0.0.10:15008") }
    );
    let r = done(advance(&s, state, Answer::Upstream(None)));
    assert_eq!(r, Err(Error::UnknownWaypoint(WaypointFailure::NoUpstream)));
}

#[test]
fn service_waypoint_request_keeps_the_service_address() {
    let s = settings();
    let mut wp = workload("wp", "waypoint-workload", "ns", [127, 0, 0, 10], "local-node");
    wp.service_account = "waypoint-sa".to_string();
    let sans = vec![Identity {
        trust_domain: "cluster.local".to_string(),
        namespace: "ns".to_string(),
        service_account: "other".to_string(),
    }];
    let state = Resolution {
        downstream: ip("127.0.0.1"),
        target: sock("127.0.0.3:80"),
        stage: Stage::ServiceProbe { source: source() },
    };
    let answer = Answer::Destination(Some(Address::Service(service_at(
        [127, 0, 0, 3],
        Some(waypoint_at([127, 0, 0, 10])),
    ))));
    let state = asked(advance(&s, state, answer));
    let us = Upstream { workload: wp.clone(), port: 15008, sans: sans.clone(), destination_service: None };
    let state = asked(advance(&s, state, Answer::Upstream(Some(us))));
    assert_eq!(state.query(&s), Query::Replica);
    assert_eq!(state.subject(), Some(&wp));
    let r = done(advance(&s, state, Answer::Replica(Ok(ip("127.0.0.11"))))).unwrap();
    assert_eq!(
        r,
        Request {
            protocol: Protocol::HBONE,
            source: source(),
            destination: sock("127.0.0.3:80"),
            destination_workload: Some(wp.clone()),
            destination_service: Some(ServiceDescription {
                hostname: "svc.ns.svc.cluster.local".to_string(),
                name: "svc".to_string(),
                namespace: "ns".to_string(),
            }),
            expected_identity: Some(Identity {
                trust_domain: "cluster.local".to_string(),
                namespace: "ns".to_string(),
                service_account: "waypoint-sa".to_string(),
            }),
            gateway: sock("127.0.0.11:15008"),
            request_type: RequestType::ToServerWaypoint,
            upstream_sans: sans,
        }
    );
}

#[test]
fn replica_error_is_handed_on() {
    let s = settings();
    let state = Resolution {
        downstream: ip("127.0.0.1"),
        target: sock("127.0.0.2:80"),
        stage: Stage::Replica { source: source(), svc_addressed: false, upstream: upstream_of(my_pod(), 80) },
    };
    let r = done(advance(&s, state, Answer::Replica(Err(Error::UnknownDestination(ip("127.0.0.2"))))));
    assert_eq!(r, Err(Error::UnknownDestination(ip("127.0.0.2"))));
}

#[test]
fn connection_from_waypoint_is_not_sent_through_it_again() {
    let s = settings();
    let mut pod = test_tcp("remote-node", Protocol::HBONE);
    pod.waypoint = Some(waypoint_at([127, 0, 0, 10]));
    let state = Resolution {
        downstream: ip("127.0.0.10"),
        target: sock("127.0.0.2:80"),
        stage: Stage::FromWaypoint {
            source: source(),
            svc_addressed: false,
            upstream: upstream_of(pod.clone(), 8080),
            replica: ip("127.0.0.2"),
        },
    };
    assert_eq!(state.query(&s), Query::FromWaypoint { source_address: ip("127.0.0.10") });
    let r = done(advance(&s, state, Answer::FromWaypoint(true))).unwrap();
    assert_eq!(r.request_type, RequestType::Direct);
    assert_eq!(r.gateway, sock("127.0.0.2:15008"));
    assert_eq!(r.destination, sock("127.0.0.2:8080"));
    assert_eq!(r.destination_workload, Some(pod.clone()));
    assert_eq!(r.expected_identity, Some(pod.identity()));
}

#[test]
fn service_without_waypoint_skips_the_workload_waypoint() {
    let mut pod = my_pod();
    pod.waypoint = Some(waypoint_at([127, 0, 0, 10]));
    let source = source();
    let mut wp = workload("wp", "waypoint-workload", "ns", [127, 0, 0, 10], "local-node");
    wp.service_account = "waypoint-sa".to_string();
    // The service shares the pod's address: the probe finds the service first.
    let book = Book {
        workloads: vec![source, wp, pod],
        services: vec![service_at([127, 0, 0, 2], None)],
    };
    let r = resolve_in(&book, &settings(), ip("127.0.0.1"), sock("127.0.0.2:80")).unwrap();
    assert_eq!(r.request_type, RequestType::Direct);
    assert_eq!(r.protocol, Protocol::TCP);
    assert_eq!(r.gateway, sock("127.0.0.2:80"));
}

#[test]
fn workload_waypoint_lookup_failure_is_refused() {
    let s = settings();
    let state = Resolution {
        downstream: ip("127.0.0.1"),
        target: sock("127.0.0.2:80"),
        stage: Stage::WorkloadWaypoint {
            source: source(),
            upstream: upstream_of(my_pod(), 80),
            replica: ip("127.0.0.2"),
        },
    };
    assert_eq!(state.query(&s), Query::Waypoint { replica: ip("127.0.0.2") });
    let r = done(advance(&s, state, Answer::Waypoint(Err("waypoint not found".to_string()))));
    assert_eq!(
        r,
        Err(Error::UnknownWaypoint(WaypointFailure::Directory("waypoint not found".to_string())))
    );
}

#[test]
fn workload_waypoint_request_keeps_the_intended_workload() {
    let s = settings();
    let pod = my_pod();
    let mut wp = workload("wp", "waypoint-workload", "ns", [127, 0, 0, 10], "local-node");
    wp.service_account = "waypoint-sa".to_string();
    let description = ServiceDescription {
        hostname: "pod.example".to_string(),
        name: "pod".to_string(),
        namespace: "default".to_string(),
    };
    let us = Upstream {
        workload: pod.clone(),
        port: 80,
        sans: vec![pod.identity()],
        destination_service: Some(description.clone()),
    };
    let state = Resolution {
        downstream: ip("127.0.0.1"),
        target: sock("127.0.0.2:80"),
        stage: Stage::WorkloadWaypoint { source: source(), upstream: us, replica: ip("127.0.0.2") },
    };
    let state = asked(advance(&s, state, Answer::Waypoint(Ok(Some(upstream_of(wp.clone(), 15008))))));
    assert_eq!(state.subject(), Some(&wp));
    let r = done(advance(&s, state, Answer::Replica(Ok(ip("127.0.0.10"))))).unwrap();
    assert_eq!(r.protocol, Protocol::HBONE);
    assert_eq!(r.destination, sock("127.0.0.2:80"));
    assert_eq!(r.gateway, sock("127.0.0.10:15008"));
    assert_eq!(r.destination_workload, Some(pod.clone()));
    assert_eq!(r.destination_service, Some(description));
    assert_eq!(r.expected_identity, Some(wp.identity()));
    assert_eq!(r.upstream_sans, vec![pod.identity()]);
    assert_eq!(r.request_type, RequestType::ToServerWaypoint);
}

#[test]
fn answer_of_the_wrong_kind_asks_again() {
    let s = settings();
    let state = start(ip("127.0.0.1"), sock("127.0.0.2:80"));
    let again = asked(advance(&s, state.clone(), Answer::FromWaypoint(true)));
    assert_eq!(again, state);
}

#[test]
fn resolving_twice_gives_the_same_request() {
    let mut pod = my_pod();
    pod.waypoint = Some(waypoint_at([127, 0, 0, 10]));
    let wp = workload("wp", "waypoint-workload", "ns", [127, 0, 0, 10], "local-node");
    let book = Book { workloads: vec![source(), wp, pod], services: vec![] };
    let first = resolve_in(&book, &settings(), ip("127.0.0.1"), sock("127.0.0.2:80"));
    let second = resolve_in(&book, &settings(), ip("127.0.0.1"), sock("127.0.0.2:80"));
    assert!(first.is_ok());
    assert_eq!(first, second);
}

#[test]
fn passthrough_request_is_exactly_as_given() {
    let s = settings();
    let state = Resolution {
        downstream: ip("127.0.0.1"),
        target: sock("1.2.3.4:80"),
        stage: Stage::Upstream { source: source(), svc_addressed: false },
    };
    assert_eq!(state.query(&s), Query::Upstream { network: "".to_string(), target: sock("1.2.3.4:80") });
    let r = done(advance(&s, state, Answer::Upstream(None))).unwrap();
    assert_eq!(r, Request::passthrough(source(), sock("1.2.3.4:80")));
    assert_eq!(r.protocol, Protocol::TCP);
    assert_eq!(r.gateway, sock("1.2.3.4:80"));
    assert_eq!(r.destination_workload, None);
    assert_eq!(r.expected_identity, None);
    assert!(r.upstream_sans.is_empty());
}
