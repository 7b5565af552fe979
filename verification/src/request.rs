//! The routing decision for one connection, and the ways resolution fails.

use vstd::prelude::*;
use crate::addr::{IpAddr, SocketAddr};
use crate::model::{Identity, Protocol, ServiceDescription, Upstream, Workload, WorkloadInfo};

verus! {

/// How the destination was classified.
#[derive(Clone, Copy, Debug, PartialEq, Eq, Hash, Structural)]
pub enum RequestType {
    /// The next hop is a waypoint in front of the destination.
    ToServerWaypoint,
    /// The next hop is the destination workload itself.
    Direct,
    /// The directory does not know the destination.
    Passthrough,
}

/// Why a declared waypoint could not be used.
#[derive(Clone, Debug, PartialEq, Eq)]
pub enum WaypointFailure {
    /// The waypoint is given by host name.
    HostnameUnsupported,
    /// The directory has no upstream at the waypoint's address.
    NoUpstream,
    /// The directory failed while looking the waypoint up.
    Directory(String),
}

impl WaypointFailure {
    pub open spec fn spec_message(self) -> Seq<char> {
        match self {
            WaypointFailure::HostnameUnsupported => "hostname lookup not supported yet"@,
            WaypointFailure::NoUpstream => "unable to determine waypoint upstream"@,
            WaypointFailure::Directory(m) => m@,
        }
    }

    /// The failure in words.
    pub fn message(&self) -> (r: String)
        ensures
            r@ == self.spec_message(),
    {
        match self {
            WaypointFailure::HostnameUnsupported => "hostname lookup not supported yet".to_owned(),
            WaypointFailure::NoUpstream => "unable to determine waypoint upstream".to_owned(),
            WaypointFailure::Directory(m) => m.clone(),
        }
    }
}

/// Why a connection was denied before any byte was relayed.
#[derive(Clone, Debug, PartialEq, Eq)]
pub enum Error {
    /// The directory knows no workload at the source address.
    UnknownSource(IpAddr),
    /// The workload at the source address is not the one the proxy serves.
    MismatchedSource(IpAddr, WorkloadInfo),
    /// The destination had to be a known workload and is not.
    UnknownDestination(IpAddr),
    /// A waypoint is declared and cannot be reached.
    UnknownWaypoint(WaypointFailure),
    /// The connection targets the proxy itself.
    SelfCall,
}

/// The routing decision for one connection.
#[derive(Clone, Debug, PartialEq, Eq)]
pub struct Request {
    pub protocol: Protocol,
    pub source: Workload,
    /// The address that telemetry reports and the tunnel names.
    pub destination: SocketAddr,
    /// The workload the connection is meant for, where one is known.
    pub destination_workload: Option<Workload>,
    pub destination_service: Option<ServiceDescription>,
    /// The identity the next hop has to prove.
    pub expected_identity: Option<Identity>,
    /// The address to dial.
    pub gateway: SocketAddr,
    pub request_type: RequestType,
    pub upstream_sans: Vec<Identity>,
}

/// A request as contracts speak of it: the list of acceptable identities as a
/// sequence, every other field as it is.
pub struct RequestView {
    pub protocol: Protocol,
    pub source: Workload,
    pub destination: SocketAddr,
    pub destination_workload: Option<Workload>,
    pub destination_service: Option<ServiceDescription>,
    pub expected_identity: Option<Identity>,
    pub gateway: SocketAddr,
    pub request_type: RequestType,
    pub upstream_sans: Seq<Identity>,
}

impl View for Request {
    type V = RequestView;

    open spec fn view(&self) -> RequestView {
        RequestView {
            protocol: self.protocol,
            source: self.source,
            destination: self.destination,
            destination_workload: self.destination_workload,
            destination_service: self.destination_service,
            expected_identity: self.expected_identity,
            gateway: self.gateway,
            request_type: self.request_type,
            upstream_sans: self.upstream_sans@,
        }
    }
}

impl RequestView {
    /// A tunneled request names the identity of its next hop; a request to a
    /// waypoint is tunneled; a passthrough request is plain, dials the
    /// destination as given and knows no workload behind it.
    pub open spec fn wf(self) -> bool {
        &&& self.protocol == Protocol::HBONE ==> self.expected_identity is Some
        &&& self.request_type == RequestType::ToServerWaypoint ==> self.protocol
            == Protocol::HBONE
        &&& self.request_type == RequestType::Passthrough ==> {
            &&& self.protocol == Protocol::TCP
            &&& self.gateway == self.destination
            &&& self.destination_workload is None
        }
    }

    /// The request for a destination the directory does not know.
    pub open spec fn passthrough(source: Workload, target: SocketAddr) -> RequestView {
        RequestView {
            protocol: Protocol::TCP,
            source,
            destination: target,
            destination_workload: None,
            destination_service: None,
            expected_identity: None,
            gateway: target,
            request_type: RequestType::Passthrough,
            upstream_sans: Seq::empty(),
        }
    }

    /// The request that reaches `upstream` without a waypoint, at the replica
    /// `replica`: the workload's own protocol, dialled on the tunnel's port
    /// where that protocol is the tunnel and on the upstream's port otherwise.
    pub open spec fn direct(
        hbone_port: u16,
        source: Workload,
        upstream: Upstream,
        replica: IpAddr,
    ) -> RequestView {
        RequestView {
            protocol: upstream.workload.protocol,
            source,
            destination: SocketAddr { ip: replica, port: upstream.port },
            destination_workload: Some(upstream.workload),
            destination_service: upstream.destination_service,
            expected_identity: Some(upstream.workload.spec_identity()),
            gateway: SocketAddr {
                ip: replica,
                port: match upstream.workload.protocol {
                    Protocol::HBONE => hbone_port,
                    Protocol::TCP => upstream.port,
                },
            },
            request_type: RequestType::Direct,
            upstream_sans: upstream.sans@,
        }
    }

    /// The request that reaches a service through the service's waypoint: the
    /// destination stays the address the caller gave.
    pub open spec fn via_service_waypoint(
        source: Workload,
        target: SocketAddr,
        service: ServiceDescription,
        waypoint: Upstream,
        replica: IpAddr,
    ) -> RequestView {
        RequestView {
            protocol: Protocol::HBONE,
            source,
            destination: target,
            destination_workload: Some(waypoint.workload),
            destination_service: Some(service),
            expected_identity: Some(waypoint.workload.spec_identity()),
            gateway: SocketAddr { ip: replica, port: waypoint.port },
            request_type: RequestType::ToServerWaypoint,
            upstream_sans: waypoint.sans@,
        }
    }

    /// The request that reaches `upstream` through the waypoint its workload
    /// declares: destination, workload, service and acceptable identities stay
    /// those of the upstream; the waypoint gives the address to dial and the
    /// identity to expect.
    pub open spec fn via_workload_waypoint(
        source: Workload,
        target: SocketAddr,
        upstream: Upstream,
        waypoint: Upstream,
        replica: IpAddr,
    ) -> RequestView {
        RequestView {
            protocol: Protocol::HBONE,
            source,
            destination: target,
            destination_workload: Some(upstream.workload),
            destination_service: upstream.destination_service,
            expected_identity: Some(waypoint.workload.spec_identity()),
            gateway: SocketAddr { ip: replica, port: waypoint.port },
            request_type: RequestType::ToServerWaypoint,
            upstream_sans: upstream.sans@,
        }
    }
}

impl Request {
    pub open spec fn wf(self) -> bool {
        self@.wf()
    }

    /// The request for a destination the directory does not know.
    pub fn passthrough(source: Workload, target: SocketAddr) -> (r: Request)
        ensures
            r@ == RequestView::passthrough(source, target),
    {
        Request {
            protocol: Protocol::TCP,
            source,
            destination: target,
            destination_workload: None,
            destination_service: None,
            expected_identity: None,
            gateway: target,
            request_type: RequestType::Passthrough,
            upstream_sans: Vec::new(),
        }
    }

    /// The request that reaches `upstream` at `replica` without a waypoint.
    pub fn direct(hbone_port: u16, source: Workload, upstream: Upstream, replica: IpAddr) -> (r:
        Request)
        ensures
            r@ == RequestView::direct(hbone_port, source, upstream, replica),
    {
        let port = match upstream.workload.protocol {
            Protocol::HBONE => hbone_port,
            Protocol::TCP => upstream.port,
        };
        let identity = upstream.workload.identity();
        Request {
            protocol: upstream.workload.protocol,
            source,
            destination: SocketAddr::new(replica, upstream.port),
            destination_workload: Some(upstream.workload),
            destination_service: upstream.destination_service,
            expected_identity: Some(identity),
            gateway: SocketAddr::new(replica, port),
            request_type: RequestType::Direct,
            upstream_sans: upstream.sans,
        }
    }

    /// The request that reaches a service through the service's waypoint.
    pub fn via_service_waypoint(
        source: Workload,
        target: SocketAddr,
        service: ServiceDescription,
        waypoint: Upstream,
        replica: IpAddr,
    ) -> (r: Request)
        ensures
            r@ == RequestView::via_service_waypoint(source, target, service, waypoint, replica),
    {
        let identity = waypoint.workload.identity();
        Request {
            protocol: Protocol::HBONE,
            source,
            destination: target,
            destination_workload: Some(waypoint.workload),
            destination_service: Some(service),
            expected_identity: Some(identity),
            gateway: SocketAddr::new(replica, waypoint.port),
            request_type: RequestType::ToServerWaypoint,
            upstream_sans: waypoint.sans,
        }
    }

    /// The request that reaches `upstream` through its workload's waypoint.
    pub fn via_workload_waypoint(
        source: Workload,
        target: SocketAddr,
        upstream: Upstream,
        waypoint: Upstream,
        replica: IpAddr,
    ) -> (r: Request)
        ensures
            r@ == RequestView::via_workload_waypoint(source, target, upstream, waypoint, replica),
    {
        let identity = waypoint.workload.identity();
        Request {
            protocol: Protocol::HBONE,
            source,
            destination: target,
            destination_workload: Some(upstream.workload),
            destination_service: upstream.destination_service,
            expected_identity: Some(identity),
            gateway: SocketAddr::new(replica, waypoint.port),
            request_type: RequestType::ToServerWaypoint,
            upstream_sans: upstream.sans,
        }
    }
}

} // verus!
