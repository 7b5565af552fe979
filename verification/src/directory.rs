//! A directory snapshot as a mathematical object, the routing decision as a
//! function of it, and the proof that the resolution engine, asked and
//! answered step by step against a snapshot, computes that function.

use vstd::prelude::*;
use crate::addr::{IpAddr, NetworkAddress, SocketAddr};
use crate::model::{Address, Destination, GatewayAddress, Identity, Protocol, Service, Upstream, Workload};
use crate::request::{Error, RequestType, RequestView, WaypointFailure};
use crate::resolve::{source_admitted, spec_advance, Answer, Query, Resolution, Settings, Stage, StepView};

verus! {

/// One unchanging state of the directory: what it answers to each query.
pub struct Directory {
    /// The workload that owns an address.
    pub workloads: spec_fn(NetworkAddress) -> Option<Workload>,
    /// What is found at a destination.
    pub destinations: spec_fn(Destination) -> Option<Address>,
    /// The upstream for a socket address, by network and source workload.
    pub upstreams: spec_fn(String, Workload, SocketAddr) -> Option<Upstream>,
    /// The replica of a workload (first) that a source (second) should dial.
    pub replicas: spec_fn(Workload, Workload) -> Result<IpAddr, Error>,
    /// Whether a connection to a workload, from an identity at an address,
    /// comes from that workload's waypoint.
    pub from_waypoint: spec_fn(Workload, Identity, IpAddr) -> bool,
    /// The waypoint before a workload (first), for a source (second) that
    /// dials the given replica.
    pub waypoints: spec_fn(Workload, Workload, IpAddr) -> Result<Option<Upstream>, String>,
}

impl Directory {
    /// The snapshot's answer to `query`, put by a resolution whose source
    /// workload is `source` and whose subject is `subject`.
    pub open spec fn answer_to(
        self,
        query: Query,
        source: Option<Workload>,
        subject: Option<Workload>,
    ) -> Answer {
        match query {
            Query::Workload(a) => Answer::Workload((self.workloads)(a)),
            Query::Destination(d) => Answer::Destination((self.destinations)(d)),
            Query::Upstream { network, target } => Answer::Upstream(
                (self.upstreams)(network, source->Some_0, target),
            ),
            Query::Replica => Answer::Replica((self.replicas)(subject->Some_0, source->Some_0)),
            Query::FromWaypoint { source_address } => Answer::FromWaypoint(
                (self.from_waypoint)(
                    subject->Some_0,
                    source->Some_0.spec_identity(),
                    source_address,
                ),
            ),
            Query::Waypoint { replica } => Answer::Waypoint(
                (self.waypoints)(subject->Some_0, source->Some_0, replica),
            ),
        }
    }

    /// The snapshot's answer to the query that `state` waits on.
    pub open spec fn answer(self, settings: Settings, state: Resolution) -> Answer {
        self.answer_to(
            state.spec_query(settings),
            state.stage.spec_source(),
            state.stage.spec_subject(),
        )
    }

    /// The outcome of the engine when every query is answered from this
    /// snapshot, within `fuel` answers; `None` where that many do not suffice.
    pub open spec fn run(self, settings: Settings, state: Resolution, fuel: nat) -> Option<
        Result<RequestView, Error>,
    >
        decreases fuel,
    {
        if fuel == 0 {
            None
        } else {
            match spec_advance(settings, state, self.answer(settings, state)) {
                StepView::Done(r) => Some(r),
                StepView::Ask(next) => self.run(settings, next, (fuel - 1) as nat),
            }
        }
    }

    /// The request through the waypoint `gateway` of a service: the waypoint
    /// has to be given by address, the directory has to know an upstream at
    /// that address and the waypoint's tunnel port, and a replica of it.
    pub open spec fn through_service_waypoint(
        self,
        settings: Settings,
        target: SocketAddr,
        source: Workload,
        service: Service,
        gateway: GatewayAddress,
    ) -> Result<RequestView, Error> {
        match gateway.destination {
            Destination::Hostname(_) => Err(
                Error::UnknownWaypoint(WaypointFailure::HostnameUnsupported),
            ),
            Destination::Address(a) => {
                let at = SocketAddr { ip: a.address, port: gateway.hbone_mtls_port };
                match (self.upstreams)(settings.network, source, at) {
                    None => Err(Error::UnknownWaypoint(WaypointFailure::NoUpstream)),
                    Some(waypoint) => match (self.replicas)(waypoint.workload, source) {
                        Err(e) => Err(e),
                        Ok(ip) => Ok(
                            RequestView::via_service_waypoint(
                                source,
                                target,
                                service.spec_description(),
                                waypoint,
                                ip,
                            ),
                        ),
                    },
                }
            },
        }
    }

    /// Whether a waypoint of the upstream's workload has to be looked for:
    /// not for a connection that comes from that waypoint, and not for a
    /// destination that was addressed as a service.
    pub open spec fn seeks_workload_waypoint(
        self,
        downstream: IpAddr,
        source: Workload,
        upstream: Upstream,
        svc_addressed: bool,
    ) -> bool {
        !svc_addressed && !(self.from_waypoint)(
            upstream.workload,
            source.spec_identity(),
            downstream,
        )
    }

    /// The request to the upstream of `target`, where the service probe did
    /// not end the resolution.
    pub open spec fn to_workload(
        self,
        settings: Settings,
        downstream: IpAddr,
        target: SocketAddr,
        source: Workload,
        svc_addressed: bool,
    ) -> Result<RequestView, Error> {
        match (self.upstreams)(source.network, source, target) {
            None => Ok(RequestView::passthrough(source, target)),
            Some(upstream) => match (self.replicas)(upstream.workload, source) {
                Err(e) => Err(e),
                Ok(replica) => {
                    let direct = RequestView::direct(settings.hbone_port, source, upstream, replica);
                    if self.seeks_workload_waypoint(downstream, source, upstream, svc_addressed) {
                        match (self.waypoints)(upstream.workload, source, replica) {
                            Err(m) => Err(Error::UnknownWaypoint(WaypointFailure::Directory(m))),
                            Ok(None) => Ok(direct),
                            Ok(Some(waypoint)) => match (self.replicas)(waypoint.workload, source) {
                                Err(e) => Err(e),
                                Ok(ip) => Ok(
                                    RequestView::via_workload_waypoint(
                                        source,
                                        target,
                                        upstream,
                                        waypoint,
                                        ip,
                                    ),
                                ),
                            },
                        }
                    } else {
                        Ok(direct)
                    }
                },
            },
        }
    }

    /// What the probe of the destination's address as a service's finds.
    pub open spec fn probe(self, settings: Settings, target: SocketAddr) -> Option<Address> {
        (self.destinations)(
            Destination::Address(NetworkAddress { network: settings.network, address: target.ip }),
        )
    }

    /// The waypoint of the service at the destination's address, where a
    /// service is found there and declares one.
    pub open spec fn service_waypoint(self, settings: Settings, target: SocketAddr) -> Option<
        GatewayAddress,
    > {
        match self.probe(settings, target) {
            Some(Address::Service(service)) => service.waypoint,
            _ => None,
        }
    }

    /// The workload at the source address.
    pub open spec fn source_of(self, settings: Settings, downstream: IpAddr) -> Option<Workload> {
        (self.workloads)(NetworkAddress { network: settings.network, address: downstream })
    }

    /// The routing decision for a connection from `downstream` to `target`.
    pub open spec fn resolve(self, settings: Settings, downstream: IpAddr, target: SocketAddr) -> Result<
        RequestView,
        Error,
    > {
        match self.source_of(settings, downstream) {
            None => Err(Error::UnknownSource(downstream)),
            Some(source) => if !source_admitted(settings, source) {
                Err(Error::MismatchedSource(downstream, settings.proxy_workload_info->Some_0))
            } else {
                match self.probe(settings, target) {
                    Some(Address::Service(service)) => match service.waypoint {
                        Some(gateway) => self.through_service_waypoint(
                            settings,
                            target,
                            source,
                            service,
                            gateway,
                        ),
                        None => self.to_workload(settings, downstream, target, source, true),
                    },
                    _ => self.to_workload(settings, downstream, target, source, false),
                }
            },
        }
    }
}

/// The most answers a resolution takes.
pub open spec fn max_answers() -> nat {
    7
}

/// From the stage that waits for the destination's upstream, the engine
/// reaches what `to_workload` says, within five answers.
proof fn lemma_run_to_workload(
    dir: Directory,
    settings: Settings,
    downstream: IpAddr,
    target: SocketAddr,
    source: Workload,
    svc_addressed: bool,
    fuel: nat,
)
    requires
        fuel >= 5,
    ensures
        dir.run(
            settings,
            Resolution { downstream, target, stage: Stage::Upstream { source, svc_addressed } },
            fuel,
        ) == Some(dir.to_workload(settings, downstream, target, source, svc_addressed)),
{
    reveal_with_fuel(Directory::run, 6);
}

/// From the stage that waits for the upstream at a service's waypoint, the
/// engine reaches what `through_service_waypoint` says, within two answers.
proof fn lemma_run_service_waypoint(
    dir: Directory,
    settings: Settings,
    downstream: IpAddr,
    target: SocketAddr,
    source: Workload,
    service: Service,
    gateway: GatewayAddress,
    fuel: nat,
)
    requires
        fuel >= 2,
        gateway.destination is Address,
    ensures
        dir.run(
            settings,
            Resolution {
                downstream,
                target,
                stage: Stage::WaypointUpstream {
                    source,
                    service: service.spec_description(),
                    at: SocketAddr {
                        ip: gateway.destination->Address_0.address,
                        port: gateway.hbone_mtls_port,
                    },
                },
            },
            fuel,
        ) == Some(dir.through_service_waypoint(settings, target, source, service, gateway)),
{
    reveal_with_fuel(Directory::run, 3);
}

/// The engine computes the routing decision: asked and answered against one
/// snapshot, it ends within `max_answers()` answers, with `resolve` of that
/// snapshot.
pub proof fn lemma_engine_computes_decision(
    dir: Directory,
    settings: Settings,
    downstream: IpAddr,
    target: SocketAddr,
    fuel: nat,
)
    requires
        fuel >= max_answers(),
    ensures
        dir.run(settings, Resolution { downstream, target, stage: Stage::Source }, fuel) == Some(
            dir.resolve(settings, downstream, target),
        ),
{
    reveal_with_fuel(Directory::run, 3);
    let first = Resolution { downstream, target, stage: Stage::Source };
    match dir.source_of(settings, downstream) {
        None => {},
        Some(source) => {
            if source_admitted(settings, source) {
                let second = Resolution { downstream, target, stage: Stage::ServiceProbe { source } };
                assert(spec_advance(settings, first, dir.answer(settings, first)) == StepView::Ask(
                    second,
                ));
                let rest = (fuel - 2) as nat;
                match dir.probe(settings, target) {
                    Some(Address::Service(service)) => match service.waypoint {
                        Some(gateway) => match gateway.destination {
                            Destination::Hostname(_) => {},
                            Destination::Address(_) => {
                                lemma_run_service_waypoint(
                                    dir,
                                    settings,
                                    downstream,
                                    target,
                                    source,
                                    service,
                                    gateway,
                                    rest,
                                );
                            },
                        },
                        None => {
                            lemma_run_to_workload(
                                dir,
                                settings,
                                downstream,
                                target,
                                source,
                                true,
                                rest,
                            );
                        },
                    },
                    _ => {
                        lemma_run_to_workload(
                            dir,
                            settings,
                            downstream,
                            target,
                            source,
                            false,
                            rest,
                        );
                    },
                }
            }
        },
    }
}

/// Resolution is a function of the snapshot: two runs of the engine against
/// one snapshot, each given answers enough, end in the same decision.
pub proof fn lemma_resolution_repeatable(
    dir: Directory,
    settings: Settings,
    downstream: IpAddr,
    target: SocketAddr,
    first_fuel: nat,
    second_fuel: nat,
)
    requires
        first_fuel >= max_answers(),
        second_fuel >= max_answers(),
    ensures
        dir.run(settings, Resolution { downstream, target, stage: Stage::Source }, first_fuel)
            == dir.run(
            settings,
            Resolution { downstream, target, stage: Stage::Source },
            second_fuel,
        ),
        dir.run(settings, Resolution { downstream, target, stage: Stage::Source }, first_fuel)
            is Some,
{
    lemma_engine_computes_decision(dir, settings, downstream, target, first_fuel);
    lemma_engine_computes_decision(dir, settings, downstream, target, second_fuel);
}

/// Every request that resolution gives is well formed.
pub proof fn lemma_decision_well_formed(
    dir: Directory,
    settings: Settings,
    downstream: IpAddr,
    target: SocketAddr,
)
    ensures
        dir.resolve(settings, downstream, target) matches Ok(r) ==> r.wf(),
{
}

/// A source that the directory does not know is refused as unknown, whatever
/// the destination.
pub proof fn lemma_unknown_source_refused(
    dir: Directory,
    settings: Settings,
    downstream: IpAddr,
    target: SocketAddr,
)
    requires
        dir.source_of(settings, downstream) is None,
    ensures
        dir.resolve(settings, downstream, target) == Err::<RequestView, Error>(
            Error::UnknownSource(downstream),
        ),
{
}

/// A destination of which the directory knows nothing, neither a service nor
/// an upstream, is passed through: plain, and dialled exactly as given.
pub proof fn lemma_unknown_destination_passes_through(
    dir: Directory,
    settings: Settings,
    downstream: IpAddr,
    target: SocketAddr,
)
    requires
        dir.source_of(settings, downstream) matches Some(source) && {
            &&& source_admitted(settings, source)
            &&& (dir.upstreams)(source.network, source, target) is None
        },
        dir.probe(settings, target) is None,
    ensures
        dir.resolve(settings, downstream, target) == Ok::<RequestView, Error>(
            RequestView::passthrough(dir.source_of(settings, downstream)->Some_0, target),
        ),
        dir.resolve(settings, downstream, target) matches Ok(r) && {
            &&& r.request_type == RequestType::Passthrough
            &&& r.protocol == Protocol::TCP
            &&& r.gateway == target
            &&& r.destination == target
        },
{
}

/// A service with a waypoint is reached through the waypoint: the request's
/// destination is the address the caller gave, not the waypoint's, and the
/// address to dial is the waypoint's replica on the port of its upstream.
pub proof fn lemma_service_waypoint_keeps_destination(
    dir: Directory,
    settings: Settings,
    downstream: IpAddr,
    target: SocketAddr,
)
    requires
        dir.source_of(settings, downstream) matches Some(source) && source_admitted(
            settings,
            source,
        ),
        dir.service_waypoint(settings, target) is Some,
    ensures
        dir.resolve(settings, downstream, target) matches Ok(r) ==> {
            let source = dir.source_of(settings, downstream)->Some_0;
            let gateway = dir.service_waypoint(settings, target)->Some_0;
            let at = SocketAddr {
                ip: gateway.destination->Address_0.address,
                port: gateway.hbone_mtls_port,
            };
            let waypoint = (dir.upstreams)(settings.network, source, at);
            let replica = (dir.replicas)(waypoint->Some_0.workload, source);
            &&& gateway.destination is Address
            &&& waypoint is Some
            &&& replica is Ok
            &&& r.destination == target
            &&& r.gateway == SocketAddr { ip: replica->Ok_0, port: waypoint->Some_0.port }
            &&& r.request_type == RequestType::ToServerWaypoint
            &&& r.protocol == Protocol::HBONE
        },
{
}

/// A tunneled request that goes to the workload directly is dialled on the
/// tunnel's fixed port, while its destination keeps the upstream's port.
pub proof fn lemma_direct_tunnel_ports(
    dir: Directory,
    settings: Settings,
    downstream: IpAddr,
    target: SocketAddr,
)
    ensures
        dir.resolve(settings, downstream, target) matches Ok(r) ==> (r.request_type
            == RequestType::Direct && r.protocol == Protocol::HBONE ==> {
            let source = dir.source_of(settings, downstream)->Some_0;
            let upstream = (dir.upstreams)(source.network, source, target);
            &&& upstream is Some
            &&& r.gateway.port == settings.hbone_port
            &&& r.destination.port == upstream->Some_0.port
            &&& r.gateway.ip == r.destination.ip
        }),
{
}

/// A connection that comes from the waypoint of the workload it is meant for
/// is not sent through that waypoint again: whatever waypoint the workload
/// declares, and whether or not the directory could look it up, the request
/// goes to the workload directly.
pub proof fn lemma_no_second_waypoint(
    dir: Directory,
    settings: Settings,
    downstream: IpAddr,
    target: SocketAddr,
    svc_addressed: bool,
)
    requires
        dir.source_of(settings, downstream) is Some,
        ({
            let source = dir.source_of(settings, downstream)->Some_0;
            (dir.upstreams)(source.network, source, target) matches Some(upstream) && {
                &&& (dir.replicas)(upstream.workload, source) is Ok
                &&& (dir.from_waypoint)(upstream.workload, source.spec_identity(), downstream)
            }
        }),
    ensures
        ({
            let source = dir.source_of(settings, downstream)->Some_0;
            let upstream = (dir.upstreams)(source.network, source, target)->Some_0;
            let replica = (dir.replicas)(upstream.workload, source)->Ok_0;
            dir.to_workload(settings, downstream, target, source, svc_addressed) == Ok::<
                RequestView,
                Error,
            >(RequestView::direct(settings.hbone_port, source, upstream, replica))
        }),
        source_admitted(settings, dir.source_of(settings, downstream)->Some_0)
            && dir.service_waypoint(settings, target) is None ==> ({
            let source = dir.source_of(settings, downstream)->Some_0;
            let upstream = (dir.upstreams)(source.network, source, target)->Some_0;
            let replica = (dir.replicas)(upstream.workload, source)->Ok_0;
            dir.resolve(settings, downstream, target) == Ok::<RequestView, Error>(
                RequestView::direct(settings.hbone_port, source, upstream, replica),
            )
        }),
{
}

/// At the step itself: once the directory says that the connection comes
/// from a waypoint, the engine decides at once, and for the direct request.
pub proof fn lemma_from_waypoint_decides(
    settings: Settings,
    downstream: IpAddr,
    target: SocketAddr,
    source: Workload,
    svc_addressed: bool,
    upstream: Upstream,
    replica: IpAddr,
)
    ensures
        spec_advance(
            settings,
            Resolution {
                downstream,
                target,
                stage: Stage::FromWaypoint { source, svc_addressed, upstream, replica },
            },
            Answer::FromWaypoint(true),
        ) == StepView::Done(
            Ok(RequestView::direct(settings.hbone_port, source, upstream, replica)),
        ),
{
}

/// A waypoint before a workload changes the hop, not the target: whether or
/// not one is interposed, the request names the workload behind the
/// destination and the service it was reached through, and accepts the
/// identities of that workload's upstream.
pub proof fn lemma_intended_workload_kept(
    dir: Directory,
    settings: Settings,
    downstream: IpAddr,
    target: SocketAddr,
    source: Workload,
    svc_addressed: bool,
)
    requires
        (dir.upstreams)(source.network, source, target) is Some,
    ensures
        dir.to_workload(settings, downstream, target, source, svc_addressed) matches Ok(r) ==> {
            let upstream = (dir.upstreams)(source.network, source, target)->Some_0;
            &&& r.destination_workload == Some(upstream.workload)
            &&& r.destination_service == upstream.destination_service
            &&& r.upstream_sans == upstream.sans@
            &&& r.source == source
            &&& r.request_type != RequestType::Passthrough
        },
{
}

} // verus!
