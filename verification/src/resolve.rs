//! The resolution engine: from a source address and a destination to a
//! routing decision, one directory query at a time.
//!
//! The engine does not reach the directory itself. `start` and `advance`
//! return either the decision or a state that waits for one answer; the caller
//! puts the state's query to the directory and hands the answer to `advance`.

use vstd::prelude::*;
use crate::addr::{IpAddr, NetworkAddress, SocketAddr};
use crate::model::{Address, Destination, ServiceDescription, Upstream, Workload, WorkloadInfo};
use crate::request::{Error, Request, RequestView, WaypointFailure};

verus! {

/// What the proxy is configured with, as far as resolution reads it.
#[derive(Clone, Debug, PartialEq, Eq)]
pub struct Settings {
    /// The network on which the proxy's workloads live.
    pub network: String,
    /// The port on which every tunnel-capable peer accepts tunnels.
    pub hbone_port: u16,
    /// What the proxy knows of its own workload apart from the directory.
    pub proxy_workload_info: Option<WorkloadInfo>,
}

/// The answer a resolution waits for, with what was decided so far.
#[derive(Clone, Debug, PartialEq, Eq)]
pub enum Stage {
    /// The workload at the source address.
    Source,
    /// Whether the destination's address is a service's.
    ServiceProbe { source: Workload },
    /// The upstream at the address of the service's waypoint.
    WaypointUpstream { source: Workload, service: ServiceDescription, at: SocketAddr },
    /// A replica of the service's waypoint.
    WaypointReplica { source: Workload, service: ServiceDescription, waypoint: Upstream },
    /// The upstream at the destination.
    Upstream { source: Workload, svc_addressed: bool },
    /// A replica of the upstream's workload.
    Replica { source: Workload, svc_addressed: bool, upstream: Upstream },
    /// Whether the connection comes from the upstream's waypoint.
    FromWaypoint { source: Workload, svc_addressed: bool, upstream: Upstream, replica: IpAddr },
    /// The waypoint that the upstream's workload declares.
    WorkloadWaypoint { source: Workload, upstream: Upstream, replica: IpAddr },
    /// A replica of the workload's waypoint.
    WorkloadWaypointReplica { source: Workload, upstream: Upstream, waypoint: Upstream },
}

/// A resolution under way.
#[derive(Clone, Debug, PartialEq, Eq)]
pub struct Resolution {
    /// The address the connection came from.
    pub downstream: IpAddr,
    /// The address the connection was meant for.
    pub target: SocketAddr,
    pub stage: Stage,
}

/// A question to the directory. The workloads a question speaks of are those
/// of the resolution that asks: `Resolution::source` and `Resolution::subject`.
#[derive(Clone, Debug, PartialEq, Eq)]
pub enum Query {
    /// Which workload owns this address?
    Workload(NetworkAddress),
    /// What is at this destination, a workload or a service?
    Destination(Destination),
    /// Which upstream serves `target`, seen from the source on `network`?
    Upstream { network: String, target: SocketAddr },
    /// Which address of the subject should the source dial?
    Replica,
    /// Does the connection from `source_address` come from the subject's waypoint?
    FromWaypoint { source_address: IpAddr },
    /// Which waypoint stands before the subject at `replica`?
    Waypoint { replica: IpAddr },
}

/// The directory's answer to a query.
#[derive(Debug, PartialEq, Eq)]
pub enum Answer {
    Workload(Option<Workload>),
    Destination(Option<Address>),
    Upstream(Option<Upstream>),
    Replica(Result<IpAddr, Error>),
    FromWaypoint(bool),
    Waypoint(Result<Option<Upstream>, String>),
}

/// Where a resolution stands after a step.
#[derive(Debug, PartialEq, Eq)]
pub enum Step {
    /// One more answer is needed.
    Ask(Resolution),
    /// The decision.
    Done(Result<Request, Error>),
}

/// A step as contracts speak of it.
pub enum StepView {
    Ask(Resolution),
    Done(Result<RequestView, Error>),
}

impl View for Step {
    type V = StepView;

    open spec fn view(&self) -> StepView {
        match *self {
            Step::Ask(s) => StepView::Ask(s),
            Step::Done(Ok(r)) => StepView::Done(Ok(r@)),
            Step::Done(Err(e)) => StepView::Done(Err(e)),
        }
    }
}

impl Stage {
    /// The source workload, once it is known.
    pub open spec fn spec_source(self) -> Option<Workload> {
        match self {
            Stage::Source => None,
            Stage::ServiceProbe { source } => Some(source),
            Stage::WaypointUpstream { source, .. } => Some(source),
            Stage::WaypointReplica { source, .. } => Some(source),
            Stage::Upstream { source, .. } => Some(source),
            Stage::Replica { source, .. } => Some(source),
            Stage::FromWaypoint { source, .. } => Some(source),
            Stage::WorkloadWaypoint { source, .. } => Some(source),
            Stage::WorkloadWaypointReplica { source, .. } => Some(source),
        }
    }

    /// The workload that the pending query is about, where it is about one.
    pub open spec fn spec_subject(self) -> Option<Workload> {
        match self {
            Stage::WaypointReplica { waypoint, .. } => Some(waypoint.workload),
            Stage::Replica { upstream, .. } => Some(upstream.workload),
            Stage::FromWaypoint { upstream, .. } => Some(upstream.workload),
            Stage::WorkloadWaypoint { upstream, .. } => Some(upstream.workload),
            Stage::WorkloadWaypointReplica { waypoint, .. } => Some(waypoint.workload),
            _ => None,
        }
    }
}

impl Resolution {
    /// The query that this resolution waits on.
    pub open spec fn spec_query(self, settings: Settings) -> Query {
        match self.stage {
            Stage::Source => Query::Workload(
                NetworkAddress { network: settings.network, address: self.downstream },
            ),
            Stage::ServiceProbe { .. } => Query::Destination(
                Destination::Address(
                    NetworkAddress { network: settings.network, address: self.target.ip },
                ),
            ),
            Stage::WaypointUpstream { at, .. } => Query::Upstream {
                network: settings.network,
                target: at,
            },
            Stage::WaypointReplica { .. } => Query::Replica,
            Stage::Upstream { source, .. } => Query::Upstream {
                network: source.network,
                target: self.target,
            },
            Stage::Replica { .. } => Query::Replica,
            Stage::FromWaypoint { .. } => Query::FromWaypoint { source_address: self.downstream },
            Stage::WorkloadWaypoint { replica, .. } => Query::Waypoint { replica },
            Stage::WorkloadWaypointReplica { .. } => Query::Replica,
        }
    }

    /// The query to put to the directory now.
    pub fn query(&self, settings: &Settings) -> (q: Query)
        ensures
            q == self.spec_query(*settings),
    {
        match &self.stage {
            Stage::Source => Query::Workload(
                NetworkAddress { network: settings.network.clone(), address: self.downstream },
            ),
            Stage::ServiceProbe { .. } => Query::Destination(
                Destination::Address(
                    NetworkAddress { network: settings.network.clone(), address: self.target.ip },
                ),
            ),
            Stage::WaypointUpstream { at, .. } => Query::Upstream {
                network: settings.network.clone(),
                target: *at,
            },
            Stage::WaypointReplica { .. } => Query::Replica,
            Stage::Upstream { source, .. } => Query::Upstream {
                network: source.network.clone(),
                target: self.target,
            },
            Stage::Replica { .. } => Query::Replica,
            Stage::FromWaypoint { .. } => Query::FromWaypoint { source_address: self.downstream },
            Stage::WorkloadWaypoint { replica, .. } => Query::Waypoint { replica: *replica },
            Stage::WorkloadWaypointReplica { .. } => Query::Replica,
        }
    }

    /// The source workload, once the directory has named it.
    pub fn source(&self) -> (r: Option<&Workload>)
        ensures
            match r {
                Some(w) => self.stage.spec_source() == Some(*w),
                None => self.stage.spec_source() is None,
            },
    {
        match &self.stage {
            Stage::Source => None,
            Stage::ServiceProbe { source } => Some(source),
            Stage::WaypointUpstream { source, .. } => Some(source),
            Stage::WaypointReplica { source, .. } => Some(source),
            Stage::Upstream { source, .. } => Some(source),
            Stage::Replica { source, .. } => Some(source),
            Stage::FromWaypoint { source, .. } => Some(source),
            Stage::WorkloadWaypoint { source, .. } => Some(source),
            Stage::WorkloadWaypointReplica { source, .. } => Some(source),
        }
    }

    /// The workload that the pending query is about, where it is about one.
    pub fn subject(&self) -> (r: Option<&Workload>)
        ensures
            match r {
                Some(w) => self.stage.spec_subject() == Some(*w),
                None => self.stage.spec_subject() is None,
            },
    {
        match &self.stage {
            Stage::WaypointReplica { waypoint, .. } => Some(&waypoint.workload),
            Stage::Replica { upstream, .. } => Some(&upstream.workload),
            Stage::FromWaypoint { upstream, .. } => Some(&upstream.workload),
            Stage::WorkloadWaypoint { upstream, .. } => Some(&upstream.workload),
            Stage::WorkloadWaypointReplica { waypoint, .. } => Some(&waypoint.workload),
            _ => None,
        }
    }
}

/// Whether the proxy's own knowledge of its workload admits `source`.
pub open spec fn source_admitted(settings: Settings, source: Workload) -> bool {
    match settings.proxy_workload_info {
        Some(info) => info.spec_matches(source),
        None => true,
    }
}

/// What follows when `answer` reaches a resolution in state `state`.
///
/// Each stage takes the one kind of answer that fits its query. An answer of
/// another kind decides nothing: the state stays and asks again.
pub open spec fn spec_advance(settings: Settings, state: Resolution, answer: Answer) -> StepView {
    let downstream = state.downstream;
    let target = state.target;
    match (state.stage, answer) {
        (Stage::Source, Answer::Workload(None)) => StepView::Done(
            Err(Error::UnknownSource(downstream)),
        ),
        (Stage::Source, Answer::Workload(Some(source))) => if source_admitted(settings, source) {
            StepView::Ask(Resolution { downstream, target, stage: Stage::ServiceProbe { source } })
        } else {
            StepView::Done(
                Err(Error::MismatchedSource(downstream, settings.proxy_workload_info->Some_0)),
            )
        },
        (Stage::ServiceProbe { source }, Answer::Destination(found)) => spec_after_probe(
            downstream,
            target,
            source,
            found,
        ),
        (Stage::WaypointUpstream { source, service, .. }, Answer::Upstream(found)) => {
            match found {
                None => StepView::Done(Err(Error::UnknownWaypoint(WaypointFailure::NoUpstream))),
                Some(w) => StepView::Ask(
                    Resolution {
                        downstream,
                        target,
                        stage: Stage::WaypointReplica { source, service, waypoint: w },
                    },
                ),
            }
        },
        (Stage::WaypointReplica { source, service, waypoint }, Answer::Replica(picked)) => {
            match picked {
                Err(e) => StepView::Done(Err(e)),
                Ok(ip) => StepView::Done(
                    Ok(RequestView::via_service_waypoint(source, target, service, waypoint, ip)),
                ),
            }
        },
        (Stage::Upstream { source, svc_addressed }, Answer::Upstream(found)) => match found {
            None => StepView::Done(Ok(RequestView::passthrough(source, target))),
            Some(upstream) => StepView::Ask(
                Resolution {
                    downstream,
                    target,
                    stage: Stage::Replica { source, svc_addressed, upstream },
                },
            ),
        },
        (Stage::Replica { source, svc_addressed, upstream }, Answer::Replica(picked)) => {
            match picked {
                Err(e) => StepView::Done(Err(e)),
                Ok(replica) => StepView::Ask(
                    Resolution {
                        downstream,
                        target,
                        stage: Stage::FromWaypoint { source, svc_addressed, upstream, replica },
                    },
                ),
            }
        },
        (
            Stage::FromWaypoint { source, svc_addressed, upstream, replica },
            Answer::FromWaypoint(from_waypoint),
        ) => if !from_waypoint && !svc_addressed {
            StepView::Ask(
                Resolution {
                    downstream,
                    target,
                    stage: Stage::WorkloadWaypoint { source, upstream, replica },
                },
            )
        } else {
            StepView::Done(Ok(RequestView::direct(settings.hbone_port, source, upstream, replica)))
        },
        (Stage::WorkloadWaypoint { source, upstream, replica }, Answer::Waypoint(found)) => {
            match found {
                Ok(None) => StepView::Done(
                    Ok(RequestView::direct(settings.hbone_port, source, upstream, replica)),
                ),
                Ok(Some(waypoint)) => StepView::Ask(
                    Resolution {
                        downstream,
                        target,
                        stage: Stage::WorkloadWaypointReplica { source, upstream, waypoint },
                    },
                ),
                Err(m) => StepView::Done(
                    Err(Error::UnknownWaypoint(WaypointFailure::Directory(m))),
                ),
            }
        },
        (
            Stage::WorkloadWaypointReplica { source, upstream, waypoint },
            Answer::Replica(picked),
        ) => match picked {
            Err(e) => StepView::Done(Err(e)),
            Ok(ip) => StepView::Done(
                Ok(RequestView::via_workload_waypoint(source, target, upstream, waypoint, ip)),
            ),
        },
        _ => StepView::Ask(state),
    }
}

/// What follows the probe of the destination's address as a service's. A
/// service with a waypoint is reached through it, and only a waypoint given
/// by address can be; any other finding goes on to the destination's
/// upstream, remembering whether a service was found.
pub open spec fn spec_after_probe(
    downstream: IpAddr,
    target: SocketAddr,
    source: Workload,
    found: Option<Address>,
) -> StepView {
    match found {
        Some(Address::Service(service)) => match service.waypoint {
            Some(gateway) => match gateway.destination {
                Destination::Hostname(_) => StepView::Done(
                    Err(Error::UnknownWaypoint(WaypointFailure::HostnameUnsupported)),
                ),
                Destination::Address(a) => StepView::Ask(
                    Resolution {
                        downstream,
                        target,
                        stage: Stage::WaypointUpstream {
                            source,
                            service: service.spec_description(),
                            at: SocketAddr { ip: a.address, port: gateway.hbone_mtls_port },
                        },
                    },
                ),
            },
            None => StepView::Ask(
                Resolution {
                    downstream,
                    target,
                    stage: Stage::Upstream { source, svc_addressed: true },
                },
            ),
        },
        _ => StepView::Ask(
            Resolution { downstream, target, stage: Stage::Upstream { source, svc_addressed: false } },
        ),
    }
}

/// Begins the resolution of a connection from `downstream` to `target`: the
/// first thing to learn is the workload at the source address.
pub fn start(downstream: IpAddr, target: SocketAddr) -> (r: Resolution)
    ensures
        r == (Resolution { downstream, target, stage: Stage::Source }),
{
    Resolution { downstream, target, stage: Stage::Source }
}

fn after_probe(downstream: IpAddr, target: SocketAddr, source: Workload, found: Option<Address>) -> (r:
    Step)
    ensures
        r@ == spec_after_probe(downstream, target, source, found),
{
    match found {
        Some(Address::Service(service)) => {
            let description = service.description();
            match service.waypoint {
                Some(gateway) => match gateway.destination {
                    Destination::Hostname(_) => Step::Done(
                        Err(Error::UnknownWaypoint(WaypointFailure::HostnameUnsupported)),
                    ),
                    Destination::Address(a) => Step::Ask(
                        Resolution {
                            downstream,
                            target,
                            stage: Stage::WaypointUpstream {
                                source,
                                service: description,
                                at: SocketAddr::new(a.address, gateway.hbone_mtls_port),
                            },
                        },
                    ),
                },
                None => Step::Ask(
                    Resolution {
                        downstream,
                        target,
                        stage: Stage::Upstream { source, svc_addressed: true },
                    },
                ),
            }
        },
        _ => Step::Ask(
            Resolution { downstream, target, stage: Stage::Upstream { source, svc_addressed: false } },
        ),
    }
}

fn after_source(settings: &Settings, downstream: IpAddr, target: SocketAddr, source: Workload) -> (r:
    Step)
    ensures
        r@ == spec_advance(
            *settings,
            Resolution { downstream, target, stage: Stage::Source },
            Answer::Workload(Some(source)),
        ),
{
    match &settings.proxy_workload_info {
        Some(info) => {
            if !info.matches(&source) {
                let told = WorkloadInfo {
                    name: info.name.clone(),
                    namespace: info.namespace.clone(),
                    service_account: info.service_account.clone(),
                };
                return Step::Done(Err(Error::MismatchedSource(downstream, told)));
            }
        },
        None => {},
    }
    Step::Ask(Resolution { downstream, target, stage: Stage::ServiceProbe { source } })
}

/// Takes the directory's answer to the query of `state` and says what
/// follows: the decision, or the state that waits for the next answer.
pub fn advance(settings: &Settings, state: Resolution, answer: Answer) -> (r: Step)
    ensures
        r@ == spec_advance(*settings, state, answer),
        r matches Step::Done(Ok(request)) ==> request.wf(),
{
    let downstream = state.downstream;
    let target = state.target;
    match (state.stage, answer) {
        (Stage::Source, Answer::Workload(None)) => Step::Done(
            Err(Error::UnknownSource(downstream)),
        ),
        (Stage::Source, Answer::Workload(Some(source))) => after_source(
            settings,
            downstream,
            target,
            source,
        ),
        (Stage::ServiceProbe { source }, Answer::Destination(found)) => after_probe(
            downstream,
            target,
            source,
            found,
        ),
        (Stage::WaypointUpstream { source, service, .. }, Answer::Upstream(found)) => {
            match found {
                None => Step::Done(Err(Error::UnknownWaypoint(WaypointFailure::NoUpstream))),
                Some(w) => Step::Ask(
                    Resolution {
                        downstream,
                        target,
                        stage: Stage::WaypointReplica { source, service, waypoint: w },
                    },
                ),
            }
        },
        (Stage::WaypointReplica { source, service, waypoint }, Answer::Replica(picked)) => {
            match picked {
                Err(e) => Step::Done(Err(e)),
                Ok(ip) => Step::Done(
                    Ok(Request::via_service_waypoint(source, target, service, waypoint, ip)),
                ),
            }
        },
        (Stage::Upstream { source, svc_addressed }, Answer::Upstream(found)) => match found {
            None => Step::Done(Ok(Request::passthrough(source, target))),
            Some(upstream) => Step::Ask(
                Resolution {
                    downstream,
                    target,
                    stage: Stage::Replica { source, svc_addressed, upstream },
                },
            ),
        },
        (Stage::Replica { source, svc_addressed, upstream }, Answer::Replica(picked)) => {
            match picked {
                Err(e) => Step::Done(Err(e)),
                Ok(replica) => Step::Ask(
                    Resolution {
                        downstream,
                        target,
                        stage: Stage::FromWaypoint { source, svc_addressed, upstream, replica },
                    },
                ),
            }
        },
        (
            Stage::FromWaypoint { source, svc_addressed, upstream, replica },
            Answer::FromWaypoint(from_waypoint),
        ) => if !from_waypoint && !svc_addressed {
            Step::Ask(
                Resolution {
                    downstream,
                    target,
                    stage: Stage::WorkloadWaypoint { source, upstream, replica },
                },
            )
        } else {
            Step::Done(Ok(Request::direct(settings.hbone_port, source, upstream, replica)))
        },
        (Stage::WorkloadWaypoint { source, upstream, replica }, Answer::Waypoint(found)) => {
            match found {
                Ok(None) => Step::Done(
                    Ok(Request::direct(settings.hbone_port, source, upstream, replica)),
                ),
                Ok(Some(waypoint)) => Step::Ask(
                    Resolution {
                        downstream,
                        target,
                        stage: Stage::WorkloadWaypointReplica { source, upstream, waypoint },
                    },
                ),
                Err(m) => Step::Done(Err(Error::UnknownWaypoint(WaypointFailure::Directory(m)))),
            }
        },
        (
            Stage::WorkloadWaypointReplica { source, upstream, waypoint },
            Answer::Replica(picked),
        ) => match picked {
            Err(e) => Step::Done(Err(e)),
            Ok(ip) => Step::Done(
                Ok(Request::via_workload_waypoint(source, target, upstream, waypoint, ip)),
            ),
        },
        (stage, _) => Step::Ask(Resolution { downstream, target, stage }),
    }
}

} // verus!
