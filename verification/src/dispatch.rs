//! The dispatcher's decisions: which connections are denied before any byte
//! moves, and, for the others, everything the outbound leg is opened with.

use vstd::prelude::*;
use vstd::string::StringExecFns;
use crate::addr::{IpAddr, SocketAddr};
use crate::model::{Identity, Protocol, ServiceDescription, Workload};
use crate::request::{Error, Request};
use http_types::proxies::Forwarded;

verus! {

/// How the proxy is deployed.
#[derive(Clone, Copy, Debug, PartialEq, Eq, Hash, Structural)]
pub enum ProxyMode {
    /// One proxy for all the workloads of a node.
    Shared,
    /// One proxy for one workload.
    Dedicated,
}

/// What the proxy is configured with, as far as dispatch reads it.
#[derive(Clone, Debug, PartialEq, Eq)]
pub struct DispatchSettings {
    pub proxy_mode: ProxyMode,
    /// The proxy's own address.
    pub local_ip: Option<IpAddr>,
    /// Whether the proxy runs inside the network namespace of its workloads.
    pub inpod_enabled: bool,
    /// Whether plain connections leave from the address of the original source.
    pub enable_original_source: Option<bool>,
    /// The cluster the proxy runs in.
    pub cluster_id: String,
}

impl DispatchSettings {
    /// Settles from which address plain connections leave, once the listener
    /// is bound: a setting made by hand stands; where none was made, they
    /// leave from the original source's address exactly if the listener is
    /// transparent.
    pub fn settle_original_source(&mut self, transparent: bool)
        ensures
            final(self).enable_original_source == Some(
                match old(self).enable_original_source {
                    Some(chosen) => chosen,
                    None => transparent,
                },
            ),
            final(self).proxy_mode == old(self).proxy_mode,
            final(self).local_ip == old(self).local_ip,
            final(self).inpod_enabled == old(self).inpod_enabled,
            final(self).cluster_id == old(self).cluster_id,
    {
        if self.enable_original_source.is_none() {
            self.enable_original_source = Some(transparent);
        }
    }
}

/// Which side of a connection reports it.
#[derive(Clone, Copy, Debug, PartialEq, Eq, Hash, Structural)]
pub enum Reporter {
    Source,
    Destination,
}

/// How a connection is secured, as telemetry names it.
#[derive(Clone, Copy, Debug, PartialEq, Eq, Hash, Structural)]
pub enum SecurityPolicy {
    Unknown,
    MutualTls,
}

/// The record of a connection's opening.
#[derive(Clone, Debug, PartialEq, Eq)]
pub struct ConnectionOpen {
    pub reporter: Reporter,
    pub source: Option<Workload>,
    pub destination: Option<Workload>,
    pub destination_service: Option<ServiceDescription>,
    pub connection_security_policy: SecurityPolicy,
}

/// The three addresses under which a connection is followed while it lasts.
#[derive(Clone, Copy, Debug, PartialEq, Eq, Hash, Structural)]
pub struct ConnectionKey {
    pub source: SocketAddr,
    pub destination: SocketAddr,
    pub gateway: SocketAddr,
}

/// The key under which tunnel sessions are pooled.
#[derive(Clone, Debug, PartialEq, Eq, Hash)]
pub struct WorkloadKey {
    pub src_id: Identity,
    pub dst_id: Vec<Identity>,
    pub src: IpAddr,
    pub dst: SocketAddr,
}

/// What the tunnel's opening request carries.
#[derive(Clone, Debug, PartialEq, Eq)]
pub struct TunnelRequest {
    /// The address the tunnel is asked to connect to.
    pub authority: SocketAddr,
    /// The source workload, described for the peer.
    pub baggage: String,
    /// The value of the `Forwarded` header: the client on whose behalf the
    /// tunnel is opened and, where one is known, the host name of the
    /// destination's service. `None` where the value could not be written.
    pub forwarded: Option<String>,
    /// The connection's correlation header.
    pub traceparent: String,
}

/// How the outbound leg is opened.
#[derive(Clone, Debug, PartialEq, Eq)]
pub enum Transport {
    /// A stream of a pooled tunnel session.
    Tunnel { key: WorkloadKey, request: TunnelRequest },
    /// A new TCP connection to `gateway`, leaving from the original source's
    /// address where `bind_source` is set.
    Plain { gateway: SocketAddr, bind_source: bool },
}

/// Everything an admitted connection is opened with.
#[derive(Clone, Debug, PartialEq, Eq)]
pub struct Plan {
    pub connection: ConnectionKey,
    pub open: ConnectionOpen,
    /// The destination as telemetry reports it, for a tunneled connection.
    pub hbone_target: Option<SocketAddr>,
    pub transport: Transport,
}

/// What becomes of a connection once its resolution has ended.
#[derive(Debug, PartialEq, Eq)]
pub enum Dispatch {
    /// The connection is dropped; only the denial is reported.
    Deny(Error),
    /// The connection is opened as the plan says.
    Proceed(Plan),
}

/// Whether a connection to `destination` would reach the proxy itself from
/// outside: only a shared proxy that does not live with its workloads is
/// closed to such calls.
pub open spec fn spec_is_self_call(settings: DispatchSettings, destination: SocketAddr) -> bool {
    &&& settings.proxy_mode == ProxyMode::Shared
    &&& settings.local_ip == Some(destination.ip)
    &&& !settings.inpod_enabled
}

pub fn is_self_call(settings: &DispatchSettings, destination: SocketAddr) -> (r: bool)
    ensures
        r == spec_is_self_call(*settings, destination),
{
    let at_proxy = match settings.local_ip {
        Some(ip) => ip == destination.ip,
        None => false,
    };
    settings.proxy_mode == ProxyMode::Shared && at_proxy && !settings.inpod_enabled
}

/// The check that precedes resolution: a call to the proxy itself is denied.
pub fn precheck(settings: &DispatchSettings, destination: SocketAddr) -> (r: Result<(), Error>)
    ensures
        r == (if spec_is_self_call(*settings, destination) {
            Err::<(), Error>(Error::SelfCall)
        } else {
            Ok::<(), Error>(())
        }),
{
    if is_self_call(settings, destination) {
        Err(Error::SelfCall)
    } else {
        Ok(())
    }
}

pub open spec fn spec_security_policy(protocol: Protocol) -> SecurityPolicy {
    match protocol {
        Protocol::HBONE => SecurityPolicy::MutualTls,
        Protocol::TCP => SecurityPolicy::Unknown,
    }
}

/// The opening record of a request, reported by the source's side.
pub open spec fn spec_connection_open(request: Request) -> ConnectionOpen {
    ConnectionOpen {
        reporter: Reporter::Source,
        source: Some(request.source),
        destination: request.destination_workload,
        destination_service: request.destination_service,
        connection_security_policy: spec_security_policy(request.protocol),
    }
}

/// The source workload as the tunnel's peer reads it.
pub open spec fn spec_baggage(source: Workload, cluster: Seq<char>) -> Seq<char> {
    "k8s.cluster.name="@ + cluster + ",k8s.namespace.name="@ + source.namespace@ + ",k8s."@
        + source.workload_type.label() + ".name="@ + source.workload_name@ + ",service.name="@
        + source.canonical_name@ + ",service.version="@ + source.canonical_revision@
}

/// The source workload as the tunnel's peer reads it: cluster, namespace,
/// kind and name of the workload, canonical service name and revision.
pub fn baggage(source: &Workload, cluster: &str) -> (r: String)
    ensures
        r@ == spec_baggage(*source, cluster@),
{
    let mut text = String::from_str("k8s.cluster.name=");
    text.append(cluster);
    text.append(",k8s.namespace.name=");
    text.append(source.namespace.as_str());
    text.append(",k8s.");
    text.append(source.workload_type.as_str());
    text.append(".name=");
    text.append(source.workload_name.as_str());
    text.append(",service.name=");
    text.append(source.canonical_name.as_str());
    text.append(",service.version=");
    text.append(source.canonical_revision.as_str());
    text
}

/// The value of a `Forwarded` header that names the client `client` and the
/// host `host`, as `http_types` writes it.
pub uninterp spec fn forwarded_text(client: Seq<char>, host: Option<Seq<char>>) -> Seq<char>;

/// The host name that the tunnel's opening request names: that of the
/// destination's service.
pub open spec fn spec_forwarded_host(request: Request) -> Option<Seq<char>> {
    match request.destination_service {
        Some(service) => Some(service.hostname@),
        None => None,
    }
}

/// The key of the tunnel session for `request`: the source's identity and
/// address, the gateway, and every identity the peer may prove, the expected
/// one last.
pub open spec fn spec_pool_key(key: WorkloadKey, source_ip: IpAddr, request: Request) -> bool {
    &&& key.src_id == request.source.spec_identity()
    &&& key.dst_id@ == request.upstream_sans@.push(request.expected_identity->Some_0)
    &&& key.src == source_ip
    &&& key.dst == request.gateway
}

/// Whether `key` and `tunnel` are the session key and the opening request of
/// the tunnel for `request`, for the client at `source_addr`, whom the
/// `Forwarded` header names as `client`.
pub open spec fn spec_tunnel(
    key: WorkloadKey,
    tunnel: TunnelRequest,
    settings: DispatchSettings,
    source_addr: SocketAddr,
    client: Seq<char>,
    request: Request,
    traceparent: String,
) -> bool {
    &&& spec_pool_key(key, source_addr.ip, request)
    &&& tunnel.authority == request.destination
    &&& tunnel.baggage@ == spec_baggage(request.source, settings.cluster_id@)
    &&& tunnel.forwarded matches Some(v) ==> v@ == forwarded_text(
        client,
        spec_forwarded_host(request),
    )
    &&& tunnel.traceparent == traceparent
}

impl Plan {
    /// Whether this plan is the one that `request` asks for, for a connection
    /// from `source_addr`, which the `Forwarded` header names as `client`, to
    /// `dest_addr`.
    pub open spec fn carries_out(
        self,
        settings: DispatchSettings,
        source_addr: SocketAddr,
        client: Seq<char>,
        dest_addr: SocketAddr,
        request: Request,
        traceparent: String,
    ) -> bool {
        &&& self.connection == ConnectionKey {
            source: source_addr,
            destination: dest_addr,
            gateway: request.gateway,
        }
        &&& self.open == spec_connection_open(request)
        &&& match request.protocol {
            Protocol::HBONE => {
                &&& self.hbone_target == Some(request.destination)
                &&& self.transport matches Transport::Tunnel { key, request: tunnel }
                &&& spec_tunnel(key, tunnel, settings, source_addr, client, request, traceparent)
            },
            Protocol::TCP => {
                &&& self.hbone_target is None
                &&& self.transport == Transport::Plain {
                    gateway: request.gateway,
                    bind_source: settings.enable_original_source == Some(true),
                }
            },
        }
    }
}

/// Whether a resolved request is refused for want of a known destination.
pub open spec fn refused_unknown(request: Request, block_passthrough: bool) -> bool {
    block_passthrough && request.destination_workload is None
}

/// The opening record of a request.
pub fn conn_metrics_from_request(request: Request) -> (r: ConnectionOpen)
    ensures
        r == spec_connection_open(request),
{
    ConnectionOpen {
        reporter: Reporter::Source,
        source: Some(request.source),
        destination: request.destination_workload,
        destination_service: request.destination_service,
        connection_security_policy: match request.protocol {
            Protocol::HBONE => SecurityPolicy::MutualTls,
            Protocol::TCP => SecurityPolicy::Unknown,
        },
    }
}

/// Decides what becomes of a connection from `source_addr` to `dest_addr`
/// whose resolution ended in `resolved`. `client` is the source address as
/// the tunnel's `Forwarded` header is to name it.
///
/// A failed resolution is denied with its error. A request without a known
/// destination workload is denied where the caller asked for known
/// destinations only. Every other request is carried out: the plan names the
/// addresses to follow the connection under, the opening record, and the
/// tunnel or the plain connection to open.
pub fn dispatch(
    settings: &DispatchSettings,
    source_addr: SocketAddr,
    client: &str,
    dest_addr: SocketAddr,
    resolved: Result<Request, Error>,
    block_passthrough: bool,
    traceparent: String,
) -> (r: Dispatch)
    requires
        resolved matches Ok(request) ==> (request.protocol == Protocol::HBONE
            ==> request.expected_identity is Some),
    ensures
        match resolved {
            Err(e) => r == Dispatch::Deny(e),
            Ok(request) => if refused_unknown(request, block_passthrough) {
                r == Dispatch::Deny(Error::UnknownDestination(request.destination.ip))
            } else {
                r matches Dispatch::Proceed(plan) && plan.carries_out(
                    *settings,
                    source_addr,
                    client@,
                    dest_addr,
                    request,
                    traceparent,
                )
            },
        },
{
    let request = match resolved {
        Err(e) => {
            return Dispatch::Deny(e);
        },
        Ok(request) => request,
    };
    if block_passthrough && request.destination_workload.is_none() {
        return Dispatch::Deny(Error::UnknownDestination(request.destination.ip));
    }
    let connection = ConnectionKey {
        source: source_addr,
        destination: dest_addr,
        gateway: request.gateway,
    };
    let (hbone_target, transport) = match request.protocol {
        Protocol::HBONE => {
            let (key, tunnel) = build_hbone_request(
                settings,
                source_addr,
                client,
                &request,
                traceparent,
            );
            (Some(request.destination), Transport::Tunnel { key, request: tunnel })
        },
        Protocol::TCP => {
            let bind_source = match settings.enable_original_source {
                Some(b) => b,
                None => false,
            };
            (None, Transport::Plain { gateway: request.gateway, bind_source })
        },
    };
    Dispatch::Proceed(
        Plan { connection, open: conn_metrics_from_request(request), hbone_target, transport },
    )
}

/// A copy of an identity.
fn copy_identity(id: &Identity) -> (r: Identity)
    ensures
        r == *id,
{
    Identity {
        trust_domain: id.trust_domain.clone(),
        namespace: id.namespace.clone(),
        service_account: id.service_account.clone(),
    }
}

/// `http_types`' `Forwarded::value`, on a new `Forwarded` to which `client`
/// was added as its `for`: what is written is a function of `client` alone.
/// Nothing is claimed where `value` fails.
#[verifier::external_body]
fn forwarded_for(client: &str) -> (r: Option<String>)
    ensures
        r matches Some(v) ==> v@ == forwarded_text(client@, None),
{
    let mut f = Forwarded::new();
    f.add_for(client.to_string());
    f.value().ok()
}

/// `http_types`' `Forwarded::value`, on a new `Forwarded` to which `client`
/// was added as its `for` and whose host was set to `host`: what is written
/// is a function of the two texts alone. Nothing is claimed where `value`
/// fails.
#[verifier::external_body]
fn forwarded_for_host(client: &str, host: &str) -> (r: Option<String>)
    ensures
        r matches Some(v) ==> v@ == forwarded_text(client@, Some(host@)),
{
    let mut f = Forwarded::new();
    f.add_for(client.to_string());
    f.set_host(host);
    f.value().ok()
}

/// The key of the tunnel session for `request`.
pub fn pool_key(request: &Request, source_ip: IpAddr) -> (key: WorkloadKey)
    requires
        request.expected_identity is Some,
    ensures
        spec_pool_key(key, source_ip, *request),
{
    let mut dst_id: Vec<Identity> = Vec::new();
    let mut i: usize = 0;
    while i < request.upstream_sans.len()
        invariant
            i <= request.upstream_sans@.len(),
            dst_id@ == request.upstream_sans@.subrange(0, i as int),
        decreases request.upstream_sans@.len() - i,
    {
        dst_id.push(copy_identity(&request.upstream_sans[i]));
        proof {
            assert(dst_id@ =~= request.upstream_sans@.subrange(0, i + 1));
        }
        i = i + 1;
    }
    proof {
        assert(request.upstream_sans@.subrange(0, i as int) =~= request.upstream_sans@);
    }
    match &request.expected_identity {
        Some(id) => dst_id.push(copy_identity(id)),
        None => {},
    }
    WorkloadKey { src_id: request.source.identity(), dst_id, src: source_ip, dst: request.gateway }
}

/// The tunnel's opening request for `request`, with `forwarded` as the value
/// of its `Forwarded` header: it asks for the request's destination and
/// describes the request's source.
pub fn tunnel_request(
    settings: &DispatchSettings,
    request: &Request,
    forwarded: Option<String>,
    traceparent: String,
) -> (tunnel: TunnelRequest)
    ensures
        tunnel.authority == request.destination,
        tunnel.baggage@ == spec_baggage(request.source, settings.cluster_id@),
        tunnel.forwarded == forwarded,
        tunnel.traceparent == traceparent,
{
    TunnelRequest {
        authority: request.destination,
        baggage: baggage(&request.source, settings.cluster_id.as_str()),
        forwarded,
        traceparent,
    }
}

/// The key of the tunnel session for `request` and the tunnel's opening
/// request, for the client at `source_addr`, whom the `Forwarded` header is
/// to name as `client`.
///
/// The session is keyed by the source's identity and address, the gateway, and
/// every identity the peer may prove, the expected one last. The opening
/// request asks for the request's destination and carries the source's
/// description, the correlation header, and the `Forwarded` value for the
/// client and the host name of the destination's service.
pub fn build_hbone_request(
    settings: &DispatchSettings,
    source_addr: SocketAddr,
    client: &str,
    request: &Request,
    traceparent: String,
) -> (r: (WorkloadKey, TunnelRequest))
    requires
        request.expected_identity is Some,
    ensures
        spec_tunnel(r.0, r.1, *settings, source_addr, client@, *request, traceparent),
{
    let key = pool_key(request, source_addr.ip);
    let forwarded = match &request.destination_service {
        Some(service) => forwarded_for_host(client, service.hostname.as_str()),
        None => forwarded_for(client),
    };
    (key, tunnel_request(settings, request, forwarded, traceparent))
}

/// A tunnel session always has an identity to hold its peer to: the key's
/// list of acceptable identities ends with the expected one, so it is never
/// empty.
pub proof fn lemma_pool_key_names_expected_identity(
    key: WorkloadKey,
    source_ip: IpAddr,
    request: Request,
)
    requires
        spec_pool_key(key, source_ip, request),
    ensures
        key.dst_id@.len() == request.upstream_sans@.len() + 1,
        key.dst_id@.last() == request.expected_identity->Some_0,
{
}

} // verus!
