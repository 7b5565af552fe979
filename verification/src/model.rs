//! What the directory knows of workloads and services, as snapshots.

use vstd::prelude::*;
use crate::addr::{IpAddr, NetworkAddress};

verus! {

/// The transport a workload accepts.
#[derive(Clone, Copy, Debug, PartialEq, Eq, Hash, Structural)]
pub enum Protocol {
    /// Plain TCP.
    TCP,
    /// The authenticated, multiplexed tunnel.
    HBONE,
}

/// The kind of controller that owns a workload.
#[derive(Clone, Copy, Debug, PartialEq, Eq, Hash, Structural)]
pub enum WorkloadType {
    Deployment,
    CronJob,
    Job,
    Pod,
}

impl WorkloadType {
    pub open spec fn label(self) -> Seq<char> {
        match self {
            WorkloadType::Deployment => "deployment"@,
            WorkloadType::CronJob => "cronjob"@,
            WorkloadType::Job => "job"@,
            WorkloadType::Pod => "pod"@,
        }
    }

    /// The lower-case word by which telemetry names the type.
    pub fn as_str(self) -> (r: &'static str)
        ensures
            r@ == self.label(),
    {
        match self {
            WorkloadType::Deployment => "deployment",
            WorkloadType::CronJob => "cronjob",
            WorkloadType::Job => "job",
            WorkloadType::Pod => "pod",
        }
    }
}

/// The identity a peer proves in the tunnel's handshake.
#[derive(Clone, Debug, PartialEq, Eq, Hash)]
pub struct Identity {
    pub trust_domain: String,
    pub namespace: String,
    pub service_account: String,
}

/// A host name within a namespace.
#[derive(Clone, Debug, PartialEq, Eq, Hash)]
pub struct NamespacedHostname {
    pub namespace: String,
    pub hostname: String,
}

/// Where a waypoint is: a concrete address, or a name.
#[derive(Clone, Debug, PartialEq, Eq, Hash)]
pub enum Destination {
    Address(NetworkAddress),
    Hostname(NamespacedHostname),
}

/// A reference to a waypoint.
#[derive(Clone, Debug, PartialEq, Eq, Hash)]
pub struct GatewayAddress {
    pub destination: Destination,
    pub hbone_mtls_port: u16,
    pub hbone_single_tls_port: Option<u16>,
}

/// One mesh-managed process.
#[derive(Clone, Debug, PartialEq, Eq)]
pub struct Workload {
    pub uid: String,
    pub name: String,
    pub namespace: String,
    pub trust_domain: String,
    pub service_account: String,
    pub network: String,
    pub node: String,
    pub workload_name: String,
    pub workload_type: WorkloadType,
    pub canonical_name: String,
    pub canonical_revision: String,
    pub addresses: Vec<IpAddr>,
    pub protocol: Protocol,
    pub waypoint: Option<GatewayAddress>,
}

impl Workload {
    pub open spec fn spec_identity(self) -> Identity {
        Identity {
            trust_domain: self.trust_domain,
            namespace: self.namespace,
            service_account: self.service_account,
        }
    }

    /// The identity under which the workload runs.
    pub fn identity(&self) -> (r: Identity)
        ensures
            r == self.spec_identity(),
    {
        Identity {
            trust_domain: self.trust_domain.clone(),
            namespace: self.namespace.clone(),
            service_account: self.service_account.clone(),
        }
    }
}

/// What the proxy was told of the workload it serves, apart from the directory.
#[derive(Clone, Debug, PartialEq, Eq)]
pub struct WorkloadInfo {
    pub name: String,
    pub namespace: String,
    pub service_account: String,
}

impl WorkloadInfo {
    pub open spec fn spec_matches(self, w: Workload) -> bool {
        &&& self.name@ == w.name@
        &&& self.namespace@ == w.namespace@
        &&& self.service_account@ == w.service_account@
    }

    /// Whether `w` carries this name, namespace and service account.
    pub fn matches(&self, w: &Workload) -> (r: bool)
        ensures
            r == self.spec_matches(*w),
    {
        self.name == w.name && self.namespace == w.namespace && self.service_account
            == w.service_account
    }
}

/// A service port and the port its workloads listen on.
#[derive(Clone, Copy, Debug, PartialEq, Eq, Hash, Structural)]
pub struct PortMapping {
    pub service_port: u16,
    pub target_port: u16,
}

/// A named, addressable group of workloads.
#[derive(Clone, Debug, PartialEq, Eq)]
pub struct Service {
    pub name: String,
    pub namespace: String,
    pub hostname: String,
    pub addresses: Vec<NetworkAddress>,
    pub ports: Vec<PortMapping>,
    pub waypoint: Option<GatewayAddress>,
}

/// The part of a service that telemetry and tunnel headers name.
#[derive(Clone, Debug, PartialEq, Eq, Hash)]
pub struct ServiceDescription {
    pub hostname: String,
    pub name: String,
    pub namespace: String,
}

impl Service {
    pub open spec fn spec_description(self) -> ServiceDescription {
        ServiceDescription {
            hostname: self.hostname,
            name: self.name,
            namespace: self.namespace,
        }
    }

    /// The service's description, for telemetry and headers.
    pub fn description(&self) -> (r: ServiceDescription)
        ensures
            r == self.spec_description(),
    {
        ServiceDescription {
            hostname: self.hostname.clone(),
            name: self.name.clone(),
            namespace: self.namespace.clone(),
        }
    }
}

/// What the directory finds at an address.
#[derive(Clone, Debug, PartialEq, Eq)]
pub enum Address {
    Workload(Workload),
    Service(Service),
}

/// The directory's answer for a destination: the workload behind it, the port
/// to reach it on, the service it was reached through, and the identities that
/// the peer may prove.
#[derive(Clone, Debug, PartialEq, Eq)]
pub struct Upstream {
    pub workload: Workload,
    pub port: u16,
    pub sans: Vec<Identity>,
    pub destination_service: Option<ServiceDescription>,
}

} // verus!
