//! Egress tunnels: a service of the cluster published by an SSH client
//! (`ssh -R <namespace>/<service>:<port>:...`), and the objects that make
//! the service reach the server.
use vstd::prelude::*;
use crate::identity::Identity;
use crate::number::{fmt_u64, int_str};
use crate::proxy::{parse_service, HostError};
use crate::text::{concat, first_index};

verus! {

/// The annotation naming the pod that serves the tunnel.
pub open spec fn host_label() -> Seq<char> {
    "egress.kty.dev/host"@
}

/// The annotation naming the user that opened the tunnel.
pub open spec fn identity_label() -> Seq<char> {
    "egress.kty.dev/identity"@
}

/// A published service.
pub struct Egress {
    pub namespace: String,
    pub name: String,
    pub user: String,
    pub port: u16,
    /// The annotations of the service, sorted by key.
    pub annotations: Vec<(String, String)>,
}

/// How a service object is to look.
pub struct ServicePlan {
    pub port: i32,
    pub target_port: i32,
    pub service_type: String,
}

/// How the endpoints that point the service at the server are to look.
pub struct EndpointPlan {
    /// The endpoint slice's namespace and name: those of the service.
    pub namespace: String,
    pub name: String,
    pub address_type: String,
    pub labels: Vec<(String, String)>,
    /// The addresses of the one endpoint: the server's.
    pub addresses: Vec<String>,
    /// The endpoint's reference to the server's pod.
    pub target: PodReference,
    pub ready: bool,
    pub serving: bool,
    pub terminating: bool,
    pub port: i32,
}

/// A reference to a pod, as an object reference names it.
pub struct PodReference {
    pub api_version: String,
    pub kind: String,
    pub namespace: String,
    pub name: String,
    pub uid: String,
}

impl Egress {
    /// The tunnel for `service` (`<namespace>/<name>`) on `port`, opened by
    /// `identity` and served by the pod `server`.
    pub fn new(service: &str, port: u16, identity: &Identity, server: &str) -> (r: Result<Egress, HostError>)
        ensures
            match r {
                Ok(e) => {
                    let i = first_index(service@, '/');
                    &&& i >= 0
                    &&& e.namespace@ == service@.take(i)
                    &&& e.name@ == service@.skip(i + 1)
                    &&& e.user == identity.name
                    &&& e.port == port
                    &&& e.annotations@.len() == 2
                    &&& e.annotations@[0].0@ == host_label()
                    &&& e.annotations@[0].1@ == server@
                    &&& e.annotations@[1].0@ == identity_label()
                    &&& e.annotations@[1].1 == identity.name
                },
                Err(e) => first_index(service@, '/') < 0 && e == HostError::ServiceFormat,
            },
    {
        let (namespace, name) = match parse_service(service) {
            Ok(parts) => parts,
            Err(e) => {
                return Err(e);
            },
        };
        let mut annotations: Vec<(String, String)> = Vec::new();
        annotations.push(("egress.kty.dev/host".to_string(), server.to_string()));
        annotations.push(("egress.kty.dev/identity".to_string(), identity.name.clone()));
        Ok(Egress { namespace, name, user: identity.name.clone(), port, annotations })
    }

    /// `<namespace>/<name>`.
    pub fn path(&self) -> (s: String)
        ensures
            s@ == self.namespace@ + "/"@ + self.name@,
    {
        crate::proxy::service_path(self.namespace.as_str(), self.name.as_str())
    }

    /// How the tunnel is named in messages: `Host[<path>:<port>] User[<user>]`.
    pub fn to_text(&self) -> (s: String)
        ensures
            s@ == "Host["@ + self.namespace@ + "/"@ + self.name@ + ":"@ + int_str(self.port as int) + "] User["@
                + self.user@ + "]"@,
    {
        let path = self.path();
        let a = concat("Host[", path.as_str());
        let b = concat(a.as_str(), ":");
        let p = fmt_u64(self.port as u64);
        let c = concat(b.as_str(), p.as_str());
        let d = concat(c.as_str(), "] User[");
        let e = concat(d.as_str(), self.user.as_str());
        concat(e.as_str(), "]")
    }

    /// The service: the tunnel's port, forwarded to the server's
    /// `local_port`, inside the cluster only.
    pub fn service(&self, local_port: u16) -> (r: ServicePlan)
        ensures
            r.port == self.port as i32,
            r.target_port == local_port as i32,
            r.service_type@ == "ClusterIP"@,
    {
        ServicePlan { port: self.port as i32, target_port: local_port as i32, service_type: "ClusterIP".to_string() }
    }

    /// The endpoint slice of the service: one endpoint, at the address of
    /// `server` (of the family given by `ipv4`) and referring to its pod,
    /// ready and serving on `local_port`, labelled as managed by the tunnel
    /// and as belonging to the service.
    pub fn endpoint(&self, server: &CurrentPod, ipv4: bool, local_port: u16) -> (r: EndpointPlan)
        ensures
            r.namespace == self.namespace,
            r.name == self.name,
            r.address_type@ == if ipv4 { "IPv4"@ } else { "IPv6"@ },
            r.labels@.len() == 2,
            r.labels@[0].0@ == "endpointslice.kubernetes.io/managed-by"@,
            r.labels@[0].1@ == "egress.kty.dev"@,
            r.labels@[1].0@ == "kubernetes.io/service-name"@,
            r.labels@[1].1 == self.name,
            r.addresses@.len() == 1,
            r.addresses@[0] == server.addr,
            r.target.api_version@ == "v1"@,
            r.target.kind@ == "Pod"@,
            r.target.namespace == server.namespace,
            r.target.name == server.name,
            r.target.uid == server.uid,
            r.ready && r.serving && !r.terminating,
            r.port == local_port as i32,
    {
        let address_type = if ipv4 {
            "IPv4".to_string()
        } else {
            "IPv6".to_string()
        };
        let mut labels: Vec<(String, String)> = Vec::new();
        labels.push(("endpointslice.kubernetes.io/managed-by".to_string(), "egress.kty.dev".to_string()));
        labels.push(("kubernetes.io/service-name".to_string(), self.name.clone()));
        let mut addresses: Vec<String> = Vec::new();
        addresses.push(server.addr.clone());
        let target = PodReference {
            api_version: "v1".to_string(),
            kind: "Pod".to_string(),
            namespace: server.namespace.clone(),
            name: server.name.clone(),
            uid: server.uid.clone(),
        };
        EndpointPlan {
            namespace: self.namespace.clone(),
            name: self.name.clone(),
            address_type,
            labels,
            addresses,
            target,
            ready: true,
            serving: true,
            terminating: false,
            port: local_port as i32,
        }
    }
}

/// The pod the server runs in, which serves every egress tunnel.
pub struct CurrentPod {
    pub namespace: String,
    pub name: String,
    pub uid: String,
    pub addr: String,
}

impl Default for CurrentPod {
    /// Outside a cluster: `default/unknown` at `127.0.0.1`.
    fn default() -> (p: Self)
        ensures
            p.namespace@ == "default"@,
            p.name@ == "unknown"@,
            p.uid@ == "unknown"@,
            p.addr@ == "127.0.0.1"@,
    {
        CurrentPod {
            namespace: "default".to_string(),
            name: "unknown".to_string(),
            uid: "unknown".to_string(),
            addr: "127.0.0.1".to_string(),
        }
    }
}

} // verus!
