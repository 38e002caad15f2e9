//! Tunnel endpoints: which cluster resource an ingress tunnel reaches
//! (`<resource>/<namespace>/<name>`, or `nodes/<name>`), and which service an
//! egress tunnel publishes (`<namespace>/<name>`).
use vstd::prelude::*;

use crate::text::{
    first_index, find_first, join, join_strings, lemma_first_index, same_text, split, split_str,
    substring, tail, to_chars,
};

verus! {

/// The kinds of resource that a tunnel can reach.
#[derive(Debug, Clone, Copy, PartialEq, Eq, Structural)]
pub enum Resource {
    Pods,
    Services,
    Nodes,
}

/// The resource that a name or alias stands for.
pub open spec fn resource_of(name: Seq<char>) -> Option<Resource> {
    if name == "pods"@ || name == "pod"@ || name == "po"@ {
        Some(Resource::Pods)
    } else if name == "services"@ || name == "service"@ || name == "svc"@ {
        Some(Resource::Services)
    } else if name == "nodes"@ || name == "node"@ || name == "no"@ {
        Some(Resource::Nodes)
    } else {
        None
    }
}

/// The plural name of a resource.
pub open spec fn plural(r: Resource) -> Seq<char> {
    match r {
        Resource::Pods => "pods"@,
        Resource::Services => "services"@,
        Resource::Nodes => "nodes"@,
    }
}

/// The plural name of a resource.
pub fn plural_text(r: Resource) -> (s: String)
    ensures
        s@ == plural(r),
{
    match r {
        Resource::Pods => "pods".to_owned(),
        Resource::Services => "services".to_owned(),
        Resource::Nodes => "nodes".to_owned(),
    }
}

/// Why a tunnel endpoint cannot be used.
#[derive(Debug, Clone, PartialEq, Eq)]
pub enum HostError {
    /// The first segment names no resource that can be reached.
    NotSupported,
    /// The namespace segment is missing; the format of the resource is given.
    NamespaceMissing { format: String },
    /// The name segment is missing; the format of the resource is given.
    NameMissing { format: String },
    /// The egress service is not `<namespace>/<name>`.
    ServiceFormat,
}

/// The endpoint of an ingress tunnel.
#[derive(Debug, Clone, PartialEq, Eq)]
pub struct Host {
    pub resource: Resource,
    pub segments: Vec<String>,
}

impl Host {
    pub open spec fn segment_texts(self) -> Seq<Seq<char>> {
        self.segments@.map_values(|s: String| s@)
    }

    /// The endpoint that `host` names: its `/`-separated segments, the first
    /// of which names the resource.
    pub fn new(host: &str) -> (r: Result<Host, HostError>)
        ensures
            match r {
                Ok(h) => resource_of(split(host@, '/')[0]) == Some(h.resource)
                    && h.segment_texts() == split(host@, '/'),
                Err(e) => resource_of(split(host@, '/')[0]) is None && e == HostError::NotSupported,
            },
    {
        let segments = split_str(host, '/');
        assert(split(host@, '/').len() > 0);
        assert(segments@.map_values(|s: String| s@).len() == segments@.len());
        assert(segments@.map_values(|s: String| s@)[0] == segments@[0]@);
        let first = segments[0].as_str();
        let resource = if same_text(first, "pods") || same_text(first, "pod") || same_text(first, "po") {
            Resource::Pods
        } else if same_text(first, "services") || same_text(first, "service") || same_text(first, "svc") {
            Resource::Services
        } else if same_text(first, "nodes") || same_text(first, "node") || same_text(first, "no") {
            Resource::Nodes
        } else {
            return Err(HostError::NotSupported);
        };
        Ok(Host { resource, segments })
    }

    /// The endpoint as it was written: the segments joined with `/`.
    pub fn to_text(&self) -> (s: String)
        ensures
            s@ == join(self.segment_texts(), "/"@),
    {
        join_strings(&self.segments, "/")
    }
}

/// Law: an endpoint is shown as it was written, since joining the pieces of
/// a split with the separator gives back the text.
pub proof fn law_split_join(s: Seq<char>, c: char)
    ensures
        join(split(s, c), seq![c]) == s,
{
    lemma_split_join_scan(s, c);
}

proof fn lemma_split_join_scan(s: Seq<char>, c: char)
    ensures
        join(crate::text::split_scan(s, c).0.push(crate::text::split_scan(s, c).1), seq![c]) == s,
    decreases s.len(),
{
    if s.len() > 0 {
        lemma_split_join_scan(s.drop_last(), c);
        let p = crate::text::split_scan(s.drop_last(), c);
        let q = crate::text::split_scan(s, c);
        let pp = p.0.push(p.1);
        let qq = q.0.push(q.1);
        if s.last() == c {
            assert(qq.drop_last() == pp);
            assert(q.1 =~= Seq::<char>::empty());
            if pp.len() == 1 {
                assert(join(pp, seq![c]) == pp[0]);
            }
            assert(join(qq, seq![c]) == join(pp, seq![c]) + seq![c] + Seq::<char>::empty());
            assert(s =~= s.drop_last() + seq![c]);
        } else {
            lemma_join_extend_last(p.0, p.1, seq![c], s.last());
            assert(s =~= s.drop_last().push(s.last()));
        }
    } else {
        assert(crate::text::split_scan(s, c).0.push(crate::text::split_scan(s, c).1) =~= seq![
            Seq::<char>::empty(),
        ]);
        assert(s =~= Seq::<char>::empty());
    }
}

proof fn lemma_join_extend_last(done: Seq<Seq<char>>, cur: Seq<char>, sep: Seq<char>, x: char)
    ensures
        join(done.push(cur.push(x)), sep) == join(done.push(cur), sep).push(x),
{
    let a = done.push(cur.push(x));
    let b = done.push(cur);
    assert(a.drop_last() == done);
    assert(b.drop_last() == done);
    if done.len() == 0 {
        assert(join(a, sep) == a[0]);
        assert(join(b, sep) == b[0]);
    } else {
        assert(join(a, sep) == join(done, sep) + sep + cur.push(x));
        assert(join(b, sep) == join(done, sep) + sep + cur);
        assert(join(done, sep) + sep + cur.push(x) =~= (join(done, sep) + sep + cur).push(x));
    }
}

/// The `SelfSubjectAccessReview` attributes that a proxy needs granted.
#[derive(Debug, Clone, PartialEq, Eq)]
pub struct AccessCheck {
    pub resource: String,
    pub verb: String,
    pub namespace: Option<String>,
    pub name: String,
}

/// What an ingress tunnel asks the cluster for.
#[derive(Debug, Clone, PartialEq, Eq)]
pub struct ProxyRequest {
    pub resource: Resource,
    pub namespace: Option<String>,
    pub name: String,
    /// The segments after the resource, joined with `/`, for messages.
    pub path: String,
    pub access: AccessCheck,
}

/// The format hint of a resource.
pub open spec fn format_hint(r: Resource) -> Seq<char> {
    match r {
        Resource::Nodes => "format is "@ + plural(r) + "/<name>"@,
        _ => "format is "@ + plural(r) + "/<namespace>/<name>"@,
    }
}

/// Nodes are not namespaced; pods and services are.
pub open spec fn namespaced(r: Resource) -> bool {
    r != Resource::Nodes
}

fn format_text(r: Resource) -> (s: String)
    ensures
        s@ == format_hint(r),
{
    let mut s = "format is ".to_owned();
    let p = plural_text(r);
    crate::text::push_str(&mut s, p.as_str());
    match r {
        Resource::Nodes => crate::text::push_str(&mut s, "/<name>"),
        _ => crate::text::push_str(&mut s, "/<namespace>/<name>"),
    }
    s
}

impl Host {
    /// The lookup that the endpoint asks for: the namespace (where the
    /// resource has one) and name segments, and the right to proxy that it
    /// needs (`create` on `<plural>/proxy`).
    pub fn request(&self) -> (r: Result<ProxyRequest, HostError>)
        requires
            self.segments@.len() > 0,
        ensures
            ({
                let args = self.segment_texts().drop_first();
                match r {
                    Ok(q) => {
                        &&& q.resource == self.resource
                        &&& q.path@ == join(args, "/"@)
                        &&& q.access.resource@ == plural(self.resource) + "/proxy"@
                        &&& q.access.verb@ == "create"@
                        &&& if namespaced(self.resource) {
                            &&& args.len() >= 2
                            &&& q.namespace matches Some(ns) && ns@ == args[0]
                            &&& q.name@ == args[1]
                        } else {
                            &&& args.len() >= 1
                            &&& q.namespace is None
                            &&& q.name@ == args[0]
                        }
                        &&& q.access.namespace == q.namespace
                        &&& q.access.name == q.name
                    },
                    Err(e) => if namespaced(self.resource) && args.len() == 0 {
                        e matches HostError::NamespaceMissing { format } && format@ == format_hint(
                            self.resource,
                        )
                    } else {
                        &&& (namespaced(self.resource) ==> args.len() == 1)
                        &&& (!namespaced(self.resource) ==> args.len() == 0)
                        &&& e matches HostError::NameMissing { format } && format@ == format_hint(
                            self.resource,
                        )
                    },
                }
            }),
    {
        let ghost segs = self.segment_texts();
        let mut args: Vec<String> = Vec::new();
        let mut i: usize = 1;
        while i < self.segments.len()
            invariant
                1 <= i <= self.segments.len(),
                segs == self.segment_texts(),
                args@.map_values(|s: String| s@) == segs.subrange(1, i as int),
            decreases self.segments.len() - i,
        {
            let ghost before = args@;
            let x = self.segments[i].clone();
            assert(x@ == segs[i as int]);
            args.push(x);
            assert(args@.map_values(|s: String| s@) =~= before.map_values(|s: String| s@).push(x@));
            assert(segs.subrange(1, i + 1) =~= segs.subrange(1, i as int).push(segs[i as int]));
            i = i + 1;
        }
        assert(segs.subrange(1, i as int) == segs.drop_first());
        let ghost av = args@.map_values(|s: String| s@);
        let path = join_strings(&args, "/");
        let is_node = match self.resource {
            Resource::Nodes => true,
            _ => false,
        };
        let (namespace, name) = if !is_node {
            if args.len() == 0 {
                return Err(HostError::NamespaceMissing { format: format_text(self.resource) });
            }
            if args.len() == 1 {
                return Err(HostError::NameMissing { format: format_text(self.resource) });
            }
            assert(av[0] == args@[0]@ && av[1] == args@[1]@);
            (Some(args[0].clone()), args[1].clone())
        } else {
            if args.len() == 0 {
                return Err(HostError::NameMissing { format: format_text(self.resource) });
            }
            assert(av[0] == args@[0]@);
            (None, args[0].clone())
        };
        let mut res = plural_text(self.resource);
        crate::text::push_str(&mut res, "/proxy");
        let access = AccessCheck {
            resource: res,
            verb: "create".to_owned(),
            namespace: match &namespace {
                Some(n) => Some(n.clone()),
                None => None,
            },
            name: name.clone(),
        };
        Ok(ProxyRequest { resource: self.resource, namespace, name, path, access })
    }
}

/// The address of a service: `<name>.<namespace>.svc`.
pub fn service_host(name: &str, namespace: &str) -> (s: String)
    ensures
        s@ == name@ + "."@ + namespace@ + "."@ + "svc"@,
{
    let mut s = name.to_owned();
    crate::text::push_str(&mut s, ".");
    crate::text::push_str(&mut s, namespace);
    crate::text::push_str(&mut s, ".");
    crate::text::push_str(&mut s, "svc");
    s
}

/// The address of the first `InternalIP` among a node's addresses, given as
/// `(type, address)` pairs.
pub open spec fn internal_ip(addresses: Seq<(String, String)>) -> Option<Seq<char>>
    decreases addresses.len(),
{
    if addresses.len() == 0 {
        None
    } else {
        match internal_ip(addresses.drop_last()) {
            Some(a) => Some(a),
            None => if addresses.last().0@ == "InternalIP"@ {
                Some(addresses.last().1@)
            } else {
                None
            },
        }
    }
}

/// The internal address of a node.
pub fn node_internal_ip(addresses: &Vec<(String, String)>) -> (r: Option<String>)
    ensures
        match r {
            Some(a) => internal_ip(addresses@) == Some(a@),
            None => internal_ip(addresses@) is None,
        },
{
    let mut i: usize = 0;
    while i < addresses.len()
        invariant
            i <= addresses.len(),
            internal_ip(addresses@.take(i as int)) is None,
        decreases addresses.len() - i,
    {
        assert(addresses@.take(i + 1).drop_last() == addresses@.take(i as int));
        if same_text(addresses[i].0.as_str(), "InternalIP") {
            proof {
                lemma_internal_ip_at(addresses@, i as int);
            }
            return Some(addresses[i].1.clone());
        }
        i = i + 1;
    }
    assert(addresses@.take(i as int) == addresses@);
    None
}

proof fn lemma_internal_ip_at(a: Seq<(String, String)>, i: int)
    requires
        0 <= i < a.len(),
        a[i].0@ == "InternalIP"@,
        internal_ip(a.take(i)) is None,
    ensures
        internal_ip(a) == Some(a[i].1@),
    decreases a.len(),
{
    if a.len() > i + 1 {
        assert(a.drop_last().take(i) == a.take(i));
        lemma_internal_ip_at(a.drop_last(), i);
    } else {
        assert(a.drop_last() == a.take(i));
    }
}

/// The service that an egress tunnel publishes: `<namespace>/<name>`, cut at
/// the first `/`.
pub fn parse_service(service: &str) -> (r: Result<(String, String), HostError>)
    ensures
        match r {
            Ok((ns, name)) => {
                let i = first_index(service@, '/');
                &&& i >= 0
                &&& ns@ == service@.take(i)
                &&& name@ == service@.skip(i + 1)
            },
            Err(e) => first_index(service@, '/') < 0 && e == HostError::ServiceFormat,
        },
{
    let v = to_chars(service);
    match find_first(&v, '/') {
        Some(i) => {
            proof {
                lemma_first_index(v@, '/');
            }
            assert(i < v.len());
            let ns = substring(&v, 0, i);
            let rest = tail(&v, i + 1);
            assert(v@.take(i as int) == v@.subrange(0, i as int));
            Ok((ns, crate::text::from_chars(rest.as_slice())))
        },
        None => Err(HostError::ServiceFormat),
    }
}

/// The path of an egress service: `<namespace>/<name>`.
pub fn service_path(namespace: &str, name: &str) -> (s: String)
    ensures
        s@ == namespace@ + "/"@ + name@,
{
    let mut s = namespace.to_owned();
    crate::text::push_str(&mut s, "/");
    crate::text::push_str(&mut s, name);
    s
}

/// Whether a proxy is allowed, from the review's answer (`None` where the
/// review came back without a status): only an explicit grant allows.
pub fn proxy_allowed(allowed: Option<bool>) -> (b: bool)
    ensures
        b == (allowed == Some(true)),
{
    match allowed {
        Some(true) => true,
        _ => false,
    }
}

/// What looking up the object behind a tunnel came to.
pub enum Lookup<T> {
    /// The object, as much of it as the address needs.
    Found(T),
    NotFound,
    /// The lookup was refused (`403`).
    Forbidden,
    /// The lookup failed; the text says why.
    Failed(String),
}

/// Why an ingress tunnel has no address to connect to. Each carries the
/// tunnel's path (the segments after the resource, joined with `/`) or the
/// resource's plural name (`resource`), which the messages name.
#[derive(Debug, Clone, PartialEq, Eq)]
pub enum AddressError {
    /// The user may not proxy to the object: `create` on
    /// `<resource>/proxy` is to be granted.
    ProxyForbidden { path: String, resource: String },
    NotFound { path: String },
    /// The user may not get the object: `get` on `<resource>` is to be
    /// granted.
    GetForbidden { path: String, resource: String },
    LookupFailed { resource: String, cause: String },
    /// A pod without a status.
    NotRunning { path: String },
    /// A pod without an IP.
    NoIp { path: String },
    /// A node without a status.
    MissingStatus { path: String },
    /// A node without addresses.
    MissingAddresses { path: String },
    /// A node without an internal IP.
    MissingInternalIp { path: String },
}

/// Whether `e` is the error of a lookup that did not find the object.
pub open spec fn is_lookup_error<T>(q: ProxyRequest, lookup: Lookup<T>, e: AddressError) -> bool {
    match lookup {
        Lookup::Found(_) => false,
        Lookup::NotFound => e == AddressError::NotFound { path: q.path },
        Lookup::Forbidden => e matches AddressError::GetForbidden { path, resource } && path == q.path
            && resource@ == plural(q.resource),
        Lookup::Failed(cause) => e matches AddressError::LookupFailed { resource, cause: c } && c == cause
            && resource@ == plural(q.resource),
    }
}

/// Whether `e` refuses the proxy itself.
pub open spec fn is_proxy_forbidden(q: ProxyRequest, e: AddressError) -> bool {
    e matches AddressError::ProxyForbidden { path, resource } && path == q.path && resource@ == plural(
        q.resource,
    )
}

fn copy_request_path(q: &ProxyRequest) -> (r: String)
    ensures
        r == q.path,
{
    q.path.clone()
}

fn proxy_forbidden(q: &ProxyRequest) -> (e: AddressError)
    ensures
        is_proxy_forbidden(*q, e),
{
    AddressError::ProxyForbidden { path: copy_request_path(q), resource: plural_text(q.resource) }
}

fn lookup_failure<T>(q: &ProxyRequest, lookup: Lookup<T>) -> (r: Result<T, AddressError>)
    ensures
        match lookup {
            Lookup::Found(x) => r == Ok::<T, AddressError>(x),
            _ => r matches Err(e) && is_lookup_error(*q, lookup, e),
        },
{
    match lookup {
        Lookup::Found(x) => Ok(x),
        Lookup::NotFound => Err(AddressError::NotFound { path: copy_request_path(q) }),
        Lookup::Forbidden => Err(AddressError::GetForbidden { path: copy_request_path(q), resource: plural_text(q.resource) }),
        Lookup::Failed(cause) => Err(AddressError::LookupFailed { resource: plural_text(q.resource), cause }),
    }
}

/// The address of a pod: its IP, once proxying is allowed and the pod was
/// found with a status (`pod_ip` is `Some` where the pod has one) and an IP.
pub fn pod_address(q: &ProxyRequest, allowed: bool, lookup: Lookup<Option<Option<String>>>) -> (r: Result<String, AddressError>)
    ensures
        !allowed ==> (r matches Err(e) && is_proxy_forbidden(*q, e)),
        allowed ==> match lookup {
            Lookup::Found(None) => r == Err::<String, AddressError>(AddressError::NotRunning { path: q.path }),
            Lookup::Found(Some(None)) => r == Err::<String, AddressError>(AddressError::NoIp { path: q.path }),
            Lookup::Found(Some(Some(ip))) => r == Ok::<String, AddressError>(ip),
            _ => r matches Err(e) && is_lookup_error(*q, lookup, e),
        },
{
    if !allowed {
        return Err(proxy_forbidden(q));
    }
    match lookup_failure(q, lookup) {
        Ok(None) => Err(AddressError::NotRunning { path: copy_request_path(q) }),
        Ok(Some(None)) => Err(AddressError::NoIp { path: copy_request_path(q) }),
        Ok(Some(Some(ip))) => Ok(ip),
        Err(e) => Err(e),
    }
}

/// The address of a service: `<name>.<namespace>.svc`, once proxying is
/// allowed and the service was found.
pub fn service_address(q: &ProxyRequest, allowed: bool, lookup: Lookup<()>) -> (r: Result<String, AddressError>)
    requires
        q.namespace is Some,
    ensures
        !allowed ==> (r matches Err(e) && is_proxy_forbidden(*q, e)),
        allowed ==> match lookup {
            Lookup::Found(_) => r matches Ok(a) && a@ == q.name@ + "."@ + q.namespace.unwrap()@ + "."@ + "svc"@,
            _ => r matches Err(e) && is_lookup_error(*q, lookup, e),
        },
{
    if !allowed {
        return Err(proxy_forbidden(q));
    }
    match lookup_failure(q, lookup) {
        Ok(()) => {
            let ns = match &q.namespace {
                Some(n) => n.as_str(),
                None => "",
            };
            Ok(service_host(q.name.as_str(), ns))
        },
        Err(e) => Err(e),
    }
}

/// The address of a node: its first internal IP, once proxying is allowed
/// and the node was found with a status and addresses (`(type, address)`
/// pairs).
pub fn node_address(q: &ProxyRequest, allowed: bool, lookup: Lookup<Option<Option<Vec<(String, String)>>>>) -> (r: Result<String, AddressError>)
    ensures
        !allowed ==> (r matches Err(e) && is_proxy_forbidden(*q, e)),
        allowed ==> match lookup {
            Lookup::Found(None) => r == Err::<String, AddressError>(AddressError::MissingStatus { path: q.path }),
            Lookup::Found(Some(None)) => r == Err::<String, AddressError>(AddressError::MissingAddresses { path: q.path }),
            Lookup::Found(Some(Some(addrs))) => match internal_ip(addrs@) {
                Some(ip) => r matches Ok(a) && a@ == ip,
                None => r == Err::<String, AddressError>(AddressError::MissingInternalIp { path: q.path }),
            },
            _ => r matches Err(e) && is_lookup_error(*q, lookup, e),
        },
{
    if !allowed {
        return Err(proxy_forbidden(q));
    }
    match lookup_failure(q, lookup) {
        Ok(None) => Err(AddressError::MissingStatus { path: copy_request_path(q) }),
        Ok(Some(None)) => Err(AddressError::MissingAddresses { path: copy_request_path(q) }),
        Ok(Some(Some(addrs))) => match node_internal_ip(&addrs) {
            Some(ip) => Ok(ip),
            None => Err(AddressError::MissingInternalIp { path: copy_request_path(q) }),
        },
        Err(e) => Err(e),
    }
}

/// The singular name of a resource.
pub open spec fn singular(r: Resource) -> Seq<char> {
    match r {
        Resource::Pods => "pod"@,
        Resource::Services => "service"@,
        Resource::Nodes => "node"@,
    }
}

/// The short name of a resource.
pub open spec fn short_name(r: Resource) -> Seq<char> {
    match r {
        Resource::Pods => "po"@,
        Resource::Services => "svc"@,
        Resource::Nodes => "no"@,
    }
}

/// Each kubectl name of a supported resource reads as it: the plural, the
/// singular and the short name.
pub proof fn law_resource_names(r: Resource)
    ensures
        resource_of(plural(r)) == Some(r),
        resource_of(singular(r)) == Some(r),
        resource_of(short_name(r)) == Some(r),
{
    reveal_strlit("pods");
    reveal_strlit("pod");
    reveal_strlit("po");
    reveal_strlit("services");
    reveal_strlit("service");
    reveal_strlit("svc");
    reveal_strlit("nodes");
    reveal_strlit("node");
    reveal_strlit("no");
    assert("pods"@.len() == 4 && "pod"@.len() == 3 && "po"@.len() == 2);
    assert("services"@.len() == 8 && "service"@.len() == 7 && "svc"@.len() == 3);
    assert("nodes"@.len() == 5 && "node"@.len() == 4 && "no"@.len() == 2);
    assert("node"@[0] != "pods"@[0]);
    assert("no"@[0] != "po"@[0]);
    assert("svc"@[0] != "pod"@[0]);
}

/// Only the kubectl names of the supported resources are read: a name that
/// reads as a resource is its plural, its singular or its short name.
pub proof fn law_only_resource_names(name: Seq<char>)
    ensures
        resource_of(name) matches Some(r) ==> (name == plural(r) || name == singular(r) || name == short_name(r)),
{
}

} // verus!
