use kty::refs::{Binding, Claim, References, Slice};
use kty::cli::{
    ends_input, namespace_or, shown_rule, Authz, AuthzError, AuthzPlan, Cmd, GraphStep, Install,
    InstallStep, Shell,
};
use kty::egress::{CurrentPod, Egress};
use kty::events::Keypress;
use kty::graph::{
    account_ref, binds_account, claimed_volume, labelled_service, role_target, roots, serves_pod,
    volume_link, RefKind, Subject, VolumeLink, VolumeSource,
};
use kty::identity::{
    kube_id_text, login_allowed, login_event, pods_list_review, Check, GetGv, Grant, GrantOutput, Identity, KeyRecord, KubeID, UserSpec,
    key_usable,
};
use kty::install::{create_step, creation_outcome, key_patch, namespace_patches, safe_name, CreateStep};
use kty::openid::{code_form, retry_times, token_form, Config};
use kty::proxy::{
    node_address, node_internal_ip, parse_service, pod_address, proxy_allowed, service_address,
    service_host, service_path, AddressError, Host, HostError, Lookup, Resource,
};
use kty::status::{ApiStatus, StatusError, StatusExt};
use kty::wipe::{axis, finished, region, window, Area, Start};

#[test]
fn object_names_dash_and_lowercase() {
    assert_eq!(kube_id_text("kty:Dev@Example.com").ok().unwrap(), "kty-dev-example-com");
    assert_eq!("SHA256:abc/DEF+1".to_string().kube_id().ok().unwrap(), "sha256-abc-def-1");
    assert_eq!(UserSpec { id: "a.b@c".to_string() }.kube_id().ok().unwrap(), "a-b-c");
    assert_eq!(safe_name("role-binding.yaml"), "role-binding-yaml");
    assert_eq!(safe_name("Key_YAML"), "key-yaml");
    for s in ["Hello World", "x/y:z", "plain", ""] {
        assert_eq!(kube_id_text(s).ok().unwrap(), safe_name(s));
    }
}

#[test]
fn api_versions_split_into_group_and_version() {
    assert_eq!("apps/v1".to_string().gv(), ("apps".to_string(), "v1".to_string()));
    assert_eq!("v1".to_string().gv(), (String::new(), "v1".to_string()));
    assert_eq!("a/b/c".to_string().gv(), ("a".to_string(), "b/c".to_string()));
}

#[test]
fn grants_bind_a_cluster_role_to_a_user() {
    let g = Grant { role: "kty-ro".to_string(), id: "me@x.io".to_string(), output: Some(GrantOutput::Yaml) };
    let b = g.binding().ok().unwrap();
    assert_eq!(b.name, "kty-me-x-io");
    assert_eq!(b.role_kind, "ClusterRole");
    assert_eq!(b.role, "kty-ro");
    assert_eq!(b.subject_kind, "User");
    assert_eq!(b.subject, "me@x.io");
    assert!(g.shows_yaml());
    let apply = Grant { output: None, ..g };
    assert!(!apply.shows_yaml());
    let c = Check { id: "me".to_string(), groups: vec!["g".to_string()] };
    let i = c.identity();
    assert_eq!((i.name.as_str(), i.groups.len()), ("me", 1));
}

#[test]
fn keys_expire_and_carry_their_identity() {
    let id = Identity::new("me".to_string(), vec!["dev".to_string()]);
    let k = KeyRecord::from_identity("SHA256:AbC".to_string(), &id, 100).ok().unwrap();
    assert_eq!(k.name, "sha256-abc");
    assert_eq!(k.user, "me");
    assert!(!k.expired(100));
    assert!(k.expired(101));
    assert_eq!(k.identity().groups, vec!["dev".to_string()]);
    assert!(key_usable(&Some(KeyRecord::from_identity("f".to_string(), &id, 50).ok().unwrap()), 10));
    assert!(!key_usable(&Some(k), 500));
    assert!(!key_usable(&None, 0));
}

#[test]
fn statuses_report_their_message() {
    let ok = ApiStatus { status: Some("Success".to_string()), message: None };
    assert!(ok.is_success());
    let failed = ApiStatus {
        status: Some("Failure".to_string()),
        message: Some("error executing command: exit code 1: not found".to_string()),
    };
    assert!(!failed.is_success());
    let r = failed.into_report();
    assert_eq!(r.headline, "not found");
    assert_eq!(r.raw, "error executing command\n├─ exit code 1\n└─ not found");
    let single = ApiStatus { status: None, message: Some(" only ".to_string()) }.into_report();
    assert_eq!((single.headline.as_str(), single.raw.as_str()), ("only", "only"));
    let none = ApiStatus { status: None, message: None }.into_report();
    assert_eq!(none.headline, "unknown status");
    let many = ApiStatus { status: None, message: Some("a:b:c:d:e:f:g:h:i".to_string()) }.into_report();
    assert_eq!(many.headline, "h:i");
    let e = StatusError::new(ApiStatus { status: None, message: Some("a : b:c".to_string()) });
    assert_eq!(e.to_text(), Some("a\nb\nc".to_string()));
    assert_eq!(StatusError::new(ApiStatus { status: None, message: None }).to_text(), None);
}

#[test]
fn command_line_decisions() {
    let list = Authz { user: "u".to_string(), list: true, namespace: None };
    assert!(matches!(list.plan(), Err(AuthzError::NamespaceRequired)));
    let list_ns = Authz { namespace: Some("ns".to_string()), ..list };
    assert!(matches!(list_ns.plan(), Ok(AuthzPlan::ListRules { namespace }) if namespace == "ns"));
    let review = Authz { user: "u".to_string(), list: false, namespace: None };
    assert!(matches!(review.plan(), Ok(AuthzPlan::Review { namespace: None })));
    assert!(shown_rule(&Some(vec!["pods".to_string()])));
    assert!(!shown_rule(&Some(vec!["pods".to_string(), "selfsubjectreviews".to_string()])));
    assert!(!shown_rule(&None));
    assert_eq!(Cmd::step(0, &Keypress::CursorLeft), GraphStep::Show(0));
    assert_eq!(Cmd::step(4, &Keypress::CursorRight), GraphStep::Show(5));
    assert_eq!(Cmd::step(usize::MAX, &Keypress::CursorRight), GraphStep::Show(usize::MAX));
    assert_eq!(Cmd::step(4, &Keypress::Escape), GraphStep::Quit);
    assert_eq!(Cmd::step(4, &Keypress::Enter), GraphStep::Show(4));
    assert_eq!(Cmd::shown(7, 3), 1);
    let ok = Some(ApiStatus { status: Some("Success".to_string()), message: None });
    let bad = Some(ApiStatus { status: Some("Failure".to_string()), message: None });
    assert!(Shell::succeeded(&ok));
    assert!(!Shell::succeeded(&bad));
    assert!(Shell::succeeded(&None));
    assert!(ends_input(&Some(Keypress::Control('c'))));
    assert!(!ends_input(&Some(Keypress::EndOfText)));
    assert!(matches!(Install { dry_run: true, namespace: None }.step(), InstallStep::Print));
    assert!(matches!(Install { dry_run: false, namespace: None }.step(), InstallStep::Apply));
    assert_eq!(namespace_or(&None, "default".to_string()), "default");
    assert_eq!(namespace_or(&Some("kty".to_string()), "default".to_string()), "kty");
}

#[test]
fn openid_requests() {
    let c = Config::new("https://t".to_string(), "https://d".to_string(), "https://k".to_string());
    assert_eq!(c.token_endpoint(), "https://t");
    assert_eq!(c.device_authorization_endpoint(), "https://d");
    assert_eq!(c.jwks_uri(), "https://k");
    let form = code_form("client", "aud");
    assert_eq!(form[1], ("scope".to_string(), "openid email".to_string()));
    let token = token_form("client", "dev-code");
    assert_eq!(token[1], ("device_code".to_string(), "dev-code".to_string()));
    assert_eq!(token[2].1, "urn:ietf:params:oauth:grant-type:device_code");
    assert_eq!(retry_times(5), 120);
    assert_eq!(retry_times(7), 85);
}

#[test]
fn install_patches_move_definitions_into_a_namespace() {
    let names = vec!["service.yaml".to_string(), "binding.yaml".to_string()];
    let p = namespace_patches(&names, "kty");
    assert_eq!(p.len(), 3);
    assert_eq!((p[0].op.as_str(), p[0].path.as_str(), p[0].value.as_str()), ("add", "/service-yaml/metadata/namespace", "kty"));
    assert_eq!(p[2].op, "replace");
    assert_eq!(p[2].path, "/binding-yaml/subjects/0/namespace");
    let k = key_patch("c2VjcmV0".to_string());
    assert_eq!((k.op.as_str(), k.path.as_str(), k.value.as_str()), ("add", "/key-yaml/data/id_ed25519", "c2VjcmV0"));
}

#[test]
fn pod_graph_links() {
    let role = role_target("Role", "reader", "ns");
    assert_eq!((role.kind, role.namespace.as_deref()), (RefKind::Role, Some("ns")));
    let cluster = role_target("ClusterRole", "admin", "ns");
    assert_eq!((cluster.kind, cluster.namespace), (RefKind::ClusterRole, None));
    let subjects = Some(vec![
        Subject { kind: "User".to_string(), name: "builder".to_string() },
        Subject { kind: "ServiceAccount".to_string(), name: "builder".to_string() },
    ]);
    assert!(binds_account(&subjects, "builder"));
    assert!(!binds_account(&subjects, "other"));
    assert!(!binds_account(&None, "builder"));
    let ns = Some("default".to_string());
    let secret = VolumeSource { config_map: None, secret: Some(None), claim: None };
    assert!(matches!(volume_link(&secret, &ns), VolumeLink::Object(o) if o.kind == RefKind::Secret && o.name.is_empty()));
    let both = VolumeSource { config_map: Some("cm".to_string()), secret: Some(Some("s".to_string())), claim: None };
    assert!(matches!(volume_link(&both, &ns), VolumeLink::Object(o) if o.kind == RefKind::ConfigMap && o.name == "cm"));
    let claim = VolumeSource { config_map: None, secret: None, claim: Some("data".to_string()) };
    assert!(matches!(volume_link(&claim, &ns), VolumeLink::Claim(n) if n == "data"));
    let none = VolumeSource { config_map: None, secret: None, claim: None };
    assert!(matches!(volume_link(&none, &ns), VolumeLink::Skip));
    assert_eq!(claimed_volume(&Some("pv-1".to_string()), &ns).map(|o| o.kind), Some(RefKind::PersistentVolume));
    assert!(claimed_volume(&None, &ns).is_none());
    let uid = Some("u-1".to_string());
    assert!(serves_pod(&vec![None, Some(Some("u-1".to_string()))], &uid));
    assert!(!serves_pod(&vec![None, Some(None)], &uid));
    assert!(serves_pod(&vec![Some(None)], &None));
    let labels = vec![
        ("app".to_string(), "web".to_string()),
        ("kubernetes.io/service-name".to_string(), "web-svc".to_string()),
    ];
    assert_eq!(labelled_service(&labels, &ns).map(|o| o.name), Some("web-svc".to_string()));
    assert!(labelled_service(&vec![], &ns).is_none());
    let r = roots("default", &Some("node-1".to_string()));
    assert_eq!((r.len(), r[0].kind, r[1].kind), (2, RefKind::Namespace, RefKind::Node));
    assert_eq!(roots("default", &None).len(), 1);
    assert!(matches!(account_ref(&Some("sa".to_string()), &ns), Some(o) if o.kind == RefKind::ServiceAccount));
}

#[test]
fn egress_publishes_a_service() {
    let id = Identity::new("me@x.io".to_string(), vec![]);
    assert_eq!(Egress::new("nope", 80, &id, "kty-0").err(), Some(HostError::ServiceFormat));
    let e = Egress::new("default/web", 8080, &id, "kty-0").ok().unwrap();
    assert_eq!(e.path(), "default/web");
    assert_eq!(e.to_text(), "Host[default/web:8080] User[me@x.io]");
    assert_eq!(e.annotations[0], ("egress.kty.dev/host".to_string(), "kty-0".to_string()));
    assert_eq!(e.annotations[1], ("egress.kty.dev/identity".to_string(), "me@x.io".to_string()));
    let s = e.service(40_000);
    assert_eq!((s.port, s.target_port, s.service_type.as_str()), (8080, 40_000, "ClusterIP"));
    let server = CurrentPod {
        namespace: "kty".to_string(),
        name: "server-0".to_string(),
        uid: "u-1".to_string(),
        addr: "fd00::7".to_string(),
    };
    let ep = e.endpoint(&server, false, 40_000);
    assert_eq!((ep.namespace.as_str(), ep.name.as_str()), ("default", "web"));
    assert_eq!(ep.address_type, "IPv6");
    assert_eq!(ep.labels[1], ("kubernetes.io/service-name".to_string(), "web".to_string()));
    assert_eq!(ep.addresses, vec!["fd00::7".to_string()]);
    assert_eq!(
        (ep.target.api_version.as_str(), ep.target.kind.as_str(), ep.target.namespace.as_str(), ep.target.name.as_str(), ep.target.uid.as_str()),
        ("v1", "Pod", "kty", "server-0", "u-1")
    );
    assert!(ep.ready && ep.serving && !ep.terminating);
    assert_eq!(ep.port, 40_000);
    assert_eq!(e.endpoint(&server, true, 1).address_type, "IPv4");
}

#[test]
fn tunnel_hosts_name_resources() {
    let h = Host::new("po/default/web").ok().unwrap();
    assert_eq!(h.resource, Resource::Pods);
    assert_eq!(h.to_text(), "po/default/web");
    let q = h.request().ok().unwrap();
    assert_eq!((q.namespace.as_deref(), q.name.as_str()), (Some("default"), "web"));
    assert_eq!(q.access.resource, "pods/proxy");
    assert_eq!(q.access.verb, "create");
    assert_eq!(Host::new("deployments/x/y").err(), Some(HostError::NotSupported));
    assert_eq!(
        Host::new("svc").ok().unwrap().request().err(),
        Some(HostError::NamespaceMissing { format: "format is services/<namespace>/<name>".to_string() })
    );
    assert_eq!(
        Host::new("svc/ns").ok().unwrap().request().err(),
        Some(HostError::NameMissing { format: "format is services/<namespace>/<name>".to_string() })
    );
    assert_eq!(
        Host::new("nodes").ok().unwrap().request().err(),
        Some(HostError::NameMissing { format: "format is nodes/<name>".to_string() })
    );
    let n = Host::new("no/worker-1").ok().unwrap().request().ok().unwrap();
    assert_eq!((n.namespace, n.name.as_str()), (None, "worker-1"));
    assert_eq!(service_host("web", "default"), "web.default.svc");
    assert_eq!(parse_service("ns/name").ok(), Some(("ns".to_string(), "name".to_string())));
    assert_eq!(service_path("ns", "name"), "ns/name");
    let addrs = vec![
        ("Hostname".to_string(), "worker-1".to_string()),
        ("InternalIP".to_string(), "10.0.0.5".to_string()),
        ("InternalIP".to_string(), "10.0.0.6".to_string()),
    ];
    assert_eq!(node_internal_ip(&addrs), Some("10.0.0.5".to_string()));
    assert_eq!(node_internal_ip(&vec![]), None);
}

#[test]
fn wipes_uncover_the_new_screen() {
    let area = Area { x: 2, y: 1, width: 10, height: 4 };
    assert_eq!(Start::default(), Start::Right);
    assert_eq!(axis(Start::Left, area), 10);
    assert_eq!(axis(Start::Top, area), 4);
    assert_eq!(window(12, 10), 10);
    assert_eq!(window(3, 10), 3);
    assert!(finished(10, 10));
    assert!(!finished(3, 10));
    let l = region(Start::Left, area, 3);
    assert_eq!((l.rows, l.cols), ((1, 5), (5, 12)));
    let r = region(Start::Right, area, 3);
    assert_eq!(r.cols, (2, 9));
    let t = region(Start::Top, area, 1);
    assert_eq!(t.rows, (2, 5));
    let b = region(Start::Bottom, area, 4);
    assert_eq!(b.rows, (1, 1));
}

#[test]
fn tunnel_addresses_come_from_the_looked_up_object() {
    let pod = Host::new("pods/default/web").ok().unwrap().request().ok().unwrap();
    let path = "default/web".to_string();
    assert_eq!(
        pod_address(&pod, false, Lookup::Found(Some(Some("10.0.0.1".to_string())))),
        Err(AddressError::ProxyForbidden { path: path.clone(), resource: "pods".to_string() })
    );
    assert_eq!(pod_address(&pod, true, Lookup::Found(Some(Some("10.0.0.1".to_string())))), Ok("10.0.0.1".to_string()));
    assert_eq!(pod_address(&pod, true, Lookup::Found(None)), Err(AddressError::NotRunning { path: path.clone() }));
    assert_eq!(pod_address(&pod, true, Lookup::Found(Some(None))), Err(AddressError::NoIp { path: path.clone() }));
    assert_eq!(pod_address(&pod, true, Lookup::NotFound), Err(AddressError::NotFound { path: path.clone() }));
    assert_eq!(
        pod_address(&pod, true, Lookup::Forbidden),
        Err(AddressError::GetForbidden { path: path.clone(), resource: "pods".to_string() })
    );
    assert_eq!(
        pod_address(&pod, true, Lookup::Failed("boom".to_string())),
        Err(AddressError::LookupFailed { resource: "pods".to_string(), cause: "boom".to_string() })
    );
    let svc = Host::new("svc/default/web").ok().unwrap().request().ok().unwrap();
    assert_eq!(service_address(&svc, true, Lookup::Found(())), Ok("web.default.svc".to_string()));
    let node = Host::new("nodes/worker-1").ok().unwrap().request().ok().unwrap();
    let addrs = vec![("ExternalIP".to_string(), "1.2.3.4".to_string()), ("InternalIP".to_string(), "10.0.0.9".to_string())];
    assert_eq!(node_address(&node, true, Lookup::Found(Some(Some(addrs)))), Ok("10.0.0.9".to_string()));
    assert_eq!(
        node_address(&node, true, Lookup::Found(Some(Some(vec![])))),
        Err(AddressError::MissingInternalIp { path: "worker-1".to_string() })
    );
    assert_eq!(node_address(&node, true, Lookup::Found(None)), Err(AddressError::MissingStatus { path: "worker-1".to_string() }));
    assert_eq!(node_address(&node, true, Lookup::Found(Some(None))), Err(AddressError::MissingAddresses { path: "worker-1".to_string() }));
    assert!(proxy_allowed(Some(true)));
    assert!(!proxy_allowed(None));
    assert!(!proxy_allowed(Some(false)));
}

#[test]
fn access_reviews() {
    let r = pods_list_review(Some("ns".to_string()));
    assert_eq!((r.resource.as_str(), r.verb.as_str(), r.namespace.as_deref()), ("pods", "list", Some("ns")));
    assert!(!login_allowed(None));
    assert!(login_allowed(Some(true)));
    assert!(!login_allowed(Some(false)));
    let e = login_event("publickey");
    assert_eq!((e.action.as_str(), e.reason.as_str(), e.note.as_str()), ("Authenticated", "Login", "method publickey"));
    let id = Identity::new("me".to_string(), vec![]);
    assert_eq!(id.impersonation(), ("me".to_string(), None));
    let grouped = Identity::new("me".to_string(), vec!["g".to_string()]);
    assert_eq!(grouped.impersonation().1, Some(vec!["g".to_string()]));
}

#[test]
fn creating_definitions_reports_all_failures() {
    let all_made: Vec<Result<u8, &str>> = vec![Ok(1), Ok(2)];
    assert_eq!(creation_outcome(all_made), Ok(vec![1, 2]));
    let some_failed: Vec<Result<u8, &str>> = vec![Ok(1), Err("a"), Ok(2), Err("b")];
    assert_eq!(creation_outcome(some_failed), Err(vec!["a", "b"]));
    assert_eq!(creation_outcome(Vec::<Result<u8, &str>>::new()), Ok(vec![]));
    assert!(matches!(create_step(true), CreateStep::Apply));
    assert!(matches!(create_step(false), CreateStep::Create));
}

#[test]
fn ingress_to_a_service_as_documented() {
    let h = Host::new("service/default/remote-service").ok().unwrap();
    assert_eq!(h.resource, Resource::Services);
    let q = h.request().ok().unwrap();
    assert_eq!((q.namespace.as_deref(), q.name.as_str()), (Some("default"), "remote-service"));
    assert_eq!(service_host(q.name.as_str(), "default"), "remote-service.default.svc");
    let n = Host::new("no/my-node").ok().unwrap().request().ok().unwrap();
    assert_eq!((n.resource, n.namespace, n.name.as_str()), (Resource::Nodes, None, "my-node"));
}

fn obj(kind: kty::graph::RefKind, name: &str, ns: Option<&str>) -> kty::graph::ObjectRef {
    kty::graph::ObjectRef {
        kind,
        name: name.to_string(),
        namespace: ns.map(|n| n.to_string()),
        uid: None,
        owner_kind: None,
    }
}

#[test]
fn a_pod_graph_links_what_the_pod_uses() {
    let mut pod = obj(RefKind::Pod, "web-0", Some("ns"));
    pod.uid = Some("u-1".to_string());
    let mut refs = References::new(pod);
    let owner = kty::graph::ObjectRef {
        kind: RefKind::Owner,
        name: "web".to_string(),
        namespace: Some("ns".to_string()),
        uid: Some("u-0".to_string()),
        owner_kind: Some("StatefulSet".to_string()),
    };
    let root = refs.root();
    assert_eq!(refs.edge_from(owner, root), 1);
    refs.link_roots("ns", &Some("node-1".to_string()));
    let bindings = vec![
        Binding {
            object: obj(RefKind::RoleBinding, "rb", Some("ns")),
            subjects: Some(vec![Subject { kind: "ServiceAccount".to_string(), name: "sa".to_string() }]),
            role_kind: "Role".to_string(),
            role_name: "reader".to_string(),
        },
        Binding {
            object: obj(RefKind::ClusterRoleBinding, "other", None),
            subjects: Some(vec![Subject { kind: "User".to_string(), name: "sa".to_string() }]),
            role_kind: "ClusterRole".to_string(),
            role_name: "admin".to_string(),
        },
    ];
    refs.link_auth(&Some("sa".to_string()), "ns", &bindings);
    let slices = vec![
        Slice {
            object: obj(RefKind::EndpointSlice, "web-abc", Some("ns")),
            targets: vec![None, Some(Some("u-1".to_string()))],
            labels: vec![("kubernetes.io/service-name".to_string(), "web".to_string())],
        },
        Slice { object: obj(RefKind::EndpointSlice, "db-abc", Some("ns")), targets: vec![Some(Some("u-9".to_string()))], labels: vec![] },
    ];
    let ns = Some("ns".to_string());
    refs.link_network(&Some("u-1".to_string()), &ns, &slices);
    let volumes = vec![
        VolumeSource { config_map: Some("cm".to_string()), secret: None, claim: None },
        VolumeSource { config_map: None, secret: None, claim: Some("data".to_string()) },
    ];
    let claims = vec![None, Some(Claim { object: obj(RefKind::PersistentVolumeClaim, "data", Some("ns")), volume_name: Some("pv-1".to_string()) })];
    refs.link_volumes(&ns, &volumes, &claims);
    assert_eq!(refs.counts(), (12, 11));
    let g = refs.graph();
    let names: Vec<String> = g.raw_nodes().iter().map(|n| format!("{:?}/{}", n.weight.kind, n.weight.name)).collect();
    assert_eq!(
        names,
        vec![
            "Pod/web-0", "Owner/web", "Namespace/ns", "Node/node-1", "ServiceAccount/sa", "RoleBinding/rb", "Role/reader",
            "EndpointSlice/web-abc", "Service/web", "ConfigMap/cm", "PersistentVolumeClaim/data", "PersistentVolume/pv-1",
        ]
    );
    let edges: Vec<(usize, usize)> = g.raw_edges().iter().map(|e| (e.source().index(), e.target().index())).collect();
    assert_eq!(edges, vec![(1, 0), (2, 0), (3, 0), (0, 4), (4, 5), (5, 6), (0, 7), (7, 8), (0, 9), (0, 10), (10, 11)]);
}
