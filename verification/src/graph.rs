//! The objects a pod is connected to: its namespace and node, the roles
//! bound to its service account, the services in front of it and the
//! volumes it mounts.
use vstd::prelude::*;
use crate::listing::opt_view;
use crate::text::same_text;

verus! {

/// The kinds of object that a pod's graph links to.
#[derive(Debug, Clone, Copy, PartialEq, Eq, Structural)]
pub enum RefKind {
    Pod,
    Namespace,
    Node,
    ServiceAccount,
    RoleBinding,
    ClusterRoleBinding,
    Role,
    ClusterRole,
    EndpointSlice,
    Service,
    ConfigMap,
    Secret,
    PersistentVolumeClaim,
    PersistentVolume,
    /// An object that owns another, of the kind `owner_kind` names.
    Owner,
}

/// A reference to an object by kind, name and namespace, and by uid where
/// the object was read from the cluster.
pub struct ObjectRef {
    pub kind: RefKind,
    pub name: String,
    pub namespace: Option<String>,
    pub uid: Option<String>,
    /// The kind's name, for an owner.
    pub owner_kind: Option<String>,
}

/// An object reference as values.
pub struct ObjectRefView {
    pub kind: RefKind,
    pub name: Seq<char>,
    pub namespace: Option<Seq<char>>,
    pub uid: Option<Seq<char>>,
    pub owner_kind: Option<Seq<char>>,
}

impl View for ObjectRef {
    type V = ObjectRefView;

    open spec fn view(&self) -> ObjectRefView {
        ObjectRefView {
            kind: self.kind,
            name: self.name@,
            namespace: opt_view(self.namespace),
            uid: opt_view(self.uid),
            owner_kind: opt_view(self.owner_kind),
        }
    }
}

fn copy_opt(o: &Option<String>) -> (r: Option<String>)
    ensures
        opt_view(r) == opt_view(*o),
{
    match o {
        Some(s) => Some(s.clone()),
        None => None,
    }
}

impl ObjectRef {
    /// A copy of the reference.
    pub fn copy(&self) -> (r: ObjectRef)
        ensures
            r@ == self@,
    {
        ObjectRef {
            kind: self.kind,
            name: self.name.clone(),
            namespace: copy_opt(&self.namespace),
            uid: copy_opt(&self.uid),
            owner_kind: copy_opt(&self.owner_kind),
        }
    }
}

/// A reference by kind, name and namespace alone, as one is made of a
/// name.
pub open spec fn named(kind: RefKind, name: Seq<char>, namespace: Option<Seq<char>>) -> ObjectRefView {
    ObjectRefView { kind, name, namespace, uid: None, owner_kind: None }
}

/// The object a role binding points at: a `Role` lives in the binding's
/// namespace; anything else is taken as a cluster role.
pub open spec fn role_target_of(role_kind: Seq<char>, role_name: Seq<char>, namespace: Seq<char>) -> ObjectRefView {
    if role_kind == "Role"@ {
        named(RefKind::Role, role_name, Some(namespace))
    } else {
        named(RefKind::ClusterRole, role_name, None)
    }
}

pub fn role_target(role_kind: &str, role_name: &str, namespace: &str) -> (r: ObjectRef)
    ensures
        r@ == role_target_of(role_kind@, role_name@, namespace@),
        role_kind@ == "Role"@ ==> (r.namespace matches Some(n) && n@ == namespace@ && r.kind
            == RefKind::Role),
        role_kind@ != "Role"@ ==> r.kind == RefKind::ClusterRole && r.namespace is None,
        r.name@ == role_name@,
{
    if same_text(role_kind, "Role") {
        ObjectRef { kind: RefKind::Role, name: role_name.to_string(), namespace: Some(namespace.to_string()), uid: None, owner_kind: None }
    } else {
        ObjectRef { kind: RefKind::ClusterRole, name: role_name.to_string(), namespace: None, uid: None, owner_kind: None }
    }
}

/// A subject of a role binding.
pub struct Subject {
    pub kind: String,
    pub name: String,
}

/// Whether a binding's subjects include the service account `account`.
pub open spec fn binds_account_spec(subjects: Seq<Subject>, account: Seq<char>) -> bool {
    exists|i: int| 0 <= i < subjects.len() && #[trigger] subjects[i].kind@ == "ServiceAccount"@ && subjects[i].name@ == account
}

pub fn binds_account(subjects: &Option<Vec<Subject>>, account: &str) -> (b: bool)
    ensures
        b == (subjects matches Some(s) && binds_account_spec(s@, account@)),
{
    match subjects {
        None => false,
        Some(s) => {
            let mut i: usize = 0;
            while i < s.len()
                invariant
                    i <= s.len(),
                    *subjects == Some(*s),
                    forall|k: int| 0 <= k < i ==> !(#[trigger] s@[k].kind@ == "ServiceAccount"@ && s@[k].name@ == account@),
                decreases s.len() - i,
            {
                if same_text(s[i].kind.as_str(), "ServiceAccount") && same_text(s[i].name.as_str(), account) {
                    assert(s@[i as int].kind@ == "ServiceAccount"@);
                    return true;
                }
                i = i + 1;
            }
            false
        },
    }
}

/// The sources of a volume that the graph looks at.
pub struct VolumeSource {
    /// The config map's name, for a config map volume.
    pub config_map: Option<String>,
    /// The secret's name (which may be missing), for a secret volume.
    pub secret: Option<Option<String>>,
    /// The claim's name, for a persistent volume claim.
    pub claim: Option<String>,
}

/// Where a volume leads in the graph.
pub enum VolumeLink {
    /// Straight to an object.
    Object(ObjectRef),
    /// To a persistent volume claim, which is looked up by name.
    Claim(String),
    /// Nowhere.
    Skip,
}

/// The link of a volume: a config map first, then a secret (named by its
/// name or, without one, the empty name), then a claim.
pub fn volume_link(v: &VolumeSource, namespace: &Option<String>) -> (r: VolumeLink)
    ensures
        r matches VolumeLink::Object(o) ==> (o.uid is None && o.owner_kind is None),
        match v.config_map {
            Some(cm) => r matches VolumeLink::Object(o) && o.kind == RefKind::ConfigMap && o.name == cm
                && o.namespace == *namespace,
            None => match v.secret {
                Some(sec) => r matches VolumeLink::Object(o) && o.kind == RefKind::Secret && o.name@
                    == (match sec {
                    Some(n) => n@,
                    None => Seq::<char>::empty(),
                }) && o.namespace == *namespace,
                None => match v.claim {
                    Some(c) => r matches VolumeLink::Claim(n) && n == c,
                    None => r is Skip,
                },
            },
        },
{
    match &v.config_map {
        Some(cm) => VolumeLink::Object(ObjectRef { kind: RefKind::ConfigMap, name: cm.clone(), namespace: namespace.clone(), uid: None, owner_kind: None }),
        None => match &v.secret {
            Some(sec) => {
                let name = match sec {
                    Some(n) => n.clone(),
                    None => String::new(),
                };
                VolumeLink::Object(ObjectRef { kind: RefKind::Secret, name, namespace: namespace.clone(), uid: None, owner_kind: None })
            },
            None => match &v.claim {
                Some(c) => VolumeLink::Claim(c.clone()),
                None => VolumeLink::Skip,
            },
        },
    }
}

/// The persistent volume behind a claim, where the claim names one.
pub fn claimed_volume(volume_name: &Option<String>, namespace: &Option<String>) -> (r: Option<ObjectRef>)
    ensures
        r matches Some(o) ==> (o.uid is None && o.owner_kind is None),
        match *volume_name {
            Some(n) => r matches Some(o) && o.kind == RefKind::PersistentVolume && o.name == n
                && o.namespace == *namespace,
            None => r is None,
        },
{
    match volume_name {
        Some(n) => Some(ObjectRef { kind: RefKind::PersistentVolume, name: n.clone(), namespace: namespace.clone(), uid: None, owner_kind: None }),
        None => None,
    }
}

/// Whether an endpoint slice serves the pod with uid `uid`: one of its
/// endpoints targets an object with that uid. Each endpoint is given by
/// the uid of its target (`None` where it has no target).
pub open spec fn serves_pod_spec(targets: Seq<Option<Option<String>>>, uid: Option<String>) -> bool {
    exists|i: int| 0 <= i < targets.len() && (#[trigger] targets[i] matches Some(t) && same_uid_spec(t, uid))
}

/// Two uids are the same when both are missing or both are the same text.
pub open spec fn same_uid_spec(a: Option<String>, b: Option<String>) -> bool {
    match (a, b) {
        (Some(x), Some(y)) => x@ == y@,
        (None, None) => true,
        _ => false,
    }
}

fn same_uid(a: &Option<String>, b: &Option<String>) -> (r: bool)
    ensures
        r == same_uid_spec(*a, *b),
{
    match (a, b) {
        (Some(x), Some(y)) => same_text(x.as_str(), y.as_str()),
        (None, None) => true,
        _ => false,
    }
}

pub fn serves_pod(targets: &Vec<Option<Option<String>>>, uid: &Option<String>) -> (b: bool)
    ensures
        b == serves_pod_spec(targets@, *uid),
{
    let mut i: usize = 0;
    while i < targets.len()
        invariant
            i <= targets.len(),
            forall|k: int| 0 <= k < i ==> !(#[trigger] targets@[k] matches Some(t) && same_uid_spec(t, *uid)),
        decreases targets.len() - i,
    {
        match &targets[i] {
            Some(t) => {
                if same_uid(t, uid) {
                    assert(targets@[i as int] matches Some(t) && same_uid_spec(t, *uid));
                    return true;
                }
            },
            None => {},
        }
        i = i + 1;
    }
    false
}

/// The label naming the service an endpoint slice belongs to.
pub open spec fn service_label() -> Seq<char> {
    "kubernetes.io/service-name"@
}

/// The value of the first label with key `key`.
pub open spec fn label_value(labels: Seq<(String, String)>, key: Seq<char>) -> Option<Seq<char>>
    decreases labels.len(),
{
    if labels.len() == 0 {
        None
    } else if labels[0].0@ == key {
        Some(labels[0].1@)
    } else {
        label_value(labels.drop_first(), key)
    }
}

/// The service an endpoint slice belongs to, named by its label.
pub open spec fn labelled_service_of(labels: Seq<(String, String)>, namespace: Option<Seq<char>>) -> Option<ObjectRefView> {
    match label_value(labels, service_label()) {
        Some(n) => Some(named(RefKind::Service, n, namespace)),
        None => None,
    }
}

/// An optional reference as values.
pub open spec fn opt_ref_view(o: Option<ObjectRef>) -> Option<ObjectRefView> {
    match o {
        Some(r) => Some(r@),
        None => None,
    }
}

/// The service an endpoint slice belongs to, by its label.
pub fn labelled_service(labels: &Vec<(String, String)>, namespace: &Option<String>) -> (r: Option<ObjectRef>)
    ensures
        opt_ref_view(r) == labelled_service_of(labels@, opt_view(*namespace)),
        match r {
            Some(o) => o.kind == RefKind::Service && o.namespace == *namespace && exists|i: int|
                0 <= i < labels@.len() && #[trigger] labels@[i].0@ == service_label() && labels@[i].1
                    == o.name,
            None => forall|i: int| 0 <= i < labels@.len() ==> #[trigger] labels@[i].0@ != service_label(),
        },
{
    let mut i: usize = 0;
    assert(labels@.skip(0) =~= labels@);
    while i < labels.len()
        invariant
            i <= labels.len(),
            forall|k: int| 0 <= k < i ==> #[trigger] labels@[k].0@ != service_label(),
            label_value(labels@, service_label()) == label_value(labels@.skip(i as int), service_label()),
        decreases labels.len() - i,
    {
        assert(labels@.skip(i as int)[0] == labels@[i as int]);
        if same_text(labels[i].0.as_str(), "kubernetes.io/service-name") {
            return Some(ObjectRef { kind: RefKind::Service, name: labels[i].1.clone(), namespace: namespace.clone(), uid: None, owner_kind: None });
        }
        assert(labels@.skip(i as int).drop_first() =~= labels@.skip(i + 1));
        i = i + 1;
    }
    None
}

/// The objects a pod hangs from before its own links: its namespace, and
/// its node where it is scheduled.
pub fn roots(namespace: &str, node: &Option<String>) -> (r: Vec<ObjectRef>)
    ensures
        r@.len() == if node is Some { 2int } else { 1int },
        r@[0].kind == RefKind::Namespace && r@[0].name@ == namespace@ && r@[0].namespace is None,
        node matches Some(n) ==> (r@[1].kind == RefKind::Node && r@[1].name == n && r@[1].namespace is None),
{
    let mut r: Vec<ObjectRef> = Vec::new();
    r.push(ObjectRef { kind: RefKind::Namespace, name: namespace.to_string(), namespace: None, uid: None, owner_kind: None });
    match node {
        Some(n) => r.push(ObjectRef { kind: RefKind::Node, name: n.clone(), namespace: None, uid: None, owner_kind: None }),
        None => {},
    }
    r
}

/// The service account of a pod, where it has one, as an object.
pub fn account_ref(account: &Option<String>, namespace: &Option<String>) -> (r: Option<ObjectRef>)
    ensures
        match *account {
            Some(a) => r matches Some(o) && o.kind == RefKind::ServiceAccount && o.name == a && o.namespace
                == *namespace,
            None => r is None,
        },
{
    match account {
        Some(a) => Some(ObjectRef { kind: RefKind::ServiceAccount, name: a.clone(), namespace: namespace.clone(), uid: None, owner_kind: None }),
        None => None,
    }
}

} // verus!
