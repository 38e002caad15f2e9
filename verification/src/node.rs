//! Nodes, as the dashboard lists them.
use vstd::prelude::*;

use crate::age::{age_text, in_delta_range, Age};
use crate::table::Tone;
use crate::text::{
    contains, contains_str, find_last, join, join_strings, last_index, same_text, substring,
    tail, to_chars,
};

verus! {

/// A condition of a node: its type and whether it holds (`"True"`).
#[derive(Debug, Clone, PartialEq, Eq)]
pub struct NodeCondition {
    pub type_: String,
    pub status: String,
}

/// A node: what the table reads of the Kubernetes object.
#[derive(Debug, Clone, PartialEq, Eq)]
pub struct Node {
    pub name: String,
    pub namespace: Option<String>,
    pub created: Option<i64>,
    /// The labels, in the order of their keys.
    pub labels: Option<Vec<(String, String)>>,
    /// The conditions of the node's status.
    pub conditions: Option<Vec<NodeCondition>>,
    pub unschedulable: Option<bool>,
    /// The kubelet version of the node's status.
    pub kubelet_version: Option<String>,
}

/// What the status column says of a node.
#[derive(Debug, Clone, PartialEq, Eq)]
pub enum Status {
    MemoryPressure,
    DiskPressure,
    PIDPressure,
    Ready,
    Unknown,
    SchedulingDisabled,
    Error(String),
}

/// The status that a condition type reads as: a status named like it, or
/// an error that carries the type (an empty one for the name `Error`).
pub open spec fn reads_as(name: Seq<char>, s: Status) -> bool {
    if name == "MemoryPressure"@ {
        s == Status::MemoryPressure
    } else if name == "DiskPressure"@ {
        s == Status::DiskPressure
    } else if name == "PIDPressure"@ {
        s == Status::PIDPressure
    } else if name == "Ready"@ {
        s == Status::Ready
    } else if name == "Unknown"@ {
        s == Status::Unknown
    } else if name == "SchedulingDisabled"@ {
        s == Status::SchedulingDisabled
    } else if name == "Error"@ {
        s matches Status::Error(x) && x@.len() == 0
    } else {
        s matches Status::Error(x) && x@ == name
    }
}

/// The name a status is shown by.
pub open spec fn status_name(s: Status) -> Seq<char> {
    match s {
        Status::MemoryPressure => "MemoryPressure"@,
        Status::DiskPressure => "DiskPressure"@,
        Status::PIDPressure => "PIDPressure"@,
        Status::Ready => "Ready"@,
        Status::Unknown => "Unknown"@,
        Status::SchedulingDisabled => "SchedulingDisabled"@,
        Status::Error(_) => "Error"@,
    }
}

impl Status {
    /// The status that a condition type reads as.
    pub fn from_type(name: &str) -> (s: Status)
        ensures
            reads_as(name@, s),
    {
        if same_text(name, "MemoryPressure") {
            Status::MemoryPressure
        } else if same_text(name, "DiskPressure") {
            Status::DiskPressure
        } else if same_text(name, "PIDPressure") {
            Status::PIDPressure
        } else if same_text(name, "Ready") {
            Status::Ready
        } else if same_text(name, "Unknown") {
            Status::Unknown
        } else if same_text(name, "SchedulingDisabled") {
            Status::SchedulingDisabled
        } else if same_text(name, "Error") {
            Status::Error(String::new())
        } else {
            Status::Error(name.to_owned())
        }
    }

    /// The status's name.
    pub fn to_text(&self) -> (s: String)
        ensures
            s@ == status_name(*self),
    {
        match self {
            Status::MemoryPressure => "MemoryPressure".to_owned(),
            Status::DiskPressure => "DiskPressure".to_owned(),
            Status::PIDPressure => "PIDPressure".to_owned(),
            Status::Ready => "Ready".to_owned(),
            Status::Unknown => "Unknown".to_owned(),
            Status::SchedulingDisabled => "SchedulingDisabled".to_owned(),
            Status::Error(_) => "Error".to_owned(),
        }
    }
}

/// The types of the conditions that hold, in order.
pub open spec fn true_types(cs: Seq<NodeCondition>) -> Seq<Seq<char>>
    decreases cs.len(),
{
    if cs.len() == 0 {
        Seq::empty()
    } else if cs.last().status@ == "True"@ {
        true_types(cs.drop_last()).push(cs.last().type_@)
    } else {
        true_types(cs.drop_last())
    }
}

pub open spec fn conditions_of(n: Node) -> Seq<NodeCondition> {
    match n.conditions {
        Some(v) => v@,
        None => Seq::empty(),
    }
}

/// The statuses of a node: one per condition that holds (`Unknown` where
/// none does), then `SchedulingDisabled` where the node is unschedulable.
pub open spec fn statuses_are(n: Node, r: Seq<Status>) -> bool {
    let t = true_types(conditions_of(n));
    let base = if t.len() == 0 {
        1int
    } else {
        t.len() as int
    };
    &&& r.len() == base + if n.unschedulable == Some(true) {
        1int
    } else {
        0int
    }
    &&& t.len() == 0 ==> r[0] == Status::Unknown
    &&& forall|i: int| 0 <= i < t.len() ==> reads_as(t[i], #[trigger] r[i])
    &&& n.unschedulable == Some(true) ==> r[r.len() - 1] == Status::SchedulingDisabled
}

/// The role that a label key names: what follows the last `/` where what
/// precedes it is `node-role.kubernetes.io`.
pub open spec fn role_of_key(k: Seq<char>) -> Option<Seq<char>> {
    let i = last_index(k, '/');
    if i >= 0 && k.take(i) == "node-role.kubernetes.io"@ {
        Some(k.skip(i + 1))
    } else {
        None
    }
}

/// The roles that the labels give, in label order.
pub open spec fn roles_of(labels: Seq<(String, String)>) -> Seq<Seq<char>>
    decreases labels.len(),
{
    if labels.len() == 0 {
        Seq::empty()
    } else {
        match role_of_key(labels.last().0@) {
            Some(r) => roles_of(labels.drop_last()).push(r),
            None => roles_of(labels.drop_last()),
        }
    }
}

pub open spec fn labels_of(n: Node) -> Seq<(String, String)> {
    match n.labels {
        Some(v) => v@,
        None => Seq::empty(),
    }
}

/// The value of the first label with key `key`, if any.
pub open spec fn label_value(labels: Seq<(String, String)>, key: Seq<char>) -> Option<Seq<char>>
    decreases labels.len(),
{
    if labels.len() == 0 {
        None
    } else {
        match label_value(labels.drop_last(), key) {
            Some(v) => Some(v),
            None => if labels.last().0@ == key {
                Some(labels.last().1@)
            } else {
                None
            },
        }
    }
}

/// The instance type label's value, empty without one.
pub open spec fn instance_type_text(n: Node) -> Seq<char> {
    match label_value(labels_of(n), "beta.kubernetes.io/instance-type"@) {
        Some(v) => v,
        None => Seq::empty(),
    }
}

/// The kubelet version, empty without one.
pub open spec fn version_text(n: Node) -> Seq<char> {
    match n.kubelet_version {
        Some(v) => v@,
        None => Seq::empty(),
    }
}

fn role_of(k: &String) -> (r: Option<String>)
    ensures
        match r {
            Some(x) => role_of_key(k@) == Some(x@),
            None => role_of_key(k@) is None,
        },
{
    let v = to_chars(k.as_str());
    match find_last(&v, '/') {
        Some(i) => {
            proof {
                crate::text::lemma_last_index(v@, '/');
            }
            assert(i < v.len());
            let key = substring(&v, 0, i);
            if same_text(key.as_str(), "node-role.kubernetes.io") {
                assert(k@.take(i as int) == key@);
                let role = tail(&v, i + 1);
                Some(crate::text::from_chars(role.as_slice()))
            } else {
                assert(k@.take(i as int) == key@);
                None
            }
        },
        None => None,
    }
}

impl Node {
    /// The value of the instance type label.
    pub fn instance_type(&self) -> (s: String)
        ensures
            s@ == instance_type_text(*self),
    {
        let Some(labels) = &self.labels else {
            return String::new();
        };
        let ghost ls = labels@;
        let mut i: usize = 0;
        while i < labels.len()
            invariant
                i <= labels.len(),
                ls == labels@,
                ls == labels_of(*self),
                label_value(ls.take(i as int), "beta.kubernetes.io/instance-type"@) is None,
            decreases labels.len() - i,
        {
            assert(ls.take(i + 1).drop_last() == ls.take(i as int));
            if same_text(labels[i].0.as_str(), "beta.kubernetes.io/instance-type") {
                proof {
                    lemma_label_value_at(ls, "beta.kubernetes.io/instance-type"@, i as int);
                }
                return labels[i].1.clone();
            }
            i = i + 1;
        }
        assert(ls.take(i as int) == ls);
        String::new()
    }

    /// The roles that the node's labels give.
    pub fn roles(&self) -> (r: Vec<String>)
        ensures
            r@.map_values(|s: String| s@) == roles_of(labels_of(*self)),
    {
        let mut out: Vec<String> = Vec::new();
        let Some(labels) = &self.labels else {
            assert(out@.map_values(|s: String| s@) =~= Seq::<Seq<char>>::empty());
            return out;
        };
        let ghost ls = labels@;
        let mut i: usize = 0;
        assert(out@.map_values(|s: String| s@) =~= roles_of(ls.take(0)));
        while i < labels.len()
            invariant
                i <= labels.len(),
                ls == labels@,
                out@.map_values(|s: String| s@) == roles_of(ls.take(i as int)),
            decreases labels.len() - i,
        {
            assert(ls.take(i + 1).drop_last() == ls.take(i as int));
            match role_of(&labels[i].0) {
                Some(role) => {
                    let ghost before = out@;
                    out.push(role);
                    assert(out@.map_values(|s: String| s@) =~= before.map_values(|s: String| s@).push(
                        role@,
                    ));
                },
                None => {},
            }
            i = i + 1;
        }
        assert(ls.take(i as int) == ls);
        out
    }

    /// The statuses of the node.
    pub fn status(&self) -> (r: Vec<Status>)
        ensures
            statuses_are(*self, r@),
    {
        let mut out: Vec<Status> = Vec::new();
        let ghost cs = conditions_of(*self);
        if let Some(conds) = &self.conditions {
            let mut i: usize = 0;
            while i < conds.len()
                invariant
                    i <= conds.len(),
                    cs == conds@,
                    out@.len() == true_types(cs.take(i as int)).len(),
                    forall|k: int| 0 <= k < out@.len() ==> reads_as(
                        true_types(cs.take(i as int))[k],
                        #[trigger] out@[k],
                    ),
                decreases conds.len() - i,
            {
                assert(cs.take(i + 1).drop_last() == cs.take(i as int));
                if same_text(conds[i].status.as_str(), "True") {
                    out.push(Status::from_type(conds[i].type_.as_str()));
                }
                i = i + 1;
            }
            assert(cs.take(i as int) == cs);
        }
        let ghost t = true_types(cs);
        let ghost base = out@;
        if out.len() == 0 {
            out.push(Status::Unknown);
        }
        if self.unschedulable == Some(true) {
            out.push(Status::SchedulingDisabled);
        }
        assert(forall|k: int| 0 <= k < t.len() ==> out@[k] == base[k]);
        out
    }

    /// The kubelet version.
    pub fn version(&self) -> (s: String)
        ensures
            s@ == version_text(*self),
    {
        match &self.kubelet_version {
            Some(v) => v.clone(),
            None => String::new(),
        }
    }

    /// The column names of the nodes' table.
    pub fn header() -> (r: Vec<String>)
        ensures
            r@.map_values(|c: String| c@) == seq!["Name"@, "Status"@, "Roles"@, "Type"@, "Version"@, "Age"@],
    {
        let mut r: Vec<String> = Vec::new();
        r.push("Name".to_string());
        r.push("Status".to_string());
        r.push("Roles".to_string());
        r.push("Type".to_string());
        r.push("Version".to_string());
        r.push("Age".to_string());
        assert(r@.map_values(|c: String| c@) =~= seq!["Name"@, "Status"@, "Roles"@, "Type"@, "Version"@, "Age"@]);
        r
    }

    /// The cells of the node's row: name, statuses, roles, instance type,
    /// version and age (`age_seconds` seconds).
    pub fn row(&self, age_seconds: i64) -> (cells: Vec<String>)
        requires
            in_delta_range(age_seconds as int),
        ensures
            cells@.len() == 6,
            cells@[0]@ == self.name@,
            exists|st: Seq<Status>| statuses_are(*self, st) && cells@[1]@ == join(
                st.map_values(|s: Status| status_name(s)),
                ", "@,
            ),
            cells@[2]@ == join(roles_of(labels_of(*self)), ", "@),
            cells@[3]@ == instance_type_text(*self),
            cells@[4]@ == version_text(*self),
            cells@[5]@ == age_text(age_seconds as int),
    {
        let st = self.status();
        let mut names: Vec<String> = Vec::new();
        let mut i: usize = 0;
        while i < st.len()
            invariant
                i <= st.len(),
                names@.map_values(|s: String| s@) == st@.take(i as int).map_values(
                    |s: Status| status_name(s),
                ),
            decreases st.len() - i,
        {
            let ghost before = names@;
            let text = st[i].to_text();
            names.push(text);
            assert(names@.map_values(|s: String| s@) =~= before.map_values(|s: String| s@).push(
                text@,
            ));
            assert(st@.take(i + 1).map_values(|s: Status| status_name(s)) =~= st@.take(
                i as int,
            ).map_values(|s: Status| status_name(s)).push(status_name(st@[i as int])));
            i = i + 1;
        }
        assert(st@.take(i as int) == st@);
        let roles = self.roles();
        let mut cells: Vec<String> = Vec::new();
        cells.push(self.name.clone());
        cells.push(join_strings(&names, ", "));
        cells.push(join_strings(&roles, ", "));
        cells.push(self.instance_type());
        cells.push(self.version());
        cells.push(age_seconds.to_age());
        cells
    }

    /// How the node's row is shown: healthy once any status is `Ready`.
    pub fn tone(&self) -> (t: Tone)
        ensures
            t == if exists|i: int| 0 <= i < true_types(conditions_of(*self)).len() && #[trigger] true_types(conditions_of(*self))[i] == "Ready"@ {
                Tone::Healthy
            } else {
                Tone::Normal
            },
    {
        let st = self.status();
        let ghost t = true_types(conditions_of(*self));
        let mut tone = Tone::Normal;
        let mut i: usize = 0;
        while i < st.len()
            invariant
                i <= st.len(),
                statuses_are(*self, st@),
                t == true_types(conditions_of(*self)),
                tone == if exists|k: int| 0 <= k < i && #[trigger] st@[k] == Status::Ready {
                    Tone::Healthy
                } else {
                    Tone::Normal
                },
            decreases st.len() - i,
        {
            if let Status::Ready = st[i] {
                tone = Tone::Healthy;
            }
            i = i + 1;
        }
        proof {
            reveal_strlit("MemoryPressure");
            reveal_strlit("DiskPressure");
            reveal_strlit("PIDPressure");
            reveal_strlit("Ready");
            reveal_strlit("Unknown");
            reveal_strlit("SchedulingDisabled");
            reveal_strlit("Error");
            assert forall|k: int| 0 <= k < t.len() implies (#[trigger] t[k] == "Ready"@) == (st@[k]
                == Status::Ready) by {
                assert(reads_as(t[k], st@[k]));
                assert("MemoryPressure"@.len() == 14);
                assert("DiskPressure"@.len() == 12);
                assert("PIDPressure"@.len() == 11);
                assert("Ready"@.len() == 5);
                assert("Unknown"@.len() == 7);
                assert("SchedulingDisabled"@.len() == 18);
                assert("Error"@.len() == 5);
                assert("Error"@[0] != "Ready"@[0]);
            }
            if exists|k: int| 0 <= k < st@.len() && st@[k] == Status::Ready {
                let k = choose|k: int| 0 <= k < st@.len() && st@[k] == Status::Ready;
                if k >= t.len() {
                    if t.len() == 0 {
                        assert(st@[0] == Status::Unknown);
                    }
                }
            }
        }
        tone
    }
}

proof fn lemma_label_value_at(ls: Seq<(String, String)>, key: Seq<char>, i: int)
    requires
        0 <= i < ls.len(),
        ls[i].0@ == key,
        label_value(ls.take(i), key) is None,
    ensures
        label_value(ls, key) == Some(ls[i].1@),
    decreases ls.len(),
{
    if ls.len() > i + 1 {
        assert(ls.drop_last().take(i) == ls.take(i));
        lemma_label_value_at(ls.drop_last(), key, i);
    } else {
        assert(ls.drop_last() == ls.take(i));
    }
}

impl crate::table::Filter for Node {
    /// A node is picked when its name holds the filter.
    open spec fn picks(&self, filter: Seq<char>) -> bool {
        contains(self.name@, filter)
    }

    /// Whether the node's name holds `filter`.
    fn matches(&self, filter: &str) -> (b: bool)
        ensures
            b == contains(self.name@, filter@),
    {
        contains_str(self.name.as_str(), filter)
    }
}

} // verus!
