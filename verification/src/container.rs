//! The containers of a pod: their specification joined with their status.
use vstd::prelude::*;

use crate::age::{age_text, in_delta_range, Age};
use crate::number::{fmt_i64, int_str};
use crate::pod::{
    opt_text, statuses_of, ContainerSpec, ContainerState, ContainerStatus, Pod, Running,
    Terminated, Waiting,
};
use crate::table::Tone;
use crate::text::{concat, contains, contains_str, from_chars, push_char, push_str};

verus! {

/// A container of a pod, with its status once the pod reports one.
#[derive(Debug, Clone, PartialEq, Eq)]
pub struct Container {
    pub namespace: Option<String>,
    pub pod_name: String,
    pub spec: ContainerSpec,
    pub status: Option<ContainerStatus>,
}

/// The state of a container, as the table shows it.
#[derive(Debug, Clone, PartialEq, Eq, Default)]
pub enum State {
    Running,
    Terminated(String),
    Waiting(String),
    #[default]
    Unknown,
}

pub open spec fn reason_text(r: Option<String>) -> Seq<char> {
    match r {
        Some(s) => s@,
        None => Seq::empty(),
    }
}

/// The state that a container state reads as: running before terminated
/// before waiting; the reason (empty where there is none) is kept.
pub open spec fn state_is(st: Option<ContainerState>, s: State) -> bool {
    match st {
        Some(cs) => if cs.running is Some {
            s == State::Running
        } else if cs.terminated is Some {
            s matches State::Terminated(r) && r@ == reason_text(cs.terminated.unwrap().reason)
        } else if cs.waiting is Some {
            s matches State::Waiting(r) && r@ == reason_text(cs.waiting.unwrap().reason)
        } else {
            s == State::Unknown
        },
        None => s == State::Unknown,
    }
}

/// The text of a state.
pub open spec fn state_text(s: State) -> Seq<char> {
    match s {
        State::Running => seq!['R', 'u', 'n', 'n', 'i', 'n', 'g'],
        State::Terminated(r) => seq!['T', 'e', 'r', 'm', 'i', 'n', 'a', 't', 'e', 'd', ' ', '(']
            + r@ + seq![')'],
        State::Waiting(r) => seq!['W', 'a', 'i', 't', 'i', 'n', 'g', ' ', '('] + r@ + seq![')'],
        State::Unknown => seq!['U', 'n', 'k', 'n', 'o', 'w', 'n'],
    }
}

fn copy_string(s: &String) -> (r: String)
    ensures
        r == *s,
{
    s.clone()
}

fn copy_opt(s: &Option<String>) -> (r: Option<String>)
    ensures
        r == *s,
{
    match s {
        Some(x) => Some(copy_string(x)),
        None => None,
    }
}

fn copy_state(s: &ContainerState) -> (r: ContainerState)
    ensures
        r == *s,
{
    ContainerState {
        running: match &s.running {
            Some(x) => Some(Running { started_at: x.started_at }),
            None => None,
        },
        terminated: match &s.terminated {
            Some(x) => Some(Terminated { reason: copy_opt(&x.reason), finished_at: x.finished_at }),
            None => None,
        },
        waiting: match &s.waiting {
            Some(x) => Some(Waiting { reason: copy_opt(&x.reason) }),
            None => None,
        },
    }
}

fn copy_opt_state(s: &Option<ContainerState>) -> (r: Option<ContainerState>)
    ensures
        r == *s,
{
    match s {
        Some(x) => Some(copy_state(x)),
        None => None,
    }
}

/// A copy of a container status.
pub fn copy_status(s: &ContainerStatus) -> (r: ContainerStatus)
    ensures
        r == *s,
{
    ContainerStatus {
        name: copy_string(&s.name),
        image: copy_string(&s.image),
        ready: s.ready,
        restart_count: s.restart_count,
        state: copy_opt_state(&s.state),
        last_state: copy_opt_state(&s.last_state),
    }
}

fn copy_spec(s: &ContainerSpec) -> (r: ContainerSpec)
    ensures
        r == *s,
{
    ContainerSpec { name: copy_string(&s.name), image: copy_opt(&s.image) }
}

/// A copy of a container.
pub fn copy_container(c: &Container) -> (r: Container)
    ensures
        r == *c,
{
    Container {
        namespace: copy_opt(&c.namespace),
        pod_name: copy_string(&c.pod_name),
        spec: copy_spec(&c.spec),
        status: match &c.status {
            Some(s) => Some(copy_status(s)),
            None => None,
        },
    }
}

/// The image: the specification's, else the status's, else `-`.
pub open spec fn image_text(c: Container) -> Seq<char> {
    if c.spec.image is Some {
        c.spec.image.unwrap()@
    } else if c.status is Some {
        c.status.unwrap().image@
    } else {
        seq!['-']
    }
}

/// When the container last finished, where its last state says so.
pub open spec fn last_finish(c: Container) -> Option<i64> {
    match c.status {
        Some(s) => crate::pod::finished_at(s),
        None => None,
    }
}

/// When the running container started, where its state says so.
pub open spec fn started(c: Container) -> Option<i64> {
    match c.status {
        Some(s) => match s.state {
            Some(st) => match st.running {
                Some(r) => r.started_at,
                None => None,
            },
            None => None,
        },
        None => None,
    }
}

/// The restarts of the container, with the age of its last finish in
/// brackets where it has finished; `-` without a status.
pub open spec fn container_restarts_text(c: Container, now: i64) -> Seq<char> {
    match c.status {
        Some(s) => match last_finish(c) {
            Some(t) => int_str(s.restart_count as int) + seq![' ', '('] + age_text(now - t) + seq![')'],
            None => int_str(s.restart_count as int),
        },
        None => seq!['-'],
    }
}

/// How long the container has been running; `-` where it is not.
pub open spec fn container_age_text(c: Container, now: i64) -> Seq<char> {
    match started(c) {
        Some(t) => age_text(now - t),
        None => seq!['-'],
    }
}

/// `Yes` where the status says ready, else `No`.
pub open spec fn ready_word(c: Container) -> Seq<char> {
    if c.status matches Some(s) && s.ready {
        seq!['Y', 'e', 's']
    } else {
        seq!['N', 'o']
    }
}

/// The text of a container's state.
pub open spec fn container_state_text(c: Container) -> Seq<char> {
    let st = match c.status {
        Some(s) => s.state,
        None => None,
    };
    match st {
        Some(cs) => if cs.running is Some {
            state_text(State::Running)
        } else if cs.terminated is Some {
            seq!['T', 'e', 'r', 'm', 'i', 'n', 'a', 't', 'e', 'd', ' ', '('] + reason_text(
                cs.terminated.unwrap().reason,
            ) + seq![')']
        } else if cs.waiting is Some {
            seq!['W', 'a', 'i', 't', 'i', 'n', 'g', ' ', '('] + reason_text(cs.waiting.unwrap().reason)
                + seq![')']
        } else {
            state_text(State::Unknown)
        },
        None => state_text(State::Unknown),
    }
}

/// The column names of the containers' table.
pub open spec fn container_header() -> Seq<Seq<char>> {
    seq!["Name"@, "Image"@, "Ready"@, "State"@, "Restarts"@, "Age"@]
}

impl State {
    /// The state's text.
    pub fn to_text(&self) -> (s: String)
        ensures
            s@ == state_text(*self),
    {
        match self {
            State::Running => from_chars(&['R', 'u', 'n', 'n', 'i', 'n', 'g']),
            State::Terminated(r) => {
                let mut s = from_chars(
                    &['T', 'e', 'r', 'm', 'i', 'n', 'a', 't', 'e', 'd', ' ', '('],
                );
                push_str(&mut s, r.as_str());
                push_char(&mut s, ')');
                s
            },
            State::Waiting(r) => {
                let mut s = from_chars(&['W', 'a', 'i', 't', 'i', 'n', 'g', ' ', '(']);
                push_str(&mut s, r.as_str());
                push_char(&mut s, ')');
                s
            },
            State::Unknown => from_chars(&['U', 'n', 'k', 'n', 'o', 'w', 'n']),
        }
    }

    /// The state that a container state reads as.
    pub fn from_state(st: &Option<ContainerState>) -> (s: State)
        ensures
            state_is(*st, s),
    {
        match st {
            Some(cs) => {
                if cs.running.is_some() {
                    State::Running
                } else if let Some(t) = &cs.terminated {
                    State::Terminated(
                        match &t.reason {
                            Some(r) => r.clone(),
                            None => String::new(),
                        },
                    )
                } else if let Some(w) = &cs.waiting {
                    State::Waiting(
                        match &w.reason {
                            Some(r) => r.clone(),
                            None => String::new(),
                        },
                    )
                } else {
                    State::Unknown
                }
            },
            None => State::Unknown,
        }
    }
}

impl Container {
    /// The container of `pod` that `spec` describes, without a status yet.
    pub fn new(pod: &Pod, spec: ContainerSpec) -> (c: Container)
        ensures
            c == (Container { namespace: pod.namespace, pod_name: pod.name, spec, status: None }),
    {
        Container { namespace: copy_opt(&pod.namespace), pod_name: copy_string(&pod.name), spec, status: None }
    }

    /// Gives the container its status.
    pub fn with_status(&mut self, status: ContainerStatus)
        ensures
            *final(self) == (Container { status: Some(status), ..*old(self) }),
    {
        self.status = Some(status);
    }

    /// The container's name.
    pub fn name_any(&self) -> (s: String)
        ensures
            s@ == self.spec.name@,
    {
        self.spec.name.clone()
    }

    /// The image the container runs.
    pub fn image(&self) -> (s: String)
        ensures
            s@ == image_text(*self),
    {
        match (&self.spec.image, &self.status) {
            (Some(image), _) => image.clone(),
            (None, Some(status)) => status.image.clone(),
            _ => from_chars(&['-']),
        }
    }

    /// The container's state; unknown without a status.
    pub fn state(&self) -> (s: State)
        ensures
            state_is(
                match self.status {
                    Some(st) => st.state,
                    None => None,
                },
                s,
            ),
    {
        match &self.status {
            Some(status) => State::from_state(&status.state),
            None => State::Unknown,
        }
    }

    /// The restarts of the container and how long ago it last finished.
    pub fn restarts(&self, now: i64) -> (s: String)
        requires
            last_finish(*self) matches Some(t) ==> in_delta_range(now - t),
        ensures
            s@ == container_restarts_text(*self, now),
    {
        let Some(status) = &self.status else {
            return from_chars(&['-']);
        };
        let finished: Option<i64> = match &status.last_state {
            Some(ls) => match &ls.terminated {
                Some(t) => t.finished_at,
                None => None,
            },
            None => None,
        };
        let mut s = fmt_i64(status.restart_count as i64);
        match finished {
            Some(t) => {
                push_str(&mut s, " (");
                proof {
                    reveal_strlit(" (");
                }
                let d: i64 = now - t;
                let a = d.to_age();
                push_str(&mut s, a.as_str());
                push_char(&mut s, ')');
                s
            },
            None => s,
        }
    }

    /// How long the container has been running.
    pub fn age(&self, now: i64) -> (s: String)
        requires
            started(*self) matches Some(t) ==> in_delta_range(now - t),
        ensures
            s@ == container_age_text(*self, now),
    {
        let started: Option<i64> = match &self.status {
            Some(st) => match &st.state {
                Some(cs) => match &cs.running {
                    Some(r) => r.started_at,
                    None => None,
                },
                None => None,
            },
            None => None,
        };
        match started {
            Some(t) => {
                let d: i64 = now - t;
                d.to_age()
            },
            None => from_chars(&['-']),
        }
    }

    /// `Yes` or `No`.
    pub fn ready(&self) -> (s: String)
        ensures
            s@ == ready_word(*self),
    {
        match &self.status {
            Some(st) => if st.ready {
                from_chars(&['Y', 'e', 's'])
            } else {
                from_chars(&['N', 'o'])
            },
            None => from_chars(&['N', 'o']),
        }
    }

    /// The column names of the containers' table.
    pub fn header() -> (r: Vec<String>)
        ensures
            r@.map_values(|c: String| c@) == container_header(),
    {
        let mut r: Vec<String> = Vec::new();
        r.push("Name".to_string());
        r.push("Image".to_string());
        r.push("Ready".to_string());
        r.push("State".to_string());
        r.push("Restarts".to_string());
        r.push("Age".to_string());
        assert(r@.map_values(|c: String| c@) =~= container_header());
        r
    }

    /// The cells of the container's row: name, image, ready, state,
    /// restarts and age, at `now`.
    pub fn row(&self, now: i64) -> (cells: Vec<String>)
        requires
            last_finish(*self) matches Some(t) ==> in_delta_range(now - t),
            started(*self) matches Some(t) ==> in_delta_range(now - t),
        ensures
            cells@.map_values(|c: String| c@) == seq![
                self.spec.name@,
                image_text(*self),
                ready_word(*self),
                container_state_text(*self),
                container_restarts_text(*self, now),
                container_age_text(*self, now),
            ],
    {
        let mut cells: Vec<String> = Vec::new();
        cells.push(self.name_any());
        cells.push(self.image());
        cells.push(self.ready());
        let st = self.state();
        let text = st.to_text();
        assert(text@ == container_state_text(*self));
        cells.push(text);
        cells.push(self.restarts(now));
        cells.push(self.age(now));
        assert(cells@.map_values(|c: String| c@) =~= seq![
            self.spec.name@,
            image_text(*self),
            ready_word(*self),
            container_state_text(*self),
            container_restarts_text(*self, now),
            container_age_text(*self, now),
        ]);
        cells
    }

    /// How the container's row is shown: running and waiting containers are
    /// normal, the others unhealthy.
    pub fn tone(&self) -> (t: Tone)
        ensures
            t == state_tone(
                match self.status {
                    Some(st) => st.state,
                    None => None,
                },
            ),
    {
        let s = self.state();
        match s {
            State::Running | State::Waiting(_) => Tone::Normal,
            _ => Tone::Unhealthy,
        }
    }
}

/// The tone of a row by the container's state.
pub open spec fn state_tone(st: Option<ContainerState>) -> Tone {
    match st {
        Some(cs) => if cs.running is Some {
            Tone::Normal
        } else if cs.terminated is Some {
            Tone::Unhealthy
        } else if cs.waiting is Some {
            Tone::Normal
        } else {
            Tone::Unhealthy
        },
        None => Tone::Unhealthy,
    }
}

// ---------------------------------------------------------------------------
// The containers of a pod
// ---------------------------------------------------------------------------
/// The index of the first specification named `name`, or -1.
pub open spec fn first_named(specs: Seq<ContainerSpec>, name: Seq<char>) -> int
    decreases specs.len(),
{
    if specs.len() == 0 {
        -1
    } else {
        let r = first_named(specs.drop_last(), name);
        if r >= 0 {
            r
        } else if specs.last().name@ == name {
            specs.len() - 1
        } else {
            -1
        }
    }
}

/// The status that container `k` ends up with when each status in turn goes
/// to the first container of its name.
pub open spec fn attached_status(
    specs: Seq<ContainerSpec>,
    sts: Seq<ContainerStatus>,
    k: int,
) -> Option<ContainerStatus>
    decreases sts.len(),
{
    if sts.len() == 0 {
        None
    } else if first_named(specs, sts.last().name@) == k {
        Some(sts.last())
    } else {
        attached_status(specs, sts.drop_last(), k)
    }
}

pub open spec fn specs_of(p: Pod) -> Seq<ContainerSpec> {
    match p.containers {
        Some(v) => v@,
        None => Seq::empty(),
    }
}

pub open spec fn joined_containers(p: Pod, sts: Seq<ContainerStatus>) -> Seq<Container> {
    Seq::new(
        specs_of(p).len(),
        |k: int|
            Container {
                namespace: p.namespace,
                pod_name: p.name,
                spec: specs_of(p)[k],
                status: attached_status(specs_of(p), sts, k),
            },
    )
}

/// The containers whose name holds `f`, in order.
pub open spec fn keep_named(cs: Seq<Container>, f: Seq<char>) -> Seq<Container>
    decreases cs.len(),
{
    if cs.len() == 0 {
        Seq::empty()
    } else if contains(cs.last().spec.name@, f) {
        keep_named(cs.drop_last(), f).push(cs.last())
    } else {
        keep_named(cs.drop_last(), f)
    }
}

/// The containers of a pod: one per specification, each with the status of
/// its name; without container statuses the list is returned as it is, else
/// only the containers whose name holds the filter are kept.
pub open spec fn containers_of(p: Pod, filter: Option<Seq<char>>) -> Seq<Container> {
    match statuses_of(p) {
        None => joined_containers(p, Seq::empty()),
        Some(sts) => match filter {
            None => joined_containers(p, sts),
            Some(f) => keep_named(joined_containers(p, sts), f),
        },
    }
}

fn find_named(cs: &Vec<Container>, name: &String) -> (r: Option<usize>)
    ensures
        match r {
            Some(i) => i as int == first_named(cs@.map_values(|c: Container| c.spec), name@),
            None => first_named(cs@.map_values(|c: Container| c.spec), name@) == -1,
        },
{
    let ghost specs = cs@.map_values(|c: Container| c.spec);
    let mut i: usize = 0;
    while i < cs.len()
        invariant
            i <= cs.len(),
            specs == cs@.map_values(|c: Container| c.spec),
            first_named(specs.take(i as int), name@) == -1,
        decreases cs.len() - i,
    {
        assert(specs.take(i + 1).drop_last() == specs.take(i as int));
        if cs[i].spec.name == *name {
            proof {
                lemma_first_named_at(specs, name@, i as int);
            }
            return Some(i);
        }
        i = i + 1;
    }
    assert(specs.take(i as int) == specs);
    None
}

proof fn lemma_first_named_bound(specs: Seq<ContainerSpec>, name: Seq<char>)
    ensures
        -1 <= first_named(specs, name) < specs.len(),
    decreases specs.len(),
{
    if specs.len() > 0 {
        lemma_first_named_bound(specs.drop_last(), name);
    }
}

proof fn lemma_first_named_at(specs: Seq<ContainerSpec>, name: Seq<char>, i: int)
    requires
        0 <= i < specs.len(),
        specs[i].name@ == name,
        first_named(specs.take(i), name) == -1,
    ensures
        first_named(specs, name) == i,
    decreases specs.len(),
{
    if specs.len() > i + 1 {
        assert(specs.drop_last().take(i) == specs.take(i));
        lemma_first_named_at(specs.drop_last(), name, i);
    } else {
        assert(specs.drop_last() == specs.take(i));
    }
}

/// Why a container of a pod could not be listed.
pub open spec fn container_not_found(container: Seq<char>, pod: Seq<char>, namespace: Seq<char>) -> Seq<char> {
    "container "@ + container + " not found in pod "@ + pod + " from namespace "@ + namespace
}

impl Pod {
    /// The container whose files are listed at `/<namespace>/<pod>/<container>`:
    /// the first of the pod's containers that `containers` keeps for the
    /// filter `container`, or, where there is none, the error naming the
    /// container, the pod and the namespace asked for.
    pub fn listed_container(&self, container: &str, pod: &str, namespace: &str) -> (r: Result<Container, String>)
        ensures
            ({
                let cs = containers_of(*self, Some(container@));
                if cs.len() > 0 {
                    r == Ok::<Container, String>(cs[0])
                } else {
                    r matches Err(m) && m@ == container_not_found(container@, pod@, namespace@)
                }
            }),
    {
        let mut cs = self.containers(Some(container.to_string()));
        if cs.len() > 0 {
            Ok(cs.remove(0))
        } else {
            let a = concat("container ", container);
            let b = concat(a.as_str(), " not found in pod ");
            let c = concat(b.as_str(), pod);
            let d = concat(c.as_str(), " from namespace ");
            Err(concat(d.as_str(), namespace))
        }
    }

    /// The pod's containers, joined with their statuses and, where the pod
    /// has container statuses, kept only where their name holds `filter`.
    pub fn containers(&self, filter: Option<String>) -> (r: Vec<Container>)
        ensures
            r@ == containers_of(*self, opt_text(filter)),
    {
        let mut containers: Vec<Container> = Vec::new();
        let ghost specs = specs_of(*self);
        if let Some(list) = &self.containers {
            let mut i: usize = 0;
            while i < list.len()
                invariant
                    i <= list.len(),
                    specs == list@,
                    specs == specs_of(*self),
                    containers@ =~= joined_containers(*self, Seq::empty()).take(i as int),
                decreases list.len() - i,
            {
                containers.push(Container::new(self, copy_spec(&list[i])));
                i = i + 1;
            }
        }
        assert(containers@ =~= joined_containers(*self, Seq::empty()));
        let Some(status) = &self.status else {
            return containers;
        };
        let Some(sts) = &status.container_statuses else {
            return containers;
        };
        let mut j: usize = 0;
        assert(sts@.take(0) =~= Seq::<ContainerStatus>::empty());
        while j < sts.len()
            invariant
                j <= sts.len(),
                specs == specs_of(*self),
                containers@ == joined_containers(*self, sts@.take(j as int)),
            decreases sts.len() - j,
        {
            let ghost before = containers@;
            assert(before.map_values(|c: Container| c.spec) =~= specs);
            assert(sts@.take(j + 1).drop_last() == sts@.take(j as int));
            let st = copy_status(&sts[j]);
            match find_named(&containers, &sts[j].name) {
                Some(k) => {
                    proof {
                        lemma_first_named_bound(specs, sts@[j as int].name@);
                    }
                    let mut c = copy_container(&containers[k]);
                    c.with_status(st);
                    containers.set(k, c);
                },
                None => {},
            }
            j = j + 1;
            assert(containers@ =~= joined_containers(*self, sts@.take(j as int)));
        }
        assert(sts@.take(j as int) == sts@);
        let Some(f) = filter else {
            return containers;
        };
        let mut kept: Vec<Container> = Vec::new();
        let mut i: usize = 0;
        while i < containers.len()
            invariant
                i <= containers.len(),
                kept@ == keep_named(containers@.take(i as int), f@),
            decreases containers.len() - i,
        {
            assert(containers@.take(i + 1).drop_last() == containers@.take(i as int));
            if contains_str(containers[i].spec.name.as_str(), f.as_str()) {
                kept.push(copy_container(&containers[i]));
            }
            i = i + 1;
        }
        assert(containers@.take(i as int) == containers@);
        kept
    }
}

} // verus!
