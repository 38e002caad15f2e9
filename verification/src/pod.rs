//! Pods and their containers, as the dashboard lists them. The types hold the
//! parts of the Kubernetes objects that the tables read; times are seconds
//! since the Unix epoch.
use vstd::prelude::*;

use crate::age::{age_text, in_delta_range, Age};
use crate::number::{digits, fmt_i64, fmt_u64, int_str};
use crate::table::Tone;
use crate::text::{contains, contains_str, from_chars, join, join_strings, push_char, push_str};

verus! {

/// A running container (`ContainerStateRunning`).
#[derive(Debug, Clone, PartialEq, Eq)]
pub struct Running {
    pub started_at: Option<i64>,
}

/// A container that has ended (`ContainerStateTerminated`).
#[derive(Debug, Clone, PartialEq, Eq)]
pub struct Terminated {
    pub reason: Option<String>,
    pub finished_at: Option<i64>,
}

/// A container that waits to start (`ContainerStateWaiting`).
#[derive(Debug, Clone, PartialEq, Eq)]
pub struct Waiting {
    pub reason: Option<String>,
}

/// The state of a container (`ContainerState`); at most one part is set.
#[derive(Debug, Clone, PartialEq, Eq)]
pub struct ContainerState {
    pub running: Option<Running>,
    pub terminated: Option<Terminated>,
    pub waiting: Option<Waiting>,
}

/// The status of a container (`ContainerStatus`).
#[derive(Debug, Clone, PartialEq, Eq)]
pub struct ContainerStatus {
    pub name: String,
    pub image: String,
    pub ready: bool,
    pub restart_count: i32,
    pub state: Option<ContainerState>,
    pub last_state: Option<ContainerState>,
}

/// The specification of a container (`Container`).
#[derive(Debug, Clone, PartialEq, Eq)]
pub struct ContainerSpec {
    pub name: String,
    pub image: Option<String>,
}

/// The status of a pod (`PodStatus`).
#[derive(Debug, Clone, PartialEq, Eq)]
pub struct PodStatus {
    pub phase: Option<String>,
    pub container_statuses: Option<Vec<ContainerStatus>>,
}

/// A pod: its name, namespace, creation time, containers and status.
#[derive(Debug, Clone, PartialEq, Eq)]
pub struct Pod {
    pub name: String,
    pub namespace: Option<String>,
    pub created: Option<i64>,
    pub containers: Option<Vec<ContainerSpec>>,
    pub status: Option<PodStatus>,
}

/// The phase of a pod.
#[derive(Debug, Clone, PartialEq, Eq)]
pub enum Phase {
    Pending,
    Running,
    Succeeded,
    Unknown(String),
}

pub open spec fn pending_text() -> Seq<char> {
    seq!['P', 'e', 'n', 'd', 'i', 'n', 'g']
}

pub open spec fn running_text() -> Seq<char> {
    seq!['R', 'u', 'n', 'n', 'i', 'n', 'g']
}

pub open spec fn succeeded_text() -> Seq<char> {
    seq!['S', 'u', 'c', 'c', 'e', 'e', 'd', 'e', 'd']
}

pub open spec fn unknown_text() -> Seq<char> {
    seq!['U', 'n', 'k', 'n', 'o', 'w', 'n']
}

/// The phase that a phase name reads as: the three names it knows, anything
/// else (`Unknown` where there is no name) as an unknown phase.
pub open spec fn phase_of(name: Option<Seq<char>>, p: Phase) -> bool {
    match name {
        Some(s) => if s == pending_text() {
            p == Phase::Pending
        } else if s == running_text() {
            p == Phase::Running
        } else if s == succeeded_text() {
            p == Phase::Succeeded
        } else {
            p matches Phase::Unknown(x) && x@ == s
        },
        None => p matches Phase::Unknown(x) && x@ == unknown_text(),
    }
}

/// The name that a phase is shown by.
pub open spec fn phase_name(p: Phase) -> Seq<char> {
    match p {
        Phase::Pending => pending_text(),
        Phase::Running => running_text(),
        Phase::Succeeded => succeeded_text(),
        Phase::Unknown(s) => s@,
    }
}

pub open spec fn opt_text(o: Option<String>) -> Option<Seq<char>> {
    match o {
        Some(s) => Some(s@),
        None => None,
    }
}

fn text_eq(a: &String, b: &[char]) -> (r: bool)
    ensures
        r == (a@ == b@),
{
    let v = crate::text::to_chars(a.as_str());
    if v.len() != b.len() {
        return false;
    }
    let mut i: usize = 0;
    while i < v.len()
        invariant
            i <= v.len() == b.len(),
            v@ == a@,
            forall|k: int| 0 <= k < i ==> v@[k] == b@[k],
        decreases v.len() - i,
    {
        if v[i] != b[i] {
            assert(a@[i as int] != b@[i as int]);
            return false;
        }
        i = i + 1;
    }
    assert(v@ =~= b@);
    true
}

impl Phase {
    /// The phase that an optional phase name reads as.
    pub fn from_name(name: &Option<String>) -> (p: Phase)
        ensures
            phase_of(opt_text(*name), p),
    {
        match name {
            Some(s) => {
                if text_eq(s, &['P', 'e', 'n', 'd', 'i', 'n', 'g']) {
                    Phase::Pending
                } else if text_eq(s, &['R', 'u', 'n', 'n', 'i', 'n', 'g']) {
                    Phase::Running
                } else if text_eq(s, &['S', 'u', 'c', 'c', 'e', 'e', 'd', 'e', 'd']) {
                    Phase::Succeeded
                } else {
                    Phase::Unknown(s.clone())
                }
            },
            None => Phase::Unknown(from_chars(&['U', 'n', 'k', 'n', 'o', 'w', 'n'])),
        }
    }

    /// The name the phase is shown by.
    pub fn to_text(&self) -> (s: String)
        ensures
            s@ == phase_name(*self),
    {
        match self {
            Phase::Pending => from_chars(&['P', 'e', 'n', 'd', 'i', 'n', 'g']),
            Phase::Running => from_chars(&['R', 'u', 'n', 'n', 'i', 'n', 'g']),
            Phase::Succeeded => from_chars(&['S', 'u', 'c', 'c', 'e', 'e', 'd', 'e', 'd']),
            Phase::Unknown(s) => s.clone(),
        }
    }
}

/// Containers that are ready.
pub open spec fn count_ready(s: Seq<ContainerStatus>) -> int
    decreases s.len(),
{
    if s.len() == 0 {
        0
    } else {
        count_ready(s.drop_last()) + if s.last().ready {
            1int
        } else {
            0int
        }
    }
}

/// Restarts of all the containers together.
pub open spec fn total_restarts(s: Seq<ContainerStatus>) -> int
    decreases s.len(),
{
    if s.len() == 0 {
        0
    } else {
        total_restarts(s.drop_last()) + s.last().restart_count
    }
}

/// When a container last finished, if its last state says so.
pub open spec fn finished_at(c: ContainerStatus) -> Option<i64> {
    match c.last_state {
        Some(ls) => match ls.terminated {
            Some(t) => t.finished_at,
            None => None,
        },
        None => None,
    }
}

/// The latest time at which one of the containers finished.
pub open spec fn latest_finish(s: Seq<ContainerStatus>) -> Option<i64>
    decreases s.len(),
{
    if s.len() == 0 {
        None
    } else {
        let before = latest_finish(s.drop_last());
        match finished_at(s.last()) {
            Some(t) => match before {
                Some(b) => if t > b {
                    Some(t)
                } else {
                    Some(b)
                },
                None => Some(t),
            },
            None => before,
        }
    }
}

/// The statuses of the pod's containers, where the pod has them.
pub open spec fn statuses_of(p: Pod) -> Option<Seq<ContainerStatus>> {
    match p.status {
        Some(st) => match st.container_statuses {
            Some(cs) => Some(cs@),
            None => None,
        },
        None => None,
    }
}

/// `ready/total` over the container statuses, `0/0` without them.
pub open spec fn ready_text(p: Pod) -> Seq<char> {
    match statuses_of(p) {
        Some(cs) => int_str(count_ready(cs)) + seq!['/'] + digits(cs.len()),
        None => seq!['0', '/', '0'],
    }
}

/// The sums of restarts fit in an `i32` all along.
pub open spec fn restarts_fit(cs: Seq<ContainerStatus>) -> bool {
    forall|k: int| 0 <= k <= cs.len() ==> i32::MIN <= #[trigger] total_restarts(cs.take(k)) <= i32::MAX
}

/// The total of restarts, then the age of the latest finish in brackets
/// where a container has finished; `0` without container statuses.
pub open spec fn restarts_text(p: Pod, now: i64) -> Seq<char> {
    match statuses_of(p) {
        Some(cs) => match latest_finish(cs) {
            Some(t) => int_str(total_restarts(cs)) + seq![' ', '('] + age_text(now - t) + seq![')'],
            None => int_str(total_restarts(cs)),
        },
        None => seq!['0'],
    }
}

pub open spec fn restarts_ok(p: Pod, now: i64) -> bool {
    match statuses_of(p) {
        Some(cs) => restarts_fit(cs) && match latest_finish(cs) {
            Some(t) => in_delta_range(now - t),
            None => true,
        },
        None => true,
    }
}

/// What a container waits on: the reason of its waiting state, else that of
/// its terminated state, else `unknown`.
pub open spec fn waiting_reason(c: ContainerStatus) -> Seq<char> {
    match c.state {
        Some(st) => if st.waiting is Some && st.waiting.unwrap().reason is Some {
            st.waiting.unwrap().reason.unwrap()@
        } else if st.terminated is Some && st.terminated.unwrap().reason is Some {
            st.terminated.unwrap().reason.unwrap()@
        } else {
            seq!['u', 'n', 'k', 'n', 'o', 'w', 'n']
        },
        None => seq!['u', 'n', 'k', 'n', 'o', 'w', 'n'],
    }
}

pub open spec fn is_waiting(c: ContainerStatus) -> bool {
    c.state matches Some(st) && st.waiting is Some
}

/// The reasons of the waiting containers, in order.
pub open spec fn waiting_reasons(s: Seq<ContainerStatus>) -> Seq<Seq<char>>
    decreases s.len(),
{
    if s.len() == 0 {
        Seq::empty()
    } else if is_waiting(s.last()) {
        waiting_reasons(s.drop_last()).push(waiting_reason(s.last()))
    } else {
        waiting_reasons(s.drop_last())
    }
}

/// The phase name that a pod's status reads as: without a status, empty;
/// where containers wait, their reasons joined with `, `; else the phase.
pub open spec fn status_name(p: Pod) -> Option<Seq<char>> {
    match p.status {
        None => Some(Seq::empty()),
        Some(st) => match st.container_statuses {
            None => opt_text(st.phase),
            Some(cs) => if waiting_reasons(cs@).len() == 0 {
                opt_text(st.phase)
            } else {
                Some(join(waiting_reasons(cs@), seq![',', ' ']))
            },
        },
    }
}

/// The text of the pod's status column: the phase name its status reads
/// as, or `Unknown`.
pub open spec fn status_text(p: Pod) -> Seq<char> {
    match status_name(p) {
        Some(s) => s,
        None => unknown_text(),
    }
}

/// Seconds since the pod was created, 0 without a creation time.
pub open spec fn pod_age(p: Pod, now: i64) -> int {
    match p.created {
        Some(c) => now - c,
        None => 0,
    }
}

/// The column names of the pods' table.
pub open spec fn pod_header() -> Seq<Seq<char>> {
    seq!["Namespace"@, "Name"@, "Ready"@, "Status"@, "Restarts"@, "Age"@]
}

impl Pod {
    /// `ready/total` containers.
    pub fn ready(&self) -> (s: String)
        requires
            statuses_of(*self) matches Some(cs) ==> cs.len() <= i32::MAX,
        ensures
            s@ == ready_text(*self),
    {
        let Some(status) = &self.status else {
            return from_chars(&['0', '/', '0']);
        };
        let Some(containers) = &status.container_statuses else {
            return from_chars(&['0', '/', '0']);
        };
        let mut ready: i32 = 0;
        let mut i: usize = 0;
        while i < containers.len()
            invariant
                i <= containers.len() <= i32::MAX,
                ready == count_ready(containers@.take(i as int)),
                0 <= ready <= i,
            decreases containers.len() - i,
        {
            assert(containers@.take(i + 1).drop_last() == containers@.take(i as int));
            if containers[i].ready {
                ready = ready + 1;
            }
            i = i + 1;
        }
        assert(containers@.take(i as int) == containers@);
        let mut s = fmt_i64(ready as i64);
        push_char(&mut s, '/');
        let t = fmt_u64(containers.len() as u64);
        push_str(&mut s, t.as_str());
        s
    }

    /// Restarts of the pod's containers and how long ago the last one ended.
    pub fn restarts(&self, now: i64) -> (s: String)
        requires
            restarts_ok(*self, now),
        ensures
            s@ == restarts_text(*self, now),
    {
        let Some(status) = &self.status else {
            return from_chars(&['0']);
        };
        let Some(containers) = &status.container_statuses else {
            return from_chars(&['0']);
        };
        let ghost cs = containers@;
        let mut total: i32 = 0;
        let mut recent: Option<i64> = None;
        let mut i: usize = 0;
        assert(cs.take(0) =~= Seq::<ContainerStatus>::empty());
        while i < containers.len()
            invariant
                i <= containers.len(),
                cs == containers@,
                restarts_fit(cs),
                total == total_restarts(cs.take(i as int)),
                recent == latest_finish(cs.take(i as int)),
            decreases containers.len() - i,
        {
            assert(cs.take(i + 1).drop_last() == cs.take(i as int));
            assert(i32::MIN <= total_restarts(cs.take(i + 1)) <= i32::MAX);
            total = total + containers[i].restart_count;
            let c = &containers[i];
            let f: Option<i64> = match &c.last_state {
                Some(ls) => match &ls.terminated {
                    Some(t) => t.finished_at,
                    None => None,
                },
                None => None,
            };
            match f {
                Some(t) => {
                    recent = match recent {
                        Some(b) => if t > b {
                            Some(t)
                        } else {
                            Some(b)
                        },
                        None => Some(t),
                    };
                },
                None => {},
            }
            i = i + 1;
        }
        assert(cs.take(i as int) == cs);
        let mut s = fmt_i64(total as i64);
        match recent {
            None => s,
            Some(t) => {
                push_str(&mut s, " (");
                proof {
                    reveal_strlit(" (");
                }
                let d: i64 = now - t;
                let a = d.to_age();
                push_str(&mut s, a.as_str());
                push_char(&mut s, ')');
                s
            },
        }
    }

    /// The phase that the pod's status reads as.
    pub fn status(&self) -> (p: Phase)
        ensures
            phase_of(status_name(*self), p),
    {
        let Some(status) = &self.status else {
            return Phase::from_name(&Some(String::new()));
        };
        let Some(containers) = &status.container_statuses else {
            return Phase::from_name(&status.phase);
        };
        let ghost cs = containers@;
        let mut reasons: Vec<String> = Vec::new();
        let mut i: usize = 0;
        assert(cs.take(0) =~= Seq::<ContainerStatus>::empty());
        while i < containers.len()
            invariant
                i <= containers.len(),
                cs == containers@,
                reasons@.map_values(|r: String| r@) == waiting_reasons(cs.take(i as int)),
            decreases containers.len() - i,
        {
            assert(cs.take(i + 1).drop_last() == cs.take(i as int));
            let c = &containers[i];
            if let Some(st) = &c.state {
                if st.waiting.is_some() {
                    let reason: String = match (&st.waiting, &st.terminated) {
                        (Some(Waiting { reason: Some(x) }), _) => x.clone(),
                        (_, Some(Terminated { reason: Some(x), .. })) => x.clone(),
                        _ => from_chars(&['u', 'n', 'k', 'n', 'o', 'w', 'n']),
                    };
                    assert(reason@ == waiting_reason(cs[i as int]));
                    let ghost before = reasons@;
                    reasons.push(reason);
                    assert(reasons@.map_values(|r: String| r@) =~= before.map_values(
                        |r: String| r@,
                    ).push(reason@));
                }
            }
            i = i + 1;
        }
        assert(cs.take(i as int) == cs);
        if reasons.len() == 0 {
            return Phase::from_name(&status.phase);
        }
        let sep = ", ";
        proof {
            reveal_strlit(", ");
            assert(sep@ =~= seq![',', ' ']);
        }
        let joined = join_strings(&reasons, sep);
        assert(joined@ == join(waiting_reasons(cs), seq![',', ' ']));
        assert(status_name(*self) == Some(joined@));
        Phase::from_name(&Some(joined))
    }

    /// Seconds since the pod was created, 0 where it has no creation time.
    pub fn age_seconds(&self, now: i64) -> (d: i64)
        requires
            self.created matches Some(c) ==> i64::MIN <= now - c <= i64::MAX,
        ensures
            d == match self.created {
                Some(c) => now - c,
                None => 0,
            },
    {
        match self.created {
            Some(c) => now - c,
            None => 0,
        }
    }

    /// The column names of the pods' table.
    pub fn header() -> (r: Vec<String>)
        ensures
            r@.map_values(|c: String| c@) == pod_header(),
    {
        let mut r: Vec<String> = Vec::new();
        r.push("Namespace".to_string());
        r.push("Name".to_string());
        r.push("Ready".to_string());
        r.push("Status".to_string());
        r.push("Restarts".to_string());
        r.push("Age".to_string());
        assert(r@.map_values(|c: String| c@) =~= pod_header());
        r
    }

    /// The cells of the pod's row: namespace, name, ready, status, restarts
    /// and age, at `now`. Pods listed from the cluster always have a
    /// namespace.
    pub fn row(&self, now: i64) -> (cells: Vec<String>)
        requires
            self.namespace is Some,
            statuses_of(*self) matches Some(cs) ==> cs.len() <= i32::MAX,
            restarts_ok(*self, now),
            self.created matches Some(c) ==> i64::MIN <= now - c <= i64::MAX,
            in_delta_range(pod_age(*self, now)),
        ensures
            cells@.map_values(|c: String| c@) == seq![
                self.namespace.unwrap()@,
                self.name@,
                ready_text(*self),
                status_text(*self),
                restarts_text(*self, now),
                age_text(pod_age(*self, now)),
            ],
    {
        let mut cells: Vec<String> = Vec::new();
        let ns = match &self.namespace {
            Some(n) => n.clone(),
            None => String::new(),
        };
        cells.push(ns);
        cells.push(self.name.clone());
        cells.push(self.ready());
        let phase = self.status();
        let shown = phase.to_text();
        assert(shown@ == status_text(*self));
        cells.push(shown);
        cells.push(self.restarts(now));
        let age = self.age_seconds(now);
        cells.push(age.to_age());
        assert(cells@.map_values(|c: String| c@) =~= seq![
            self.namespace.unwrap()@,
            self.name@,
            ready_text(*self),
            status_text(*self),
            restarts_text(*self, now),
            age_text(pod_age(*self, now)),
        ]);
        cells
    }

    /// How the pod's row is shown: pending and running are normal,
    /// succeeded healthy, anything else unhealthy.
    pub fn tone(&self) -> (t: Tone)
        ensures
            t == phase_tone(status_name(*self)),
    {
        let p = self.status();
        match p {
            Phase::Pending | Phase::Running => Tone::Normal,
            Phase::Succeeded => Tone::Healthy,
            Phase::Unknown(_) => Tone::Unhealthy,
        }
    }
}

/// The tone of a pod's row by the phase name its status reads as.
pub open spec fn phase_tone(name: Option<Seq<char>>) -> Tone {
    match name {
        Some(s) => if s == pending_text() || s == running_text() {
            Tone::Normal
        } else if s == succeeded_text() {
            Tone::Healthy
        } else {
            Tone::Unhealthy
        },
        None => Tone::Unhealthy,
    }
}

impl crate::table::Filter for Pod {
    /// A pod is picked when its name holds the filter.
    open spec fn picks(&self, filter: Seq<char>) -> bool {
        contains(self.name@, filter)
    }

    /// Whether the pod's name holds `filter`.
    fn matches(&self, filter: &str) -> (b: bool)
        ensures
            b == contains(self.name@, filter@),
    {
        contains_str(self.name.as_str(), filter)
    }
}

proof fn lemma_no_waiting_no_reasons(s: Seq<ContainerStatus>)
    requires
        forall|i: int| 0 <= i < s.len() ==> !(#[trigger] s[i].state matches Some(st) && st.waiting is Some),
    ensures
        waiting_reasons(s).len() == 0,
    decreases s.len(),
{
    if s.len() > 0 {
        assert(!(s[s.len() - 1].state matches Some(st) && st.waiting is Some));
        assert forall|i: int| 0 <= i < s.drop_last().len() implies !(#[trigger] s.drop_last()[i].state matches Some(
            st,
        ) && st.waiting is Some) by {
            assert(s.drop_last()[i] == s[i]);
        }
        lemma_no_waiting_no_reasons(s.drop_last());
    }
}

/// Only waiting containers change a pod's status: where no container
/// status has a waiting state, the pod reads as its phase, whatever its
/// running or terminated states say.
pub proof fn law_status_is_the_phase_without_waiting(p: Pod)
    requires
        p.status matches Some(st) && match st.container_statuses {
            Some(cs) => forall|i: int|
                0 <= i < cs@.len() ==> !(#[trigger] cs@[i].state matches Some(c) && c.waiting is Some),
            None => true,
        },
    ensures
        status_name(p) == opt_text(p.status.unwrap().phase),
{
    match p.status.unwrap().container_statuses {
        Some(cs) => lemma_no_waiting_no_reasons(cs@),
        None => {},
    }
}

/// The reason a container waits with, where its waiting state gives one.
pub open spec fn waits_with(c: ContainerStatus) -> Option<Seq<char>> {
    match c.state {
        Some(st) => match st.waiting {
            Some(w) => match w.reason {
                Some(r) => Some(r@),
                None => None,
            },
            None => None,
        },
        None => None,
    }
}

proof fn lemma_all_waiting_reasons(s: Seq<ContainerStatus>)
    requires
        forall|i: int| 0 <= i < s.len() ==> (#[trigger] waits_with(s[i])) is Some,
    ensures
        waiting_reasons(s) == Seq::new(s.len(), |i: int| waits_with(s[i]).unwrap()),
    decreases s.len(),
{
    if s.len() > 0 {
        assert forall|i: int| 0 <= i < s.drop_last().len() implies (#[trigger] waits_with(s.drop_last()[i])) is Some by {
            assert(s.drop_last()[i] == s[i]);
        }
        lemma_all_waiting_reasons(s.drop_last());
        assert(waits_with(s[s.len() - 1]) is Some);
        assert(waiting_reasons(s) =~= Seq::new(s.len(), |i: int| waits_with(s[i]).unwrap()));
    }
}

/// Where every container waits with a reason, the pod reads as those
/// reasons in order, joined with `, `: one waiting container is shown by
/// its reason alone.
pub proof fn law_status_shows_waiting_reasons(p: Pod)
    requires
        p.status matches Some(st) && st.container_statuses matches Some(cs) && cs@.len() > 0 && forall|i: int|
            0 <= i < cs@.len() ==> (#[trigger] waits_with(cs@[i])) is Some,
    ensures
        ({
            let cs = p.status.unwrap().container_statuses.unwrap()@;
            status_name(p) == Some(join(Seq::new(cs.len(), |i: int| waits_with(cs[i]).unwrap()), seq![',', ' ']))
        }),
{
    let cs = p.status.unwrap().container_statuses.unwrap()@;
    lemma_all_waiting_reasons(cs);
}

} // verus!
