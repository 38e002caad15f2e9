use kty::age::Age;
use kty::container::{Container, State};
use kty::file::{File, ListTarget, ReadTarget, StatTarget};
use kty::listing::{
    cat_command, files_of_output, files_of_text, line_readable, ls_command, stat_of_files, to_file,
    to_file_checked, ListingError,
};
use kty::node::{Node, NodeCondition, Status};
use kty::order::{compare_str, Compare};
use kty::pod::{
    ContainerSpec, ContainerState, ContainerStatus, Phase, Pod, PodStatus, Running, Terminated,
    Waiting,
};
use kty::store::{select, select_at};
use kty::table::{Filter, Tone};
use std::cmp::Ordering;

fn status(name: &str, ready: bool, restarts: i32) -> ContainerStatus {
    ContainerStatus {
        name: name.to_string(),
        image: format!("{name}:latest"),
        ready,
        restart_count: restarts,
        state: None,
        last_state: None,
    }
}

fn spec(name: &str) -> ContainerSpec {
    ContainerSpec { name: name.to_string(), image: None }
}

fn pod(statuses: Option<Vec<ContainerStatus>>, phase: Option<&str>) -> Pod {
    Pod {
        name: "web-1".to_string(),
        namespace: Some("default".to_string()),
        created: Some(1_000),
        containers: Some(vec![spec("app"), spec("sidecar")]),
        status: Some(PodStatus { phase: phase.map(str::to_string), container_statuses: statuses }),
    }
}

fn waiting(reason: Option<&str>) -> Option<ContainerState> {
    Some(ContainerState {
        running: None,
        terminated: None,
        waiting: Some(Waiting { reason: reason.map(str::to_string) }),
    })
}

#[test]
fn ages_show_the_two_largest_units() {
    assert_eq!(0i64.to_age(), "0s");
    assert_eq!(59i64.to_age(), "59s");
    assert_eq!(61i64.to_age(), "1m1s");
    assert_eq!(3_600i64.to_age(), "1h");
    assert_eq!(90_061i64.to_age(), "1d1h");
    assert_eq!(1_209_600i64.to_age(), "2w");
    assert_eq!(1_296_000i64.to_age(), "2w1d");
    assert_eq!((-61i64).to_age(), "-1m-1s");
}

#[test]
fn pod_ready_counts_ready_containers() {
    let p = pod(Some(vec![status("app", true, 0), status("sidecar", false, 0)]), Some("Running"));
    assert_eq!(p.ready(), "1/2");
    let empty = Pod { status: None, ..pod(None, None) };
    assert_eq!(empty.ready(), "0/0");
    assert_eq!(pod(None, Some("Running")).ready(), "0/0");
}

#[test]
fn pod_restarts_show_the_latest_finish() {
    let mut a = status("app", true, 2);
    a.last_state = Some(ContainerState {
        running: None,
        terminated: Some(Terminated { reason: Some("Error".to_string()), finished_at: Some(100) }),
        waiting: None,
    });
    let mut b = status("sidecar", true, 3);
    b.last_state = Some(ContainerState {
        running: None,
        terminated: Some(Terminated { reason: None, finished_at: Some(400) }),
        waiting: None,
    });
    let p = pod(Some(vec![a, b]), Some("Running"));
    assert_eq!(p.restarts(461), "5 (1m1s)");
    let plain = pod(Some(vec![status("app", true, 4)]), Some("Running"));
    assert_eq!(plain.restarts(0), "4");
    assert_eq!(pod(None, None).restarts(0), "0");
}

#[test]
fn pod_status_prefers_waiting_reasons() {
    let mut a = status("app", false, 0);
    a.state = waiting(Some("CrashLoopBackOff"));
    let mut b = status("sidecar", false, 0);
    b.state = waiting(None);
    let p = pod(Some(vec![a, b]), Some("Running"));
    assert_eq!(p.status(), Phase::Unknown("CrashLoopBackOff, unknown".to_string()));
    assert_eq!(p.tone(), Tone::Unhealthy);

    let running = pod(Some(vec![status("app", true, 0)]), Some("Running"));
    assert_eq!(running.status(), Phase::Running);
    assert_eq!(running.tone(), Tone::Normal);
    let done = pod(None, Some("Succeeded"));
    assert_eq!(done.status(), Phase::Succeeded);
    assert_eq!(done.tone(), Tone::Healthy);
    assert_eq!(pod(None, None).status(), Phase::Unknown("Unknown".to_string()));
    let no_status = Pod { status: None, ..pod(None, None) };
    assert_eq!(no_status.status(), Phase::Unknown(String::new()));
}

#[test]
fn phases_read_and_show_their_names() {
    assert_eq!(Phase::from_name(&Some("Pending".to_string())), Phase::Pending);
    assert_eq!(Phase::from_name(&Some("Failed".to_string())), Phase::Unknown("Failed".to_string()));
    assert_eq!(Phase::from_name(&None), Phase::Unknown("Unknown".to_string()));
    assert_eq!(Phase::Succeeded.to_text(), "Succeeded");
    assert_eq!(Phase::Unknown("Evicted".to_string()).to_text(), "Evicted");
}

#[test]
fn pod_age_and_filter() {
    let p = pod(None, None);
    assert_eq!(p.age_seconds(4_600), 3_600);
    let unborn = Pod { created: None, ..pod(None, None) };
    assert_eq!(unborn.age_seconds(4_600), 0);
    assert!(p.matches("web"));
    assert!(!p.matches("db"));
}

#[test]
fn containers_join_their_statuses() {
    let mut st = status("sidecar", true, 1);
    st.state = Some(ContainerState {
        running: Some(Running { started_at: Some(100) }),
        terminated: None,
        waiting: None,
    });
    let p = pod(Some(vec![st]), Some("Running"));
    let all = p.containers(None);
    assert_eq!(all.len(), 2);
    assert!(all[0].status.is_none());
    assert_eq!(all[1].status.as_ref().map(|s| s.restart_count), Some(1));
    let picked = p.containers(Some("side".to_string()));
    assert_eq!(picked.len(), 1);
    assert_eq!(picked[0].name_any(), "sidecar");
    assert_eq!(picked[0].state(), State::Running);
    assert_eq!(picked[0].age(161), "1m1s");
    assert_eq!(picked[0].ready(), "Yes");
    assert_eq!(picked[0].image(), "sidecar:latest");
    assert_eq!(picked[0].restarts(0), "1");
    assert_eq!(picked[0].tone(), Tone::Normal);
    // Without container statuses the filter is not applied.
    let bare = pod(None, Some("Pending"));
    assert_eq!(bare.containers(Some("nothing".to_string())).len(), 2);
}

#[test]
fn container_states_read_in_order() {
    let st = Some(ContainerState {
        running: None,
        terminated: Some(Terminated { reason: Some("Completed".to_string()), finished_at: None }),
        waiting: Some(Waiting { reason: Some("ignored".to_string()) }),
    });
    assert_eq!(State::from_state(&st), State::Terminated("Completed".to_string()));
    assert_eq!(State::from_state(&st).to_text(), "Terminated (Completed)");
    assert_eq!(State::from_state(&waiting(None)).to_text(), "Waiting ()");
    assert_eq!(State::from_state(&None), State::Unknown);
    let p = pod(None, None);
    let c = Container::new(&p, spec("app"));
    assert_eq!(c.image(), "-");
    assert_eq!(c.ready(), "No");
    assert_eq!(c.restarts(0), "-");
    assert_eq!(c.age(0), "-");
    assert_eq!(c.tone(), Tone::Unhealthy);
}

fn node(name: &str, labels: Vec<(&str, &str)>, conditions: Vec<(&str, &str)>) -> Node {
    Node {
        name: name.to_string(),
        namespace: None,
        created: Some(0),
        labels: Some(labels.into_iter().map(|(k, v)| (k.to_string(), v.to_string())).collect()),
        conditions: Some(
            conditions
                .into_iter()
                .map(|(t, s)| NodeCondition { type_: t.to_string(), status: s.to_string() })
                .collect(),
        ),
        unschedulable: None,
        kubelet_version: Some("v1.30.0".to_string()),
    }
}

#[test]
fn node_roles_and_instance_type_come_from_labels() {
    let n = node(
        "worker-1",
        vec![
            ("node-role.kubernetes.io/control-plane", ""),
            ("beta.kubernetes.io/instance-type", "m5.large"),
            ("node-role.kubernetes.io/worker", "true"),
            ("other.io/role", "x"),
        ],
        vec![("Ready", "True")],
    );
    assert_eq!(n.roles(), vec!["control-plane", "worker"]);
    assert_eq!(n.instance_type(), "m5.large");
    assert_eq!(n.version(), "v1.30.0");
    assert!(n.matches("work"));
}

#[test]
fn node_status_lists_true_conditions() {
    let mut n = node("a", vec![], vec![("Ready", "True"), ("DiskPressure", "False"), ("Weird", "True")]);
    assert_eq!(n.status(), vec![Status::Ready, Status::Error("Weird".to_string())]);
    n.unschedulable = Some(true);
    assert_eq!(n.status(), vec![Status::Ready, Status::Error("Weird".to_string()), Status::SchedulingDisabled]);
    let quiet = node("b", vec![], vec![("Ready", "False")]);
    assert_eq!(quiet.status(), vec![Status::Unknown]);
    assert_eq!(Status::from_type("Error"), Status::Error(String::new()));
    assert_eq!(Status::Error("x".to_string()).to_text(), "Error");
}

#[test]
fn node_row_and_tone() {
    let n = node("a", vec![("node-role.kubernetes.io/worker", "")], vec![("Ready", "True")]);
    assert_eq!(n.row(90_061), vec!["a", "Ready", "worker", "", "v1.30.0", "1d1h"]);
    assert_eq!(n.tone(), Tone::Healthy);
    let quiet = node("b", vec![], vec![("Ready", "False")]);
    assert_eq!(quiet.tone(), Tone::Normal);
}

#[test]
fn text_order_is_lexicographic() {
    assert_eq!(compare_str("a", "b"), Ordering::Less);
    assert_eq!(compare_str("ab", "a"), Ordering::Greater);
    assert_eq!(compare_str("same", "same"), Ordering::Equal);
    let a = node("a", vec![], vec![]);
    let b = node("b", vec![], vec![]);
    assert_eq!(a.cmp(&b), Ordering::Less);
    assert_eq!(b.cmp(&a), Ordering::Greater);
}

#[test]
fn listing_lines_become_entries() {
    let e = to_file("drwxr-xr-x 2 root root 4096 1700000000 etc", "/");
    assert_eq!(e.filename, "etc");
    assert_eq!(e.longname, "/etc");
    assert_eq!(e.attrs.permissions, Some(0o40755));
    assert_eq!(e.attrs.user.as_deref(), Some("root"));
    assert_eq!(e.attrs.size, Some(4096));
    assert_eq!(e.attrs.mtime, Some(1_700_000_000));

    let f = to_file("-rw-r--r-- 1 app app 12 5 /srv/data/notes.txt", "/srv");
    assert_eq!(f.filename, "notes.txt");
    assert_eq!(f.longname, "/srv/data/notes.txt");
    assert_eq!(f.attrs.permissions, Some(0o100644));

    assert!(line_readable("lrwxrwxrwx 1 a b 7 9 link -> target"));
    assert!(!line_readable("drwxr-xr-x 2 root root big 1 etc"));
    assert!(to_file_checked("drwxr-xr-x 2 root root big 1 etc", "/").is_none());
}

#[test]
fn listings_skip_the_total_line() {
    let text = "total 8\ndrwxr-xr-x 2 root root 4096 1 bin\n-rw-r--r-- 1 root root 3 2 a.txt\n";
    let files = files_of_text(text, "/", true).ok().unwrap();
    assert_eq!(files.len(), 2);
    assert_eq!(files[1].longname, "/a.txt");
    let one = files_of_text("drwxr-xr-x 2 root root 4096 1 /bin\n", "/bin", false).ok().unwrap();
    assert_eq!(one.len(), 1);
    assert_eq!(one[0].filename, "bin");
    assert_eq!(files_of_text("total 0\nx y z w nan 1 f\n", "/", true).err(), Some(ListingError::Unreadable));
    assert_eq!(files_of_output(&[0xff, 0xfe], "/", true).err(), Some(ListingError::NotUtf8));
    let from_bytes = files_of_output(text.as_bytes(), "/", true).ok().unwrap();
    assert_eq!(from_bytes[0].filename, "bin");
    assert_eq!(stat_of_files(&Vec::new()).err(), Some(ListingError::NoFiles));
    let attrs = stat_of_files(&one).ok().unwrap();
    assert_eq!(attrs.size, Some(4096));
}

#[test]
fn container_commands() {
    assert_eq!(ls_command("/etc", true), vec!["ls", "-l", "--time-style=+%s", "/etc"]);
    assert_eq!(ls_command("/etc", false), vec!["ls", "-l", "--time-style=+%s", "-d", "/etc"]);
    assert_eq!(cat_command("/etc/hosts"), vec!["cat", "/etc/hosts"]);
}

#[test]
fn sftp_paths_name_locations() {
    let f = File::new("/default/web-1/app/var/log");
    assert_eq!(f.namespace.as_deref(), Some("default"));
    assert_eq!(f.pod.as_deref(), Some("web-1"));
    assert_eq!(f.container.as_deref(), Some("app"));
    assert_eq!(f.path.as_deref(), Some("/var/log"));
    assert_eq!(
        f.read_target().ok(),
        Some(ReadTarget {
            namespace: "default".to_string(),
            pod: "web-1".to_string(),
            container: "app".to_string(),
            path: "/var/log".to_string(),
        })
    );
    let root = File::new("/");
    assert_eq!(root.list_target(), ListTarget::Namespaces);
    assert_eq!(root.stat_target(), StatTarget::Root);
    assert!(root.read_target().is_err());
    let ns = File::new("/kube-system");
    assert_eq!(ns.list_target(), ListTarget::Pods { namespace: "kube-system".to_string() });
    let c = File::new("/default/web-1/app");
    assert_eq!(
        c.list_target(),
        ListTarget::ContainerDir {
            namespace: "default".to_string(),
            pod: "web-1".to_string(),
            container: "app".to_string(),
            path: "/".to_string(),
        }
    );
}

#[test]
fn table_rows_and_headers() {
    assert_eq!(Pod::header(), vec!["Namespace", "Name", "Ready", "Status", "Restarts", "Age"]);
    assert_eq!(Container::header(), vec!["Name", "Image", "Ready", "State", "Restarts", "Age"]);
    assert_eq!(Node::header(), vec!["Name", "Status", "Roles", "Type", "Version", "Age"]);
    let p = pod(Some(vec![status("app", true, 0)]), Some("Running"));
    assert_eq!(p.row(4_600), vec!["default", "web-1", "1/1", "Running", "0", "1h"]);
    let mut st = status("app", false, 3);
    st.state = waiting(Some("ImagePullBackOff"));
    let p2 = pod(Some(vec![st]), Some("Pending"));
    let c = &p2.containers(None)[0];
    assert_eq!(c.row(0), vec!["app", "app:latest", "No", "Waiting (ImagePullBackOff)", "3", "-"]);
}

#[test]
fn tables_show_picked_rows_in_order() {
    let mut late = node("b", vec![], vec![]);
    late.kubelet_version = Some("late".to_string());
    let mut early = node("b", vec![], vec![]);
    early.kubelet_version = Some("early".to_string());
    let mut other_ns = node("a", vec![], vec![]);
    other_ns.namespace = Some("z".to_string());
    let items = vec![node("c", vec![], vec![]), early, other_ns, node("a", vec![], vec![]), late];
    let rows = select(items.clone(), None);
    let names: Vec<(String, Option<String>)> = rows.iter().map(|n| (n.name.clone(), n.kubelet_version.clone())).collect();
    assert_eq!(
        names,
        vec![
            ("a".to_string(), Some("v1.30.0".to_string())),
            ("b".to_string(), Some("early".to_string())),
            ("b".to_string(), Some("late".to_string())),
            ("c".to_string(), Some("v1.30.0".to_string())),
            ("a".to_string(), Some("v1.30.0".to_string())),
        ]
    );
    assert_eq!(rows[4].namespace.as_deref(), Some("z"));
    let picked = select(items.clone(), Some("b".to_string()));
    assert_eq!(picked.len(), 2);
    assert_eq!(select_at(items.clone(), 1, Some("b".to_string())).map(|n| n.kubelet_version), Some(Some("late".to_string())));
    assert!(select_at(items, 2, Some("b".to_string())).is_none());
}

#[test]
fn sftp_tree_as_documented() {
    let f = File::new("/default/nginx/nginx/etc/hosts");
    assert_eq!(
        f.read_target().ok(),
        Some(ReadTarget {
            namespace: "default".to_string(),
            pod: "nginx".to_string(),
            container: "nginx".to_string(),
            path: "/etc/hosts".to_string(),
        })
    );
}

#[test]
fn listing_a_container_picks_the_first_that_the_filter_keeps() {
    let p = pod(Some(vec![status("sidecar", true, 1), status("app", true, 0)]), Some("Running"));
    assert_eq!(p.listed_container("side", "web-1", "default").ok().map(|c| c.name_any()), Some("sidecar".to_string()));
    assert_eq!(p.listed_container("a", "web-1", "default").ok().map(|c| c.name_any()), Some("app".to_string()));
    assert_eq!(
        p.listed_container("db", "web-1", "default").err(),
        Some("container db not found in pod web-1 from namespace default".to_string())
    );
    let empty = Pod { containers: None, ..pod(Some(vec![]), None) };
    assert_eq!(
        empty.listed_container("app", "p", "ns").err(),
        Some("container app not found in pod p from namespace ns".to_string())
    );
}

#[test]
fn sftp_paths_are_normalized_as_path_components_states() {
    let f = File::new("//default/./web-1//app/var/./log/");
    assert_eq!(f.namespace.as_deref(), Some("default"));
    assert_eq!(f.pod.as_deref(), Some("web-1"));
    assert_eq!(f.container.as_deref(), Some("app"));
    assert_eq!(f.path.as_deref(), Some("/var/log"));
    let rel = File::new("./default/web-1");
    assert_eq!(rel.namespace.as_deref(), Some("default"));
    assert_eq!(rel.pod.as_deref(), Some("web-1"));
    let empty = File::new("");
    assert_eq!(empty.list_target(), ListTarget::Namespaces);
}
