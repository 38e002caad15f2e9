//! The commands of the command line, as plain values, with the decisions
//! they make between their requests to the cluster.
use vstd::prelude::*;
use crate::events::Keypress;
use crate::identity::strings;
use crate::status::{status_succeeded, ApiStatus};
use crate::text::same_text;

verus! {

// ---------------------------------------------------------------------------
// Development commands
// ---------------------------------------------------------------------------
/// Commands used for developing or testing pieces on their own.
pub struct Dev {
    pub command: DevCmd,
}

pub enum DevCmd {
    Agent(Agent),
    Authz(Authz),
    Dashboard,
    Graph(Cmd),
    Shell(Shell),
    Stdin,
}

/// Lists the identities of the local SSH agent.
pub struct Agent {}

/// Checks what a user may do.
pub struct Authz {
    pub user: String,
    pub list: bool,
    pub namespace: Option<String>,
}

/// What an authorization check asks the cluster.
pub enum AuthzPlan {
    /// List the rules that the user has in a namespace.
    ListRules { namespace: String },
    /// Ask whether the user may list pods (in a namespace, or anywhere).
    Review { namespace: Option<String> },
}

pub enum AuthzError {
    /// Listing rules needs a namespace.
    NamespaceRequired,
}

impl Authz {
    pub fn plan(&self) -> (r: Result<AuthzPlan, AuthzError>)
        ensures
            self.list && self.namespace is None ==> r matches Err(AuthzError::NamespaceRequired),
            self.list && self.namespace is Some ==> (r matches Ok(AuthzPlan::ListRules { namespace })
                && Some(namespace) == self.namespace),
            !self.list ==> (r matches Ok(AuthzPlan::Review { namespace }) && namespace == self.namespace),
    {
        if self.list {
            match &self.namespace {
                Some(ns) => Ok(AuthzPlan::ListRules { namespace: ns.clone() }),
                None => Err(AuthzError::NamespaceRequired),
            }
        } else {
            Ok(AuthzPlan::Review { namespace: self.namespace.clone() })
        }
    }
}

/// Whether a rule (by its resources) is shown: rules about the review
/// resources themselves are left out, and so are rules without resources.
pub open spec fn rule_shown(resources: Option<Seq<Seq<char>>>) -> bool {
    resources matches Some(r) && !r.contains("selfsubjectrulesreviews"@) && !r.contains(
        "selfsubjectreviews"@,
    )
}

/// The texts of an optional list of strings.
pub open spec fn opt_strings(o: Option<Vec<String>>) -> Option<Seq<Seq<char>>> {
    match o {
        Some(v) => Some(strings(v@)),
        None => None,
    }
}

pub fn shown_rule(resources: &Option<Vec<String>>) -> (b: bool)
    ensures
        b == rule_shown(opt_strings(*resources)),
{
    match resources {
        None => false,
        Some(v) => {
            assert(opt_strings(*resources) == Some(strings(v@)));
            let mut i: usize = 0;
            while i < v.len()
                invariant
                    i <= v.len(),
                    opt_strings(*resources) == Some(strings(v@)),
                    forall|k: int| 0 <= k < i ==> #[trigger] v@[k]@ != "selfsubjectrulesreviews"@
                        && v@[k]@ != "selfsubjectreviews"@,
                decreases v.len() - i,
            {
                if same_text(v[i].as_str(), "selfsubjectrulesreviews") || same_text(
                    v[i].as_str(),
                    "selfsubjectreviews",
                ) {
                    assert(strings(v@)[i as int] == v@[i as int]@);
                    assert(strings(v@).contains("selfsubjectrulesreviews"@) || strings(v@).contains(
                        "selfsubjectreviews"@,
                    ));
                    return false;
                }
                i = i + 1;
            }
            assert forall|k: int| 0 <= k < strings(v@).len() implies strings(v@)[k] != "selfsubjectrulesreviews"@
                && strings(v@)[k] != "selfsubjectreviews"@ by {
                assert(strings(v@)[k] == v@[k]@);
            }
            true
        },
    }
}

/// Shows the graphs of the cluster's pods, one at a time.
pub struct Cmd {}

/// What a key does in the graph view.
#[derive(Debug, Clone, Copy, PartialEq, Eq, Structural)]
pub enum GraphStep {
    Quit,
    Show(usize),
}

/// Escape quits; left and right move to the previous and next graph
/// (stopping at the ends of `usize`); other keys keep the current one.
pub open spec fn graph_step_of(i: usize, key: Keypress) -> GraphStep {
    match key {
        Keypress::Escape => GraphStep::Quit,
        Keypress::CursorLeft => GraphStep::Show(if i == 0 { 0 } else { (i - 1) as usize }),
        Keypress::CursorRight => GraphStep::Show(if i == usize::MAX { i } else { (i + 1) as usize }),
        _ => GraphStep::Show(i),
    }
}

impl Cmd {
    pub fn step(i: usize, key: &Keypress) -> (r: GraphStep)
        ensures
            r == graph_step_of(i, *key),
    {
        match key {
            Keypress::Escape => GraphStep::Quit,
            Keypress::CursorLeft => GraphStep::Show(i.saturating_sub(1)),
            Keypress::CursorRight => GraphStep::Show(i.saturating_add(1)),
            _ => GraphStep::Show(i),
        }
    }

    /// Which of `count` graphs position `i` shows: positions wrap around.
    pub fn shown(i: usize, count: usize) -> (r: usize)
        requires
            count > 0,
        ensures
            r == i % count,
            r < count,
    {
        i % count
    }
}

/// Starts a shell in a pod.
pub struct Shell {
    pub ns: String,
    pub pod: String,
}

/// Whether a shell ended well: only a status whose outcome is given and is
/// not `Success` is a failure.
pub open spec fn shell_succeeded(status: Option<ApiStatus>) -> bool {
    !(status matches Some(s) && s.status is Some && !status_succeeded(s.status))
}

impl Shell {
    pub fn succeeded(status: &Option<ApiStatus>) -> (b: bool)
        ensures
            b == shell_succeeded(*status),
    {
        match status {
            Some(s) => match &s.status {
                Some(result) => same_text(result.as_str(), "Success"),
                None => true,
            },
            None => true,
        }
    }
}

/// Whether a key press ends the input test: `Control('c')`.
pub fn ends_input(key: &Option<Keypress>) -> (b: bool)
    ensures
        b == (*key matches Some(Keypress::Control(c)) && c == 'c'),
{
    match key {
        Some(Keypress::Control(c)) => *c == 'c',
        _ => false,
    }
}

// ---------------------------------------------------------------------------
// Resources of the server
// ---------------------------------------------------------------------------
/// Manages the resources that the server needs on the cluster.
pub struct Resources {
    pub command: ResourcesCmd,
    pub namespace: Option<String>,
}

pub enum ResourcesCmd {
    Crd(Crd),
    Delete(Delete),
    Install(Install),
}

/// Prints the resource definitions of the server.
pub struct Crd {}

/// Deletes the server's resources.
pub struct Delete {
    pub namespace: Option<String>,
}

/// Installs the server's resources.
pub struct Install {
    pub dry_run: bool,
    pub namespace: Option<String>,
}

/// What an install does with the resources.
pub enum InstallStep {
    /// Print them.
    Print,
    /// Apply them to the cluster.
    Apply,
}

impl Install {
    pub fn step(&self) -> (r: InstallStep)
        ensures
            self.dry_run ==> r is Print,
            !self.dry_run ==> r is Apply,
    {
        if self.dry_run {
            InstallStep::Print
        } else {
            InstallStep::Apply
        }
    }
}

/// The namespace a command works in: the one given, or the default.
pub fn namespace_or(given: &Option<String>, default: String) -> (r: String)
    ensures
        r == match *given {
            Some(n) => n,
            None => default,
        },
{
    match given {
        Some(n) => n.clone(),
        None => default,
    }
}

} // verus!
