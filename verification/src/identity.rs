use vstd::prelude::*;
use regex::Error as PatternError;
use crate::text::{
    all_ascii, ascii_lower_char, concat, first_index, is_ascii_alnum, is_ascii_char, join,
    join_strings, lowercased, to_chars, to_lowercase, substring, tail,
};

verus! {

// ---------------------------------------------------------------------------
// Kubernetes object names
// ---------------------------------------------------------------------------
#[verifier::external_type_specification]
#[verifier::external_body]
pub struct ExPatternError(PatternError);

/// The pattern of the characters that object names do not keep: anything
/// but an ASCII letter or a decimal digit.
pub open spec fn id_pattern() -> Seq<char> {
    r"[^A-Za-z\d]"@
}

/// Whether `regex::Regex::new` accepts a pattern.
pub uninterp spec fn pattern_accepted(pattern: Seq<char>) -> bool;

/// What `Regex::replace_all` makes of a text: every match of the pattern
/// replaced by `with`.
pub uninterp spec fn replaced(pattern: Seq<char>, s: Seq<char>, with: Seq<char>) -> Seq<char>;

/// Compiles `pattern` with `regex::Regex::new` and replaces every match in
/// `s` with `with` by `Regex::replace_all`. Whether the pattern compiles is
/// named by `pattern_accepted`, the replaced text by `replaced`. For the
/// pattern `[^A-Za-z\d]` and the replacement `-`, each match is one
/// character that is neither an ASCII letter nor a (Unicode) decimal digit,
/// so the result has the length of `s`; ASCII letters and digits stay,
/// other ASCII characters become `-`, and any other character either stays
/// (a Unicode digit) or becomes `-`.
#[verifier::external_body]
fn replace_matches(pattern: &str, s: &str, with: &str) -> (r: Result<String, PatternError>)
    ensures
        r is Ok <==> pattern_accepted(pattern@),
        r matches Ok(t) ==> t@ == replaced(pattern@, s@, with@),
        (pattern@ == id_pattern() && with@ == seq!['-']) ==> (r matches Ok(t) ==> {
            &&& t@.len() == s@.len()
            &&& forall|i: int|
                0 <= i < s@.len() ==> {
                    &&& is_ascii_alnum(s@[i]) ==> #[trigger] t@[i] == s@[i]
                    &&& (is_ascii_char(s@[i]) && !is_ascii_alnum(s@[i])) ==> t@[i] == '-'
                    &&& !is_ascii_char(s@[i]) ==> (t@[i] == s@[i] || t@[i] == '-')
                }
        }),
{
    match regex::Regex::new(pattern) {
        Ok(re) => Ok(re.replace_all(s, with).into_owned()),
        Err(e) => Err(e),
    }
}

/// The pattern of the characters that object names do not keep.
fn id_pattern_text() -> (p: &'static str)
    ensures
        p@ == id_pattern(),
{
    r"[^A-Za-z\d]"
}

/// Why an object name could not be made.
pub enum KubeIdError {
    /// The pattern that finds the characters to replace did not compile.
    Pattern,
}

/// The object name of a text: every character that is not a letter or a
/// digit replaced by `-`, then lowercased.
pub open spec fn kube_id_of(s: Seq<char>) -> Seq<char> {
    lowercased(replaced(id_pattern(), s, seq!['-']))
}

/// Whether object names can be made: the regex crate accepts the pattern.
pub open spec fn ids_available() -> bool {
    pattern_accepted(id_pattern())
}

/// For ASCII text the object name is the text with letters lowercased and
/// every other character but a digit turned into `-`.
pub open spec fn ascii_kube_id(s: Seq<char>) -> Seq<char> {
    Seq::new(s.len(), |i: int| if is_ascii_alnum(s[i]) { ascii_lower_char(s[i]) } else { '-' })
}

/// The object name of a text, or the error of the pattern that finds the
/// characters to replace: the name comes back exactly when the pattern
/// compiles.
pub fn kube_id_text(s: &str) -> (r: Result<String, KubeIdError>)
    ensures
        r is Ok <==> ids_available(),
        match r {
            Ok(id) => {
                &&& id@ == kube_id_of(s@)
                &&& all_ascii(s@) ==> id@ == ascii_kube_id(s@)
            },
            Err(e) => e == KubeIdError::Pattern,
        },
{
    let dash = "-";
    proof {
        reveal_strlit("-");
        assert(dash@ =~= seq!['-']);
    }
    match replace_matches(id_pattern_text(), s, dash) {
        Ok(t) => {
            proof {
                if all_ascii(s@) {
                    assert(all_ascii(t@)) by {
                        assert forall|i: int| 0 <= i < t@.len() implies is_ascii_char(#[trigger] t@[i]) by {
                            assert(is_ascii_char(s@[i]));
                        }
                    }
                }
            }
            let id = to_lowercase(t.as_str());
            proof {
                if all_ascii(s@) {
                    assert(id@ =~= ascii_kube_id(s@)) by {
                        assert forall|i: int| 0 <= i < s@.len() implies id@[i] == ascii_kube_id(s@)[i] by {
                            assert(is_ascii_char(s@[i]));
                            if is_ascii_alnum(s@[i]) {
                                assert(t@[i] == s@[i]);
                            }
                        }
                    }
                }
            }
            Ok(id)
        },
        Err(_) => Err(KubeIdError::Pattern),
    }
}

/// Things that have a Kubernetes object name.
pub trait KubeID {
    fn kube_id(&self) -> Result<String, KubeIdError>;
}

impl KubeID for String {
    /// The object name of the text.
    fn kube_id(&self) -> (r: Result<String, KubeIdError>)
        ensures
            r is Ok <==> ids_available(),
            match r {
                Ok(id) => {
                    &&& id@ == kube_id_of(self@)
                    &&& all_ascii(self@) ==> id@ == ascii_kube_id(self@)
                },
                Err(e) => e == KubeIdError::Pattern,
            },
    {
        kube_id_text(self.as_str())
    }
}

// ---------------------------------------------------------------------------
// Group and version
// ---------------------------------------------------------------------------
/// The group and version of an `apiVersion`: the parts before and after the
/// first `/`, or no group and the whole text where there is none.
pub open spec fn gv_of(s: Seq<char>) -> (Seq<char>, Seq<char>) {
    let i = first_index(s, '/');
    if i < 0 {
        (Seq::empty(), s)
    } else {
        (s.take(i), s.skip(i + 1))
    }
}

/// Splitting an `apiVersion` into group and version.
pub trait GetGv {
    fn gv(&self) -> (String, String);
}

impl GetGv for String {
    fn gv(&self) -> (r: (String, String))
        ensures
            r.0@ == gv_of(self@).0,
            r.1@ == gv_of(self@).1,
    {
        let v = to_chars(self.as_str());
        match crate::text::find_first(&v, '/') {
            None => (String::new(), self.clone()),
            Some(i) => {
                proof {
                    crate::text::lemma_first_index(v@, '/');
                }
                let group = substring(&v, 0, i);
                let rest = tail(&v, i + 1);
                let version = crate::text::from_chars(rest.as_slice());
                assert(v@.take(i as int) == v@.subrange(0, i as int));
                (group, version)
            },
        }
    }
}

/// An object name made of ASCII text holds only lowercase letters, digits
/// and `-`, as Kubernetes names must.
pub proof fn law_kube_id_charset(s: Seq<char>)
    ensures
        forall|i: int|
            0 <= i < ascii_kube_id(s).len() ==> {
                let c = #[trigger] ascii_kube_id(s)[i];
                ('a' <= c <= 'z') || ('0' <= c <= '9') || c == '-'
            },
{
}

/// Making an object name of an object name changes nothing.
pub proof fn law_kube_id_idempotent(s: Seq<char>)
    ensures
        ascii_kube_id(ascii_kube_id(s)) == ascii_kube_id(s),
{
    assert(ascii_kube_id(ascii_kube_id(s)) =~= ascii_kube_id(s));
}

/// Group and version put back together with `/` give the `apiVersion`;
/// without a group the version is the whole text.
pub proof fn law_gv_round_trip(s: Seq<char>)
    ensures
        gv_of(s).0.len() > 0 ==> gv_of(s).0 + "/"@ + gv_of(s).1 == s,
        first_index(s, '/') < 0 ==> gv_of(s).1 == s && gv_of(s).0.len() == 0,
{
    crate::text::lemma_first_index(s, '/');
    let i = first_index(s, '/');
    if i >= 0 {
        assert(s.take(i) + "/"@ + s.skip(i + 1) =~= s) by {
            reveal_strlit("/");
        }
    }
}

// ---------------------------------------------------------------------------
// Identities
// ---------------------------------------------------------------------------
/// Who a request is made as: a user name and its groups.
pub struct Identity {
    pub name: String,
    pub groups: Vec<String>,
}

pub open spec fn strings(v: Seq<String>) -> Seq<Seq<char>> {
    v.map_values(|p: String| p@)
}

/// A copy of a list of strings.
pub fn copy_strings(v: &Vec<String>) -> (r: Vec<String>)
    ensures
        r@ == v@,
{
    let mut r: Vec<String> = Vec::new();
    let mut i: usize = 0;
    while i < v.len()
        invariant
            i <= v.len(),
            r@ == v@.take(i as int),
        decreases v.len() - i,
    {
        r.push(v[i].clone());
        i = i + 1;
        assert(r@ =~= v@.take(i as int));
    }
    assert(v@.take(v.len() as int) =~= v@);
    r
}

/// How an identity reads: `name<groups: a, b>`.
pub open spec fn identity_text(name: Seq<char>, groups: Seq<Seq<char>>) -> Seq<char> {
    name + "<groups: "@ + join(groups, ", "@) + ">"@
}

impl Identity {
    pub fn new(name: String, groups: Vec<String>) -> (i: Identity)
        ensures
            i.name == name,
            i.groups == groups,
    {
        Identity { name, groups }
    }

    pub fn to_text(&self) -> (s: String)
        ensures
            s@ == identity_text(self.name@, strings(self.groups@)),
    {
        let joined = join_strings(&self.groups, ", ");
        let a = concat(self.name.as_str(), "<groups: ");
        let b = concat(a.as_str(), joined.as_str());
        concat(b.as_str(), ">")
    }

    /// Who requests are made as on behalf of the identity: its name, and
    /// its groups where it has any.
    pub fn impersonation(&self) -> (r: (String, Option<Vec<String>>))
        ensures
            r.0 == self.name,
            self.groups@.len() == 0 ==> r.1 is None,
            self.groups@.len() > 0 ==> (r.1 matches Some(g) && g@ == self.groups@),
    {
        let groups = if self.groups.len() == 0 {
            None
        } else {
            Some(copy_strings(&self.groups))
        };
        (self.name.clone(), groups)
    }

    pub fn copy(&self) -> (r: Identity)
        ensures
            r.name == self.name,
            r.groups@ == self.groups@,
    {
        Identity { name: self.name.clone(), groups: copy_strings(&self.groups) }
    }
}

/// A user, by the ID that its identity provider gives it.
pub struct UserSpec {
    pub id: String,
}

impl KubeID for UserSpec {
    /// The object name of the user's ID.
    fn kube_id(&self) -> (r: Result<String, KubeIdError>)
        ensures
            r is Ok <==> ids_available(),
            match r {
                Ok(id) => id@ == kube_id_of(self.id@),
                Err(e) => e == KubeIdError::Pattern,
            },
    {
        kube_id_text(self.id.as_str())
    }
}

// ---------------------------------------------------------------------------
// Keys
// ---------------------------------------------------------------------------
/// A public key that is allowed in for an identity until it expires.
pub struct KeyRecord {
    /// The object name, made of the key's fingerprint.
    pub name: String,
    /// The key's fingerprint.
    pub fingerprint: String,
    /// Seconds since the epoch at which the key stops being accepted.
    pub expiration: i64,
    pub user: String,
    pub groups: Vec<String>,
}

impl KeyRecord {
    /// The record for a key (by its fingerprint) of an identity.
    pub fn from_identity(fingerprint: String, identity: &Identity, expiration: i64) -> (r: Result<KeyRecord, KubeIdError>)
        ensures
            r is Ok <==> ids_available(),
            match r {
                Ok(k) => {
                    &&& k.name@ == kube_id_of(fingerprint@)
                    &&& k.fingerprint == fingerprint
                    &&& k.expiration == expiration
                    &&& k.user == identity.name
                    &&& k.groups@ == identity.groups@
                },
                Err(e) => e == KubeIdError::Pattern,
            },
    {
        match kube_id_text(fingerprint.as_str()) {
            Ok(name) => Ok(KeyRecord {
                name,
                fingerprint,
                expiration,
                user: identity.name.clone(),
                groups: copy_strings(&identity.groups),
            }),
            Err(e) => Err(e),
        }
    }

    /// Whether the key has expired at `now` (seconds since the epoch).
    pub fn expired(&self, now: i64) -> (b: bool)
        ensures
            b == (self.expiration < now),
    {
        self.expiration < now
    }

    /// The identity the key stands for.
    pub fn identity(&self) -> (i: Identity)
        ensures
            i.name == self.user,
            i.groups@ == self.groups@,
    {
        Identity { name: self.user.clone(), groups: copy_strings(&self.groups) }
    }
}

/// Whether a key found for a login lets it through to the access check:
/// only a key that exists and has not expired does.
pub fn key_usable(key: &Option<KeyRecord>, now: i64) -> (b: bool)
    ensures
        b == (key matches Some(k) && !(k.expiration < now)),
{
    match key {
        Some(k) => !k.expired(now),
        None => false,
    }
}

// ---------------------------------------------------------------------------
// Access reviews
// ---------------------------------------------------------------------------
/// A question put to the cluster: may the requester do `verb` on
/// `resource` (in `namespace`, or anywhere)?
pub struct Review {
    pub resource: String,
    pub verb: String,
    pub namespace: Option<String>,
}

/// What access to the cluster is checked by: listing pods.
pub fn pods_list_review(namespace: Option<String>) -> (r: Review)
    ensures
        r.resource@ == "pods"@,
        r.verb@ == "list"@,
        r.namespace == namespace,
{
    Review { resource: "pods".to_string(), verb: "list".to_string(), namespace }
}

/// Whether a login has access, from the review's answer (`None` where the
/// review came back without a status): only an explicit allow lets the
/// user in, so a review without an answer denies.
pub fn login_allowed(allowed: Option<bool>) -> (b: bool)
    ensures
        b == (allowed == Some(true)),
{
    match allowed {
        Some(true) => true,
        _ => false,
    }
}

/// The event recorded on a user when it logs in.
pub struct LoginEvent {
    pub action: String,
    pub reason: String,
    pub note: String,
}

/// The event of a login by `method`: a normal `Authenticated` event for the
/// reason `Login`, noting the method.
pub fn login_event(method: &str) -> (e: LoginEvent)
    ensures
        e.action@ == "Authenticated"@,
        e.reason@ == "Login"@,
        e.note@ == "method "@ + method@,
{
    LoginEvent { action: "Authenticated".to_string(), reason: "Login".to_string(), note: concat("method ", method) }
}

// ---------------------------------------------------------------------------
// Granting a role
// ---------------------------------------------------------------------------
/// How a grant is shown instead of applied.
pub enum GrantOutput {
    Yaml,
}

/// Grant a cluster role to a user.
pub struct Grant {
    pub role: String,
    pub id: String,
    pub output: Option<GrantOutput>,
}

/// A cluster role binding of one user.
pub struct RoleBinding {
    pub name: String,
    pub role_kind: String,
    pub role: String,
    pub subject_kind: String,
    pub subject: String,
}

/// The name of the binding for a user: the object name of `kty:<id>`.
pub open spec fn binding_name(id: Seq<char>) -> Seq<char> {
    kube_id_of("kty:"@ + id)
}

impl Grant {
    /// The binding that the grant makes: named after the user, binding the
    /// cluster role to the user.
    pub fn binding(&self) -> (r: Result<RoleBinding, KubeIdError>)
        ensures
            r is Ok <==> ids_available(),
            match r {
                Ok(b) => {
                    &&& b.name@ == binding_name(self.id@)
                    &&& all_ascii(self.id@) ==> b.name@ == ascii_kube_id("kty:"@ + self.id@)
                    &&& b.role_kind@ == "ClusterRole"@
                    &&& b.role@ == self.role@
                    &&& b.subject_kind@ == "User"@
                    &&& b.subject@ == self.id@
                },
                Err(e) => e == KubeIdError::Pattern,
            },
    {
        let full = concat("kty:", self.id.as_str());
        proof {
            reveal_strlit("kty:");
            if all_ascii(self.id@) {
                assert(all_ascii(full@)) by {
                    assert forall|i: int| 0 <= i < full@.len() implies is_ascii_char(#[trigger] full@[i]) by {
                        if i >= 4 {
                            assert(full@[i] == self.id@[i - 4]);
                        }
                    }
                }
            }
        }
        match kube_id_text(full.as_str()) {
            Ok(name) => Ok(RoleBinding {
                name,
                role_kind: "ClusterRole".to_string(),
                role: self.role.clone(),
                subject_kind: "User".to_string(),
                subject: self.id.clone(),
            }),
            Err(e) => Err(e),
        }
    }

    /// Whether the binding is shown as YAML instead of applied.
    pub fn shows_yaml(&self) -> (b: bool)
        ensures
            b == (self.output is Some),
    {
        match self.output {
            Some(GrantOutput::Yaml) => true,
            None => false,
        }
    }
}

/// Check whether a user has access to the cluster.
pub struct Check {
    pub id: String,
    pub groups: Vec<String>,
}

impl Check {
    /// The identity that is checked.
    pub fn identity(&self) -> (i: Identity)
        ensures
            i.name == self.id,
            i.groups@ == self.groups@,
    {
        Identity::new(self.id.clone(), copy_strings(&self.groups))
    }
}

} // verus!
