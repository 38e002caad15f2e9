use vstd::prelude::*;
use crate::identity::{strings, Identity};
use crate::text::{concat, join, join_strings};

verus! {

/// Where a login stands. `K` is the public key a client offered, `D` the
/// device code sent to it and `C` the client it is finally given.
pub enum State<K, D, C> {
    Unauthenticated,
    KeyOffered(K),
    CodeSent(D, Option<K>),
    InvalidIdentity(Identity, Option<K>),
    Authenticated(C, String),
}

/// The key a state carries forward into a new code: the offered key, or
/// the one kept beside an invalid identity.
pub open spec fn carried_key<K, D, C>(s: State<K, D, C>) -> Option<K> {
    match s {
        State::KeyOffered(k) => Some(k),
        State::InvalidIdentity(_, k) => k,
        _ => None,
    }
}

/// The key a state keeps beside an invalid identity: only an offered one.
pub open spec fn offered_key<K, D, C>(s: State<K, D, C>) -> Option<K> {
    match s {
        State::KeyOffered(k) => Some(k),
        _ => None,
    }
}

/// After a key is offered.
pub open spec fn after_key_offered<K, D, C>(s: State<K, D, C>, key: K) -> State<K, D, C> {
    State::KeyOffered(key)
}

/// After a device code is sent.
pub open spec fn after_code_sent<K, D, C>(s: State<K, D, C>, code: D) -> State<K, D, C> {
    State::CodeSent(code, carried_key(s))
}

/// After the sent code was used: back to the offered key, if there was
/// one, and otherwise to the start.
pub open spec fn after_code_used<K, D, C>(s: State<K, D, C>) -> State<K, D, C> {
    match s {
        State::CodeSent(_, Some(k)) => State::KeyOffered(k),
        _ => State::Unauthenticated,
    }
}

/// After the identity of a login turned out to have no access.
pub open spec fn after_invalid_identity<K, D, C>(s: State<K, D, C>, id: Identity) -> State<K, D, C> {
    State::InvalidIdentity(id, offered_key(s))
}

/// After the login succeeded with `client`, by `method`.
pub open spec fn after_authenticated<K, D, C>(s: State<K, D, C>, client: C, method: String) -> State<K, D, C> {
    State::Authenticated(client, method)
}

/// What a keyboard-interactive request does in a state.
pub enum InteractiveStep {
    /// Send a new device code.
    SendCode,
    /// Check the code that was sent.
    CheckCode,
    /// The state allows no keyboard-interactive request.
    Unexpected,
}

/// The step of a keyboard-interactive request: a code is sent from any
/// state before a code, checked once sent, and nothing is done once in.
pub open spec fn interactive_step_of<K, D, C>(s: State<K, D, C>) -> InteractiveStep {
    match s {
        State::CodeSent(..) => InteractiveStep::CheckCode,
        State::Authenticated(..) => InteractiveStep::Unexpected,
        _ => InteractiveStep::SendCode,
    }
}

/// The name of a state.
pub open spec fn state_name<K, D, C>(s: State<K, D, C>) -> Seq<char> {
    match s {
        State::Unauthenticated => "Unauthenticated"@,
        State::KeyOffered(_) => "KeyOffered"@,
        State::CodeSent(..) => "CodeSent"@,
        State::InvalidIdentity(..) => "InvalidIdentity"@,
        State::Authenticated(..) => "Authenticated"@,
    }
}

/// The text shown before a new code when the last login had no access.
pub open spec fn preface_of<K, D, C>(s: State<K, D, C>) -> Seq<char> {
    match s {
        State::InvalidIdentity(id, _) => "\nAuthenticated ID is invalid:\n- name: "@ + id.name@
            + "\n- groups: "@ + join(strings(id.groups@), ", "@)
            + "\n--------------------\n"@,
        _ => Seq::empty(),
    }
}

impl<K, D, C> State<K, D, C> {
    /// A key was offered.
    pub fn key_offered(&mut self, key: K)
        ensures
            *final(self) == after_key_offered(*old(self), key),
    {
        *self = State::KeyOffered(key);
    }

    /// A device code was sent; an offered key is kept for when it is used.
    pub fn code_sent(&mut self, code: D)
        ensures
            *final(self) == after_code_sent(*old(self), code),
    {
        let mut prev = State::Unauthenticated;
        std::mem::swap(&mut prev, self);
        let key = match prev {
            State::KeyOffered(k) => Some(k),
            State::InvalidIdentity(_, k) => k,
            _ => None,
        };
        *self = State::CodeSent(code, key);
    }

    /// The sent code was used, whatever came of it.
    pub fn code_used(&mut self)
        ensures
            *final(self) == after_code_used(*old(self)),
    {
        let mut prev = State::Unauthenticated;
        std::mem::swap(&mut prev, self);
        *self = match prev {
            State::CodeSent(_, Some(k)) => State::KeyOffered(k),
            _ => State::Unauthenticated,
        };
    }

    /// The login's identity has no access.
    pub fn invalid_identity(&mut self, identity: Identity)
        ensures
            *final(self) == after_invalid_identity(*old(self), identity),
    {
        let mut prev = State::Unauthenticated;
        std::mem::swap(&mut prev, self);
        let key = match prev {
            State::KeyOffered(k) => Some(k),
            _ => None,
        };
        *self = State::InvalidIdentity(identity, key);
    }

    /// The login succeeded.
    pub fn authenticated(&mut self, client: C, method: String)
        ensures
            *final(self) == after_authenticated(*old(self), client, method),
    {
        *self = State::Authenticated(client, method);
    }

    /// What a keyboard-interactive request does now.
    pub fn interactive_step(&self) -> (r: InteractiveStep)
        ensures
            r == interactive_step_of(*self),
    {
        match self {
            State::CodeSent(..) => InteractiveStep::CheckCode,
            State::Authenticated(..) => InteractiveStep::Unexpected,
            _ => InteractiveStep::SendCode,
        }
    }

    /// The state's name.
    pub fn name(&self) -> (s: &'static str)
        ensures
            s@ == state_name(*self),
    {
        match self {
            State::Unauthenticated => "Unauthenticated",
            State::KeyOffered(_) => "KeyOffered",
            State::CodeSent(..) => "CodeSent",
            State::InvalidIdentity(..) => "InvalidIdentity",
            State::Authenticated(..) => "Authenticated",
        }
    }

    /// The text shown before a new code: why the last login was refused,
    /// or nothing.
    pub fn preface(&self) -> (s: String)
        ensures
            s@ == preface_of(*self),
    {
        match self {
            State::InvalidIdentity(id, _) => {
                let groups = join_strings(&id.groups, ", ");
                let a = concat("\nAuthenticated ID is invalid:\n- name: ", id.name.as_str());
                let b = concat(a.as_str(), "\n- groups: ");
                let c = concat(b.as_str(), groups.as_str());
                concat(c.as_str(), "\n--------------------\n")
            },
            _ => String::new(),
        }
    }
}

impl<K, D, C> Default for State<K, D, C> {
    fn default() -> (s: Self)
        ensures
            s is Unauthenticated,
    {
        State::Unauthenticated
    }
}

// ---------------------------------------------------------------------------
// Replies to a login attempt
// ---------------------------------------------------------------------------
/// The answer to an authentication request.
pub enum AuthReply {
    Accept,
    /// Refused; `interactive` says whether keyboard-interactive is offered
    /// next.
    Reject { interactive: bool },
    /// Asks the client something more.
    Partial { name: String, instructions: String, prompt: String },
}

/// The reply that sends a device code: `login_url` is the code's address
/// drawn as a QR code, `uri` the address itself.
pub open spec fn code_reply_of(preface: Seq<char>, login_url: Seq<char>, uri: Seq<char>) -> (Seq<char>, Seq<char>, Seq<char>) {
    (
        "Welcome to KubeRift"@,
        preface + "\nLogin or scan the QRCode below to validate your identity:\n"@,
        "\n"@ + login_url + "\n\n"@ + uri + "\n\nPress Enter to continue"@,
    )
}

/// The reply that asks for a sent code to be used.
pub fn code_reply(preface: &str, login_url: &str, uri: &str) -> (r: AuthReply)
    ensures
        r matches AuthReply::Partial { name, instructions, prompt } && {
            &&& name@ == code_reply_of(preface@, login_url@, uri@).0
            &&& instructions@ == code_reply_of(preface@, login_url@, uri@).1
            &&& prompt@ == code_reply_of(preface@, login_url@, uri@).2
        },
{
    let instructions = concat(preface, "\nLogin or scan the QRCode below to validate your identity:\n");
    let a = concat("\n", login_url);
    let b = concat(a.as_str(), "\n\n");
    let c = concat(b.as_str(), uri);
    let prompt = concat(c.as_str(), "\n\nPress Enter to continue");
    AuthReply::Partial { name: "Welcome to KubeRift".to_string(), instructions, prompt }
}

/// The reply while a code waits to be activated: the token endpoint
/// answering `403 Forbidden` means the user has not confirmed the code yet,
/// and the client is asked to try again. Any other outcome of the token
/// request is an error, and `None` comes back.
pub fn waiting_reply(http_status: Option<u16>) -> (r: Option<AuthReply>)
    ensures
        http_status == Some(403u16) ==> (r matches Some(AuthReply::Partial { name, instructions, prompt }) && {
            &&& name@ == Seq::<char>::empty()
            &&& instructions@ == "Waiting for activation, please try again."@
            &&& prompt@ == "Press Enter to continue"@
        }),
        http_status != Some(403u16) ==> r is None,
{
    match http_status {
        Some(code) => {
            if code == 403 {
                Some(AuthReply::Partial {
                    name: String::new(),
                    instructions: "Waiting for activation, please try again.".to_string(),
                    prompt: "Press Enter to continue".to_string(),
                })
            } else {
                None
            }
        },
        None => None,
    }
}

/// What a public key login comes to: the key is offered, and the login
/// succeeds with the client where the key gave `access`; otherwise it is
/// refused and keyboard-interactive login is offered next.
pub fn publickey_checked<K, D, C>(state: &mut State<K, D, C>, key: K, access: Option<C>, method: String) -> (r: AuthReply)
    ensures
        match access {
            Some(c) => {
                &&& *final(state) == after_authenticated(after_key_offered(*old(state), key), c, method)
                &&& r is Accept
            },
            None => {
                &&& *final(state) == after_key_offered(*old(state), key)
                &&& r == AuthReply::Reject { interactive: true }
            },
        },
{
    state.key_offered(key);
    match access {
        Some(c) => {
            state.authenticated(c, method);
            AuthReply::Accept
        },
        None => AuthReply::Reject { interactive: true },
    }
}

/// What a login comes to once the provider confirmed the sent code for
/// `identity` and the cluster answered `access` for it. The code is used
/// up either way. Without access the identity is kept as invalid and the
/// login refused; with access it succeeds with the client, by `method`, and
/// the key the login carried (if any) is handed back to be recorded for the
/// identity. Where no code was sent, nothing changes and `None` comes back.
pub fn code_confirmed<K, D, C>(state: &mut State<K, D, C>, identity: Identity, access: Option<C>, method: String) -> (r: Option<(AuthReply, Option<K>)>)
    ensures
        !(*old(state) is CodeSent) ==> r is None && *final(state) == *old(state),
        *old(state) is CodeSent ==> match access {
            Some(c) => {
                &&& *final(state) == after_authenticated(after_code_used(*old(state)), c, method)
                &&& r matches Some((AuthReply::Accept, key)) && key == old(state)->CodeSent_1
            },
            None => {
                &&& *final(state) == after_invalid_identity(after_code_used(*old(state)), identity)
                &&& r matches Some((AuthReply::Reject { interactive: false }, None))
            },
        },
{
    let mut prev = State::Unauthenticated;
    std::mem::swap(&mut prev, state);
    match prev {
        State::CodeSent(_, key) => match access {
            Some(c) => {
                *state = State::Authenticated(c, method);
                Some((AuthReply::Accept, key))
            },
            None => {
                *state = State::InvalidIdentity(identity, key);
                Some((AuthReply::Reject { interactive: false }, None))
            },
        },
        other => {
            *state = other;
            None
        },
    }
}

// ---------------------------------------------------------------------------
// Laws
// ---------------------------------------------------------------------------
/// Using a code that was just sent undoes the sending: the login is back at
/// the key it carried, or at the start when it carried none.
pub proof fn law_code_round_trip<K, D, C>(s: State<K, D, C>, code: D)
    ensures
        after_code_used(after_code_sent(s, code)) == match carried_key(s) {
            Some(k) => State::KeyOffered(k),
            None => State::<K, D, C>::Unauthenticated,
        },
{
}

/// An offered key survives a refused identity and a new code: after the
/// new code is used, the login is back at that key.
pub proof fn law_key_survives_retry<K, D, C>(key: K, id: Identity, code1: D, code2: D)
    ensures
        after_code_used(
            after_code_sent(
                after_invalid_identity(after_code_used(after_code_sent(State::<K, D, C>::KeyOffered(key), code1)), id),
                code2,
            ),
        ) == State::<K, D, C>::KeyOffered(key),
{
}

/// Using a code when none was sent starts the login over.
pub proof fn law_code_used_without_code<K, D, C>(s: State<K, D, C>)
    requires
        !(s is CodeSent),
    ensures
        after_code_used(s) == State::<K, D, C>::Unauthenticated,
{
}

/// Only a successful check lets a login in: no other step leads to the
/// authenticated state.
pub proof fn law_only_success_authenticates<K, D, C>(s: State<K, D, C>, key: K, code: D, id: Identity)
    ensures
        !(after_key_offered(s, key) is Authenticated),
        !(after_code_sent(s, code) is Authenticated),
        !(after_code_used(s) is Authenticated),
        !(after_invalid_identity(s, id) is Authenticated),
{
}

/// Once in, a keyboard-interactive request is never served.
pub proof fn law_no_interactive_once_in<K, D, C>(s: State<K, D, C>, client: C, method: String)
    ensures
        interactive_step_of(after_authenticated(s, client, method)) == InteractiveStep::Unexpected,
{
}

/// Before a code is sent and before the login is in (at the start, after a
/// key was offered, or after an identity turned out to have no access), a
/// keyboard-interactive request sends a new code; once a code is sent it
/// is checked. In particular a client whose key was refused goes on to a
/// code.
pub proof fn law_interactive_sends_code_until_one_is_sent<K, D, C>(s: State<K, D, C>, key: K, code: D, id: Identity)
    ensures
        !(s is CodeSent) && !(s is Authenticated) ==> interactive_step_of(s) == InteractiveStep::SendCode,
        s is CodeSent ==> interactive_step_of(s) == InteractiveStep::CheckCode,
        interactive_step_of(after_key_offered(s, key)) == InteractiveStep::SendCode,
        interactive_step_of(after_invalid_identity(s, id)) == InteractiveStep::SendCode,
        interactive_step_of(after_code_sent(s, code)) == InteractiveStep::CheckCode,
        interactive_step_of(State::<K, D, C>::Unauthenticated) == InteractiveStep::SendCode,
{
}

} // verus!
