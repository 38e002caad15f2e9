//! What a session does with the requests that come in on its connection:
//! which it serves, which it refuses, and what it tells the dashboard.
use vstd::prelude::*;
use std::collections::HashMap;
use crate::auth::State;
use crate::dashboard::{window_size, WindowSize};
use crate::proxy::parse_service;
use crate::serve::{enabled, Features};
use crate::text::{concat, first_index, same_text};
use crate::tunnel::{Kind, Lifecycle, Tunnel};

verus! {

broadcast use vstd::std_specs::hash::group_hash_axioms;

// ---------------------------------------------------------------------------
// Open channels
// ---------------------------------------------------------------------------
/// Why a channel could not be handed to a request.
#[derive(Debug, Clone, Copy, PartialEq, Eq, Structural)]
pub enum ChannelError {
    /// No session channel with that id was opened.
    NotFound,
    /// The channel was already handed to an earlier request.
    Consumed,
}

/// The session channels of a connection. A channel is held from when it is
/// opened until a request takes it; one taken by a subsystem is still
/// marked open (without its value), so that its end of input closes it.
pub struct Channels<T> {
    open: HashMap<u32, Option<T>>,
}

/// What taking channel `id` out of `m` gives.
pub open spec fn take_result<T>(m: Map<u32, Option<T>>, id: u32) -> Result<T, ChannelError> {
    if !m.contains_key(id) {
        Err(ChannelError::NotFound)
    } else {
        match m[id] {
            Some(c) => Ok(c),
            None => Err(ChannelError::Consumed),
        }
    }
}

/// The channels after a subsystem asked for channel `id`: where it could
/// be taken it stays marked open without its value.
pub open spec fn after_subsystem<T>(m: Map<u32, Option<T>>, id: u32) -> Map<u32, Option<T>> {
    if take_result(m, id) is Ok {
        m.insert(id, None)
    } else {
        m.remove(id)
    }
}

impl<T> View for Channels<T> {
    type V = Map<u32, Option<T>>;

    closed spec fn view(&self) -> Map<u32, Option<T>> {
        self.open@
    }
}

impl<T> Channels<T> {
    pub fn new() -> (r: Channels<T>)
        ensures
            r@ == Map::<u32, Option<T>>::empty(),
    {
        Channels { open: HashMap::new() }
    }

    /// A session channel was opened.
    pub fn opened(&mut self, id: u32, channel: T)
        ensures
            final(self)@ == old(self)@.insert(id, Some(channel)),
    {
        self.open.insert(id, Some(channel));
    }

    /// Hands channel `id` to a request (a terminal); it is no longer held.
    pub fn take(&mut self, id: u32) -> (r: Result<T, ChannelError>)
        ensures
            r == take_result(old(self)@, id),
            final(self)@ == old(self)@.remove(id),
    {
        match self.open.remove(&id) {
            None => Err(ChannelError::NotFound),
            Some(None) => Err(ChannelError::Consumed),
            Some(Some(c)) => Ok(c),
        }
    }

    /// Hands channel `id` to a subsystem, which keeps it marked open.
    pub fn take_for_subsystem(&mut self, id: u32) -> (r: Result<T, ChannelError>)
        ensures
            r == take_result(old(self)@, id),
            final(self)@ == after_subsystem(old(self)@, id),
    {
        let r = self.take(id);
        if r.is_ok() {
            self.open.insert(id, None);
        }
        r
    }

    /// The client ended its input on channel `id`: the channel is to be
    /// closed exactly when it is still marked open.
    pub fn end_of_input(&mut self, id: u32) -> (close: bool)
        ensures
            close == old(self)@.contains_key(id),
            final(self)@ == old(self)@.remove(id),
    {
        self.open.remove(&id).is_some()
    }
}

/// A channel that was opened is handed to the first request that asks for
/// it.
pub proof fn law_open_then_take<T>(m: Map<u32, Option<T>>, id: u32, c: T)
    ensures
        take_result(m.insert(id, Some(c)), id) == Ok::<T, ChannelError>(c),
{
}

/// A channel is handed out at most once: asking again fails.
pub proof fn law_taken_once<T>(m: Map<u32, Option<T>>, id: u32, c: T)
    ensures
        take_result(m.insert(id, Some(c)).remove(id), id) is Err,
        take_result(after_subsystem(m.insert(id, Some(c)), id), id) is Err,
{
}

/// The end of input closes a channel that a subsystem took, and leaves
/// alone one that a terminal took.
pub proof fn law_end_of_input_closes_subsystems<T>(m: Map<u32, Option<T>>, id: u32, c: T)
    ensures
        after_subsystem(m.insert(id, Some(c)), id).contains_key(id),
        !m.insert(id, Some(c)).remove(id).contains_key(id),
{
}

// ---------------------------------------------------------------------------
// Requests
// ---------------------------------------------------------------------------
/// The port of a tunnel, where it fits in 16 bits.
pub open spec fn port_of(port: u32) -> Option<u16> {
    if port <= 65535 {
        Some(port as u16)
    } else {
        None
    }
}

fn narrow_port(port: u32) -> (r: Option<u16>)
    ensures
        r == port_of(port),
{
    if port <= 65535 {
        Some(port as u16)
    } else {
        None
    }
}

/// What a request for a remote forward (`ssh -R`) comes to.
pub enum ForwardDecision {
    /// Egress tunnels are not enabled: the request is refused.
    Disabled,
    /// The session has not logged in.
    Unexpected,
    /// The port does not fit in 16 bits.
    BadPort,
    /// `localhost` was asked for: the tunnel is reported as failed and the
    /// request refused.
    Localhost(Tunnel),
    /// The address is not `<namespace>/<service>`.
    BadAddress(Tunnel),
    /// Publish the service `namespace/name` on `port`.
    Start { meta: Tunnel, namespace: String, name: String, port: u16 },
}

/// The tunnel that a forward to `address:port` is shown as: listening.
pub open spec fn forward_meta(t: Tunnel, address: Seq<char>, port: u16) -> bool {
    &&& t.host_text() == address
    &&& t.port_number() == port
    &&& t.kind_of() == Kind::Egress
    &&& t.stage() == Lifecycle::Listening
}

/// What comes of a remote forward of `address` on `port`.
pub fn forward_request<K, D, C>(features: &Vec<Features>, state: &State<K, D, C>, address: &str, port: u32) -> (r: ForwardDecision)
    ensures
        !features@.contains(Features::EgressTunnel) ==> r is Disabled,
        features@.contains(Features::EgressTunnel) && !(*state is Authenticated) ==> r is Unexpected,
        features@.contains(Features::EgressTunnel) && *state is Authenticated ==> match port_of(port) {
            None => r is BadPort,
            Some(p) => match r {
                ForwardDecision::Localhost(t) => forward_meta(t, address@, p) && address@ == "localhost"@,
                ForwardDecision::BadAddress(t) => forward_meta(t, address@, p) && address@ != "localhost"@
                    && first_index(address@, '/') < 0,
                ForwardDecision::Start { meta, namespace, name, port: q } => {
                    let i = first_index(address@, '/');
                    &&& forward_meta(meta, address@, p)
                    &&& address@ != "localhost"@
                    &&& i >= 0
                    &&& namespace@ == address@.take(i)
                    &&& name@ == address@.skip(i + 1)
                    &&& q == p
                },
                _ => false,
            },
        },
{
    if !enabled(features, Features::EgressTunnel) {
        return ForwardDecision::Disabled;
    }
    match state {
        State::Authenticated(..) => {},
        _ => {
            return ForwardDecision::Unexpected;
        },
    }
    let p = match narrow_port(port) {
        Some(p) => p,
        None => {
            return ForwardDecision::BadPort;
        },
    };
    let meta = Tunnel::new(address.to_string(), p, Kind::Egress, Lifecycle::Listening);
    if same_text(address, "localhost") {
        return ForwardDecision::Localhost(meta);
    }
    match parse_service(address) {
        Ok((namespace, name)) => ForwardDecision::Start { meta, namespace, name, port: p },
        Err(_) => ForwardDecision::BadAddress(meta),
    }
}

/// What a request for a local forward (`ssh -L`) comes to.
pub enum DirectDecision {
    /// Ingress tunnels are not enabled: the channel is refused.
    Disabled,
    /// The session has not logged in.
    Unexpected,
    /// The port does not fit in 16 bits.
    BadPort,
    /// Open the tunnel, shown as active.
    Open(Tunnel),
}

/// What comes of a local forward to `host:port`.
pub fn direct_request<K, D, C>(features: &Vec<Features>, state: &State<K, D, C>, host: &str, port: u32) -> (r: DirectDecision)
    ensures
        !features@.contains(Features::IngressTunnel) ==> r is Disabled,
        features@.contains(Features::IngressTunnel) && !(*state is Authenticated) ==> r is Unexpected,
        features@.contains(Features::IngressTunnel) && *state is Authenticated ==> match port_of(port) {
            None => r is BadPort,
            Some(p) => r matches DirectDecision::Open(t) && {
                &&& t.host_text() == host@
                &&& t.port_number() == p
                &&& t.kind_of() == Kind::Ingress
                &&& t.stage() == Lifecycle::Active
            },
        },
{
    if !enabled(features, Features::IngressTunnel) {
        return DirectDecision::Disabled;
    }
    match state {
        State::Authenticated(..) => {},
        _ => {
            return DirectDecision::Unexpected;
        },
    }
    match narrow_port(port) {
        Some(p) => DirectDecision::Open(Tunnel::new(host.to_string(), p, Kind::Ingress, Lifecycle::Active)),
        None => DirectDecision::BadPort,
    }
}

/// What a request for a terminal comes to.
pub enum PtyDecision {
    /// Terminals are not enabled: the channel is refused.
    Disabled,
    /// The session has not logged in.
    Unexpected,
    /// Start the dashboard on the channel.
    Start,
}

pub fn pty_request<K, D, C>(features: &Vec<Features>, state: &State<K, D, C>) -> (r: PtyDecision)
    ensures
        !features@.contains(Features::Pty) ==> r is Disabled,
        features@.contains(Features::Pty) && !(*state is Authenticated) ==> r is Unexpected,
        features@.contains(Features::Pty) && *state is Authenticated ==> r is Start,
{
    if !enabled(features, Features::Pty) {
        return PtyDecision::Disabled;
    }
    match state {
        State::Authenticated(..) => PtyDecision::Start,
        _ => PtyDecision::Unexpected,
    }
}

/// The size that a terminal request reports, each part kept to its lower
/// 16 bits.
pub open spec fn reported_size(columns: u32, rows: u32, width: u32, height: u32) -> WindowSize {
    WindowSize { columns: columns as u16, rows: rows as u16, width: width as u16, height: height as u16 }
}

/// What a new dashboard is told before anything else.
pub enum Opening {
    /// The size of its window.
    Resize(WindowSize),
    /// The tunnel that a forward of this session set up before the
    /// dashboard was there.
    Tunnel(Tunnel),
}

/// The openings of a dashboard: the window's size, then the pending tunnel
/// where there is one.
pub open spec fn opening_events(size: WindowSize, pending: Option<Tunnel>) -> Seq<Opening> {
    match pending {
        Some(t) => seq![Opening::Resize(size), Opening::Tunnel(t)],
        None => seq![Opening::Resize(size)],
    }
}

/// What a request for a terminal on a channel does to the session.
pub enum PtyOutcome<T> {
    /// Terminals are not enabled: the channel is refused.
    Disabled,
    /// The session has not logged in.
    Unexpected,
    /// The channel could not be handed to the terminal.
    Channel(ChannelError),
    /// The dashboard starts on `channel` and is first told `events`.
    Start { channel: T, events: Vec<Opening> },
}

/// A request for a terminal on channel `id`, of `columns` by `rows` (and
/// `width` by `height` pixels): where terminals are enabled and the
/// session has logged in, the channel is taken out of `channels`; where it
/// could be taken, the dashboard starts on it and is told the window's size
/// and then the pending tunnel, which is cleared.
pub fn pty_open<K, D, C, T>(
    features: &Vec<Features>,
    state: &State<K, D, C>,
    channels: &mut Channels<T>,
    pending: &mut Option<Tunnel>,
    id: u32,
    columns: u32,
    rows: u32,
    width: u32,
    height: u32,
) -> (r: PtyOutcome<T>)
    ensures
        !features@.contains(Features::Pty) ==> (r is Disabled && final(channels)@ == old(channels)@ && *final(pending)
            == *old(pending)),
        features@.contains(Features::Pty) && !(*state is Authenticated) ==> (r is Unexpected && final(channels)@
            == old(channels)@ && *final(pending) == *old(pending)),
        features@.contains(Features::Pty) && *state is Authenticated ==> {
            &&& final(channels)@ == old(channels)@.remove(id)
            &&& match take_result(old(channels)@, id) {
                Err(e) => r == PtyOutcome::<T>::Channel(e) && *final(pending) == *old(pending),
                Ok(c) => {
                    &&& r matches PtyOutcome::Start { channel, events } && channel == c && events@ == opening_events(
                        reported_size(columns, rows, width, height),
                        *old(pending),
                    )
                    &&& *final(pending) is None
                },
            }
        },
{
    match pty_request(features, state) {
        PtyDecision::Disabled => {
            return PtyOutcome::Disabled;
        },
        PtyDecision::Unexpected => {
            return PtyOutcome::Unexpected;
        },
        PtyDecision::Start => {},
    }
    let channel = match channels.take(id) {
        Ok(c) => c,
        Err(e) => {
            return PtyOutcome::Channel(e);
        },
    };
    let mut events: Vec<Opening> = Vec::new();
    events.push(Opening::Resize(window_size(columns, rows, width, height)));
    let t = pending.take();
    match t {
        Some(t) => events.push(Opening::Tunnel(t)),
        None => {},
    }
    proof {
        assert(events@ =~= opening_events(reported_size(columns, rows, width, height), *old(pending)));
    }
    PtyOutcome::Start { channel, events }
}

/// The tunnel a remote forward leaves pending for the next dashboard: the
/// forward's tunnel, once its port fits, whether it is refused as
/// `localhost`, refused for its address or published.
pub fn remember_forward(decision: &ForwardDecision, pending: &mut Option<Tunnel>)
    ensures
        match *decision {
            ForwardDecision::Localhost(t) => *final(pending) == Some(t),
            ForwardDecision::BadAddress(t) => *final(pending) == Some(t),
            ForwardDecision::Start { meta, .. } => *final(pending) == Some(meta),
            _ => *final(pending) == *old(pending),
        },
{
    match decision {
        ForwardDecision::Localhost(t) => {
            *pending = Some(t.copy());
        },
        ForwardDecision::BadAddress(t) => {
            *pending = Some(t.copy());
        },
        ForwardDecision::Start { meta, .. } => {
            *pending = Some(meta.copy());
        },
        _ => {},
    }
}

/// What a request for a subsystem comes to.
pub enum SubsystemDecision {
    /// The session has not logged in.
    Unexpected,
    /// Only `sftp` is served: the channel is refused and the connection
    /// ended with this reason.
    Unsupported(String),
    /// SFTP is not enabled: the channel is refused.
    Disabled,
    /// Serve SFTP on the channel.
    Start,
}

pub fn subsystem_request<K, D, C>(features: &Vec<Features>, state: &State<K, D, C>, name: &str) -> (r: SubsystemDecision)
    ensures
        !(*state is Authenticated) ==> r is Unexpected,
        *state is Authenticated && name@ != "sftp"@ ==> (r matches SubsystemDecision::Unsupported(reason)
            && reason@ == "unsupported subsystem: "@ + name@),
        *state is Authenticated && name@ == "sftp"@ && !features@.contains(Features::Sftp) ==> r is Disabled,
        *state is Authenticated && name@ == "sftp"@ && features@.contains(Features::Sftp) ==> r is Start,
{
    match state {
        State::Authenticated(..) => {},
        _ => {
            return SubsystemDecision::Unexpected;
        },
    }
    if !same_text(name, "sftp") {
        return SubsystemDecision::Unsupported(concat("unsupported subsystem: ", name));
    }
    if !enabled(features, Features::Sftp) {
        return SubsystemDecision::Disabled;
    }
    SubsystemDecision::Start
}

// ---------------------------------------------------------------------------
// Tunnel events
// ---------------------------------------------------------------------------
/// What the dashboard is told when a remote forward opens a connection: the
/// tunnel is active.
pub fn egress_opened(meta: &Tunnel) -> (t: Tunnel)
    ensures
        t.host_text() == meta.host_text(),
        t.port_number() == meta.port_number(),
        t.kind_of() == meta.kind_of(),
        t.stage() == Lifecycle::Active,
{
    meta.copy().into_active()
}

/// What the dashboard is told when a remote forward's connection ends:
/// a failure marks the tunnel failed; a clean end marks it listening again
/// when no other connection was running, and is not reported otherwise.
pub fn egress_ended(meta: &Tunnel, failed: bool, others: usize) -> (r: Option<Result<Tunnel, Tunnel>>)
    ensures
        failed ==> (r matches Some(Err(t)) && t.host_text() == meta.host_text() && t.port_number()
            == meta.port_number() && t.kind_of() == meta.kind_of() && t.stage() == Lifecycle::Error),
        !failed && others == 0 ==> (r matches Some(Ok(t)) && t.host_text() == meta.host_text()
            && t.port_number() == meta.port_number() && t.kind_of() == meta.kind_of() && t.stage()
            == Lifecycle::Listening),
        !failed && others > 0 ==> r is None,
{
    if failed {
        Some(Err(meta.copy().into_error()))
    } else if others == 0 {
        Some(Ok(meta.copy().into_listening()))
    } else {
        None
    }
}

/// What the dashboard is told when a local forward's connection ends: the
/// tunnel is inactive, reported as a failure when the connection failed.
pub fn ingress_ended(meta: &Tunnel, failed: bool) -> (r: Result<Tunnel, Tunnel>)
    ensures
        match r {
            Ok(t) => !failed && t.host_text() == meta.host_text() && t.port_number()
                == meta.port_number() && t.kind_of() == meta.kind_of() && t.stage()
                == Lifecycle::Inactive,
            Err(t) => failed && t.host_text() == meta.host_text() && t.port_number()
                == meta.port_number() && t.kind_of() == meta.kind_of() && t.stage()
                == Lifecycle::Inactive,
        },
{
    let t = meta.copy().into_inactive();
    if failed {
        Err(t)
    } else {
        Ok(t)
    }
}

} // verus!
