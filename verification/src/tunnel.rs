//! Tunnels: the forwarded ports of a session, as the dashboard shows them.
use vstd::prelude::*;

use crate::number::{all_digits, digits, digits_value, fmt_u64, lemma_digits};
use crate::table::Tone;
use crate::text::{
    ascii_lower, from_chars, last_index, lemma_last_index_is, push_char, push_str, to_lowercase,
};

verus! {

/// Which way a tunnel forwards.
#[derive(Debug, Clone, Copy, PartialEq, Eq, Structural)]
pub enum Kind {
    /// From the client into the cluster (`ssh -L`).
    Ingress,
    /// From the cluster to the client (`ssh -R`).
    Egress,
}

/// Where a tunnel is in its life.
#[derive(Debug, Clone, Copy, PartialEq, Eq, Structural)]
pub enum Lifecycle {
    Active,
    Inactive,
    Listening,
    Error,
}

/// The name that a kind is shown by.
pub open spec fn kind_name(k: Kind) -> Seq<char> {
    match k {
        Kind::Ingress => seq!['I', 'n', 'g', 'r', 'e', 's', 's'],
        Kind::Egress => seq!['E', 'g', 'r', 'e', 's', 's'],
    }
}

/// The name that a lifecycle state is shown by.
pub open spec fn lifecycle_name(l: Lifecycle) -> Seq<char> {
    match l {
        Lifecycle::Active => seq!['A', 'c', 't', 'i', 'v', 'e'],
        Lifecycle::Inactive => seq!['I', 'n', 'a', 'c', 't', 'i', 'v', 'e'],
        Lifecycle::Listening => seq!['L', 'i', 's', 't', 'e', 'n', 'i', 'n', 'g'],
        Lifecycle::Error => seq!['E', 'r', 'r', 'o', 'r'],
    }
}

/// The name of a kind.
pub fn kind_text(k: Kind) -> (s: String)
    ensures
        s@ == kind_name(k),
{
    match k {
        Kind::Ingress => from_chars(&['I', 'n', 'g', 'r', 'e', 's', 's']),
        Kind::Egress => from_chars(&['E', 'g', 'r', 'e', 's', 's']),
    }
}

/// The name of a lifecycle state.
pub fn lifecycle_text(l: Lifecycle) -> (s: String)
    ensures
        s@ == lifecycle_name(l),
{
    match l {
        Lifecycle::Active => from_chars(&['A', 'c', 't', 'i', 'v', 'e']),
        Lifecycle::Inactive => from_chars(&['I', 'n', 'a', 'c', 't', 'i', 'v', 'e']),
        Lifecycle::Listening => from_chars(&['L', 'i', 's', 't', 'e', 'n', 'i', 'n', 'g']),
        Lifecycle::Error => from_chars(&['E', 'r', 'r', 'o', 'r']),
    }
}

/// The address of a tunnel: `<host>:<port>`.
pub open spec fn addr_text(host: Seq<char>, port: u16) -> Seq<char> {
    host + seq![':'] + digits(port as nat)
}

/// The host and the port can be read back from an address: the host is what
/// stands before the last `:`, the port what follows it.
pub proof fn lemma_addr_parts(host: Seq<char>, port: u16)
    ensures
        last_index(addr_text(host, port), ':') == host.len(),
        addr_text(host, port).take(host.len() as int) == host,
        digits_value(addr_text(host, port).skip(host.len() as int + 1)) == port,
{
    let a = addr_text(host, port);
    let d = digits(port as nat);
    lemma_digits(port as nat);
    assert(a.skip(host.len() as int + 1) =~= d);
    assert(a.take(host.len() as int) =~= host);
    assert forall|j: int| host.len() < j < a.len() implies a[j] != ':' by {
        assert(a[j] == d[j - host.len() - 1]);
        assert(crate::text::is_ascii_digit(d[j - host.len() - 1]));
    }
    lemma_last_index_is(a, ':', host.len() as int);
}

/// Law: two tunnels have the same address exactly when they have the same
/// host and the same port.
pub proof fn law_address_identifies_endpoint(h1: Seq<char>, p1: u16, h2: Seq<char>, p2: u16)
    ensures
        (addr_text(h1, p1) == addr_text(h2, p2)) <==> (h1 == h2 && p1 == p2),
{
    lemma_addr_parts(h1, p1);
    lemma_addr_parts(h2, p2);
}

/// A forwarded port of a session.
#[derive(Debug, Clone)]
pub struct Tunnel {
    host: String,
    port: u16,
    kind: Kind,
    pub lifecycle: Lifecycle,
}

impl Tunnel {
    pub closed spec fn host_text(self) -> Seq<char> {
        self.host@
    }

    pub closed spec fn port_number(self) -> u16 {
        self.port
    }

    pub closed spec fn kind_of(self) -> Kind {
        self.kind
    }

    /// The tunnel's lifecycle state: the value of its field `lifecycle`,
    /// which the method `lifecycle` returns.
    pub closed spec fn stage(self) -> Lifecycle {
        self.lifecycle
    }

    /// The address text of the tunnel.
    pub open spec fn address(self) -> Seq<char> {
        addr_text(self.host_text(), self.port_number())
    }

    /// A tunnel to `host:port`.
    pub fn new(host: String, port: u16, kind: Kind, lifecycle: Lifecycle) -> (t: Tunnel)
        ensures
            t.host_text() == host@,
            t.port_number() == port,
            t.kind_of() == kind,
            t.stage() == lifecycle,
    {
        Tunnel { host, port, kind, lifecycle }
    }

    /// The host the tunnel forwards to or from.
    pub fn host(&self) -> (s: &String)
        ensures
            s@ == self.host_text(),
    {
        &self.host
    }

    /// The port the tunnel forwards.
    pub fn port(&self) -> (p: u16)
        ensures
            p == self.port_number(),
    {
        self.port
    }

    /// Which way the tunnel forwards.
    pub fn kind(&self) -> (k: Kind)
        ensures
            k == self.kind_of(),
    {
        self.kind
    }

    /// Where the tunnel is in its life.
    pub fn lifecycle(&self) -> (l: Lifecycle)
        ensures
            l == self.stage(),
    {
        self.lifecycle
    }

    /// `<host>:<port>`.
    pub fn addr(&self) -> (s: String)
        ensures
            s@ == self.address(),
    {
        let mut s = self.host.clone();
        push_char(&mut s, ':');
        let p = fmt_u64(self.port as u64);
        push_str(&mut s, p.as_str());
        s
    }

    /// A copy of the tunnel.
    pub fn copy(&self) -> (t: Tunnel)
        ensures
            t == *self,
    {
        Tunnel { host: self.host.clone(), port: self.port, kind: self.kind, lifecycle: self.lifecycle }
    }

    /// The same tunnel, now active.
    pub fn into_active(self) -> (t: Tunnel)
        ensures
            t.host_text() == self.host_text(),
            t.port_number() == self.port_number(),
            t.kind_of() == self.kind_of(),
            t.stage() == Lifecycle::Active,
    {
        let mut this = self;
        this.lifecycle = Lifecycle::Active;
        this
    }

    /// The same tunnel, now inactive.
    pub fn into_inactive(self) -> (t: Tunnel)
        ensures
            t.host_text() == self.host_text(),
            t.port_number() == self.port_number(),
            t.kind_of() == self.kind_of(),
            t.stage() == Lifecycle::Inactive,
    {
        let mut this = self;
        this.lifecycle = Lifecycle::Inactive;
        this
    }

    /// The same tunnel, now listening.
    pub fn into_listening(self) -> (t: Tunnel)
        ensures
            t.host_text() == self.host_text(),
            t.port_number() == self.port_number(),
            t.kind_of() == self.kind_of(),
            t.stage() == Lifecycle::Listening,
    {
        let mut this = self;
        this.lifecycle = Lifecycle::Listening;
        this
    }

    /// The same tunnel, now failed.
    pub fn into_error(self) -> (t: Tunnel)
        ensures
            t.host_text() == self.host_text(),
            t.port_number() == self.port_number(),
            t.kind_of() == self.kind_of(),
            t.stage() == Lifecycle::Error,
    {
        let mut this = self;
        this.lifecycle = Lifecycle::Error;
        this
    }

    /// How the tunnel is named in messages: `<Kind><<host>:<port>>`.
    pub fn to_text(&self) -> (s: String)
        ensures
            s@ == kind_name(self.kind_of()) + seq!['<'] + self.address() + seq!['>'],
    {
        let mut s = kind_text(self.kind);
        push_char(&mut s, '<');
        let a = self.addr();
        push_str(&mut s, a.as_str());
        push_char(&mut s, '>');
        s
    }

    /// The cells of the tunnel's row: kind (lower case), address, lifecycle.
    pub fn row(&self) -> (cells: Vec<String>)
        ensures
            cells@.map_values(|c: String| c@) == seq![
                ascii_lower(kind_name(self.kind_of())),
                self.address(),
                lifecycle_name(self.stage()),
            ],
    {
        let k = kind_text(self.kind);
        assert(crate::text::all_ascii(k@));
        let mut cells: Vec<String> = Vec::new();
        cells.push(to_lowercase(k.as_str()));
        cells.push(self.addr());
        cells.push(lifecycle_text(self.lifecycle));
        assert(cells@.map_values(|c: String| c@) =~= seq![
            ascii_lower(kind_name(self.kind_of())),
            self.address(),
            lifecycle_name(self.stage()),
        ]);
        cells
    }

    /// How the tunnel's row is shown: active is healthy, a failure unhealthy.
    pub fn tone(&self) -> (t: Tone)
        ensures
            t == match self.stage() {
                Lifecycle::Active => Tone::Healthy,
                Lifecycle::Inactive | Lifecycle::Listening => Tone::Normal,
                Lifecycle::Error => Tone::Unhealthy,
            },
    {
        match self.lifecycle {
            Lifecycle::Active => Tone::Healthy,
            Lifecycle::Inactive | Lifecycle::Listening => Tone::Normal,
            Lifecycle::Error => Tone::Unhealthy,
        }
    }
}

/// Two tunnels are the same tunnel when host, port and kind agree; the
/// lifecycle is not part of what a tunnel is.
pub open spec fn same_tunnel(a: Tunnel, b: Tunnel) -> bool {
    a.host_text() == b.host_text() && a.port_number() == b.port_number() && a.kind_of() == b.kind_of()
}

impl PartialEq for Tunnel {
    fn eq(&self, other: &Self) -> (r: bool) {
        self.host == other.host && self.port == other.port && self.kind == other.kind
    }
}

impl vstd::std_specs::cmp::PartialEqSpecImpl for Tunnel {
    open spec fn obeys_eq_spec() -> bool {
        true
    }

    open spec fn eq_spec(&self, other: &Self) -> bool {
        same_tunnel(*self, *other)
    }
}

impl Eq for Tunnel {

}

/// A tunnel that failed, with what went wrong.
#[derive(Debug, Clone)]
pub struct Error {
    error: String,
    pub tunnel: Tunnel,
}

#[verifier::external_type_specification]
#[verifier::external_body]
pub struct ExReport(eyre::Report);

/// The `Debug` text of an `eyre::Report`. It depends on the error handler
/// that the process has installed, so nothing is stated of it.
#[verifier::external_body]
fn report_text(report: &eyre::Report) -> (s: String) {
    format!("{report:?}")
}

impl Error {
    pub closed spec fn text(self) -> Seq<char> {
        self.error@
    }

    pub closed spec fn failed(self) -> Tunnel {
        self.tunnel
    }

    /// The failure of `tunnel`, described by the report's debug text.
    pub fn new(error: &eyre::Report, tunnel: Tunnel) -> (e: Error)
        ensures
            e.failed() == tunnel,
    {
        Error { error: report_text(error), tunnel }
    }

    /// The failure of `tunnel`, described by `message`.
    pub fn with_message(message: String, tunnel: Tunnel) -> (e: Error)
        ensures
            e.failed() == tunnel,
            e.text() == message@,
    {
        Error { error: message, tunnel }
    }

    /// What went wrong.
    pub fn message(&self) -> (s: String)
        ensures
            s@ == self.text(),
    {
        self.error.clone()
    }

    /// How the failure is shown: `<tunnel>: <message>`.
    pub fn to_text(&self) -> (s: String)
        ensures
            s@ == kind_name(self.failed().kind_of()) + seq!['<'] + self.failed().address() + seq![
                '>',
            ] + seq![':', ' '] + self.text(),
    {
        let mut s = self.tunnel.to_text();
        push_str(&mut s, ": ");
        proof {
            reveal_strlit(": ");
        }
        push_str(&mut s, self.error.as_str());
        s
    }
}

/// The labels of the stream metrics.
#[derive(Debug)]
pub struct StreamMetrics<'a> {
    pub resource: &'a str,
    pub direction: &'a str,
}

impl<'a> StreamMetrics<'a> {
    /// The label values, resource first.
    pub fn values(&self) -> (v: [&'a str; 2])
        ensures
            v@ == seq![self.resource, self.direction],
    {
        [self.resource, self.direction]
    }
}

} // verus!
