//! The order in which the tables list their rows.
use std::cmp::Ordering;

use vstd::prelude::*;

use crate::text::{at, to_chars};
use crate::container::Container;
use crate::node::Node;
use crate::tunnel::Tunnel;

verus! {

/// Lexicographic order of two texts, character by character.
pub open spec fn lex_order(a: Seq<char>, b: Seq<char>) -> Ordering
    decreases a.len(),
{
    if a.len() == 0 {
        if b.len() == 0 {
            Ordering::Equal
        } else {
            Ordering::Less
        }
    } else if b.len() == 0 {
        Ordering::Greater
    } else if a[0] < b[0] {
        Ordering::Less
    } else if a[0] > b[0] {
        Ordering::Greater
    } else {
        lex_order(a.drop_first(), b.drop_first())
    }
}

/// The reverse of an ordering.
pub open spec fn flip(o: Ordering) -> Ordering {
    match o {
        Ordering::Less => Ordering::Greater,
        Ordering::Equal => Ordering::Equal,
        Ordering::Greater => Ordering::Less,
    }
}

/// Two texts compare equal exactly when they are the same text.
pub proof fn lemma_lex_equal(a: Seq<char>, b: Seq<char>)
    ensures
        (lex_order(a, b) == Ordering::Equal) <==> (a == b),
    decreases a.len(),
{
    if a.len() == 0 || b.len() == 0 {
        if a.len() == 0 && b.len() == 0 {
            assert(a =~= b);
        }
    } else if a[0] == b[0] {
        lemma_lex_equal(a.drop_first(), b.drop_first());
        if a.drop_first() == b.drop_first() {
            assert(a =~= seq![a[0]] + a.drop_first());
            assert(b =~= seq![b[0]] + b.drop_first());
        }
        if a == b {
            assert(a.drop_first() == b.drop_first());
        }
    } else {
        assert(a != b);
    }
}

/// Comparing the other way round gives the reverse ordering.
pub proof fn lemma_lex_flip(a: Seq<char>, b: Seq<char>)
    ensures
        lex_order(b, a) == flip(lex_order(a, b)),
    decreases a.len(),
{
    if a.len() > 0 && b.len() > 0 && a[0] == b[0] {
        lemma_lex_flip(a.drop_first(), b.drop_first());
    }
}

/// The order is transitive.
pub proof fn lemma_lex_transitive(a: Seq<char>, b: Seq<char>, c: Seq<char>, o: Ordering)
    requires
        o != Ordering::Equal,
        lex_order(a, b) == o,
        lex_order(b, c) == o,
    ensures
        lex_order(a, c) == o,
    decreases a.len(),
{
    if a.len() > 0 && b.len() > 0 && c.len() > 0 && a[0] == b[0] && b[0] == c[0] {
        lemma_lex_transitive(a.drop_first(), b.drop_first(), c.drop_first(), o);
    }
}

/// Chaining comparisons: less then at most equal is less, and at most equal
/// twice is at most equal.
pub proof fn lemma_lex_chain(a: Seq<char>, b: Seq<char>, c: Seq<char>)
    ensures
        lex_order(a, b) == Ordering::Less && lex_order(b, c) != Ordering::Greater ==> lex_order(a, c)
            == Ordering::Less,
        lex_order(a, b) != Ordering::Greater && lex_order(b, c) == Ordering::Less ==> lex_order(a, c)
            == Ordering::Less,
        lex_order(a, b) != Ordering::Greater && lex_order(b, c) != Ordering::Greater ==> lex_order(
            a,
            c,
        ) != Ordering::Greater,
{
    lemma_lex_equal(a, b);
    lemma_lex_equal(b, c);
    lemma_lex_equal(a, c);
    if lex_order(a, b) == Ordering::Less && lex_order(b, c) == Ordering::Less {
        lemma_lex_transitive(a, b, c, Ordering::Less);
    }
}

/// Compares two texts.
pub fn compare_str(a: &str, b: &str) -> (r: Ordering)
    ensures
        r == lex_order(a@, b@),
{
    let x = to_chars(a);
    let y = to_chars(b);
    let mut i: usize = 0;
    assert(x@.skip(0) == x@);
    assert(y@.skip(0) == y@);
    while i < x.len() && i < y.len() && x[i] == y[i]
        invariant
            i <= x.len(),
            i <= y.len(),
            x@ == a@,
            y@ == b@,
            lex_order(a@, b@) == lex_order(x@.skip(at(i)), y@.skip(at(i))),
        decreases x.len() - i,
    {
        assert(x@.skip(at(i)).drop_first() == x@.skip(at(i) + 1));
        assert(y@.skip(at(i)).drop_first() == y@.skip(at(i) + 1));
        i = i + 1;
    }
    if i == x.len() && i == y.len() {
        Ordering::Equal
    } else if i == x.len() {
        Ordering::Less
    } else if i == y.len() {
        Ordering::Greater
    } else if x[i] < y[i] {
        Ordering::Less
    } else {
        Ordering::Greater
    }
}

/// The order in which a table lists its rows: a total order, up to rows
/// that compare equal.
pub trait Compare {
    /// The ordering that `cmp` returns.
    spec fn order(&self, right: &Self) -> Ordering;

    fn cmp(&self, right: &Self) -> (r: Ordering)
        ensures
            r == self.order(right),
    ;

    /// Comparing the other way round gives the reverse ordering.
    proof fn lemma_flip(&self, right: &Self)
        ensures
            right.order(self) == flip(self.order(right)),
    ;

    /// Comparisons chain: less then at most equal is less, at most equal
    /// then less is less, and at most equal twice is at most equal.
    proof fn lemma_chain(&self, b: &Self, c: &Self)
        ensures
            self.order(b) == Ordering::Less && b.order(c) != Ordering::Greater ==> self.order(c)
                == Ordering::Less,
            self.order(b) != Ordering::Greater && b.order(c) == Ordering::Less ==> self.order(c)
                == Ordering::Less,
            self.order(b) != Ordering::Greater && b.order(c) != Ordering::Greater ==> self.order(c)
                != Ordering::Greater,
    ;
}

impl Compare for Tunnel {
    /// Tunnels are listed by address.
    open spec fn order(&self, right: &Self) -> Ordering {
        lex_order(self.address(), right.address())
    }

    fn cmp(&self, right: &Self) -> (r: Ordering) {
        let a = self.addr();
        let b = right.addr();
        compare_str(a.as_str(), b.as_str())
    }

    proof fn lemma_flip(&self, right: &Self) {
        lemma_lex_flip(self.address(), right.address());
    }

    proof fn lemma_chain(&self, b: &Self, c: &Self) {
        lemma_lex_chain(self.address(), b.address(), c.address());
    }
}


pub open spec fn text_or_empty(o: Option<String>) -> Seq<char> {
    match o {
        Some(s) => s@,
        None => Seq::empty(),
    }
}

fn text_or_default(o: &Option<String>) -> (s: String)
    ensures
        s@ == text_or_empty(*o),
{
    match o {
        Some(s) => s.clone(),
        None => String::new(),
    }
}

impl Compare for Node {
    /// Nodes are listed by namespace, then by name.
    open spec fn order(&self, right: &Self) -> Ordering {
        let by_namespace = lex_order(text_or_empty(self.namespace), text_or_empty(right.namespace));
        if by_namespace != Ordering::Equal {
            by_namespace
        } else {
            lex_order(self.name@, right.name@)
        }
    }

    fn cmp(&self, right: &Self) -> (r: Ordering) {
        let a = text_or_default(&self.namespace);
        let b = text_or_default(&right.namespace);
        let by_namespace = compare_str(a.as_str(), b.as_str());
        match by_namespace {
            Ordering::Equal => compare_str(self.name.as_str(), right.name.as_str()),
            _ => by_namespace,
        }
    }

    proof fn lemma_flip(&self, right: &Self) {
        lemma_lex_flip(text_or_empty(self.namespace), text_or_empty(right.namespace));
        lemma_lex_flip(self.name@, right.name@);
    }

    proof fn lemma_chain(&self, b: &Self, c: &Self) {
        let (na, nb, nc) = (text_or_empty(self.namespace), text_or_empty(b.namespace), text_or_empty(c.namespace));
        lemma_lex_chain(na, nb, nc);
        lemma_lex_chain(self.name@, b.name@, c.name@);
        lemma_lex_equal(na, nb);
        lemma_lex_equal(nb, nc);
        lemma_lex_equal(na, nc);
    }
}

impl Compare for Container {
    /// Containers are listed by name.
    open spec fn order(&self, right: &Self) -> Ordering {
        lex_order(self.spec.name@, right.spec.name@)
    }

    fn cmp(&self, right: &Self) -> (r: Ordering) {
        compare_str(self.spec.name.as_str(), right.spec.name.as_str())
    }

    proof fn lemma_flip(&self, right: &Self) {
        lemma_lex_flip(self.spec.name@, right.spec.name@);
    }

    proof fn lemma_chain(&self, b: &Self, c: &Self) {
        lemma_lex_chain(self.spec.name@, b.spec.name@, c.spec.name@);
    }
}

/// Law: two tunnels compare equal exactly when they have the same host and
/// the same port, so equal tunnels compare equal; the kind and the lifecycle
/// play no part.
pub proof fn law_tunnel_order_equal(a: Tunnel, b: Tunnel)
    ensures
        (a.order(&b) == Ordering::Equal) <==> (a.host_text() == b.host_text() && a.port_number()
            == b.port_number()),
        crate::tunnel::same_tunnel(a, b) ==> a.order(&b) == Ordering::Equal,
{
    lemma_lex_equal(a.address(), b.address());
    crate::tunnel::law_address_identifies_endpoint(
        a.host_text(),
        a.port_number(),
        b.host_text(),
        b.port_number(),
    );
}

/// Law: the order of tunnels is a total order: reversing the operands
/// reverses the result, and it is transitive.
pub proof fn law_tunnel_order_total(a: Tunnel, b: Tunnel, c: Tunnel)
    ensures
        b.order(&a) == flip(a.order(&b)),
        a.order(&b) == Ordering::Less && b.order(&c) == Ordering::Less ==> a.order(&c)
            == Ordering::Less,
        a.order(&b) == Ordering::Greater && b.order(&c) == Ordering::Greater ==> a.order(&c)
            == Ordering::Greater,
{
    lemma_lex_flip(a.address(), b.address());
    if a.order(&b) == Ordering::Less && b.order(&c) == Ordering::Less {
        lemma_lex_transitive(a.address(), b.address(), c.address(), Ordering::Less);
    }
    if a.order(&b) == Ordering::Greater && b.order(&c) == Ordering::Greater {
        lemma_lex_transitive(a.address(), b.address(), c.address(), Ordering::Greater);
    }
}

} // verus!
