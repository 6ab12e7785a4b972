use vstd::prelude::*;

verus! {

/// A socket address as plain values: an IPv4 address with its port, or an
/// IPv6 address with its port, flow label and scope.
#[derive(Clone, Copy, Debug, PartialEq, Eq, Structural)]
pub enum SocketAddress {
    V4 { ip: u32, port: u16 },
    V6 { ip6: u128, port: u16, flowinfo: u32, scope_id: u32 },
}

/// What a probing socket is bound to: a local address, or a device by name.
#[derive(Clone, Debug)]
pub enum Interface {
    Addr(SocketAddress),
    Name(String),
}

/// Kind of ICMP socket: unprivileged datagram, or raw.
#[derive(Clone, Copy, Debug, PartialEq, Eq, Structural)]
pub enum SockType {
    Dgram,
    Raw,
}

/// The network setup that decides whether two targets can share a client.
#[derive(Clone, Debug)]
pub struct ClientKey {
    pub iface: Option<Interface>,
    pub netns: Option<String>,
    pub ttl: Option<u32>,
    pub sock_type: SockType,
    pub v6: bool,
}

/// An interface as a value: the address it binds to, or else the device name.
pub open spec fn iface_view(i: Option<Interface>) -> Option<(Option<SocketAddress>, Seq<char>)> {
    match i {
        Some(Interface::Addr(a)) => Some((Some(a), seq![])),
        Some(Interface::Name(n)) => Some((None, n@)),
        None => None,
    }
}

pub open spec fn text_view(s: Option<String>) -> Option<Seq<char>> {
    match s {
        Some(t) => Some(t@),
        None => None,
    }
}

pub type KeyView = (
    Option<(Option<SocketAddress>, Seq<char>)>,
    Option<Seq<char>>,
    Option<u32>,
    SockType,
    bool,
);

impl View for ClientKey {
    type V = KeyView;

    open spec fn view(&self) -> KeyView {
        (iface_view(self.iface), text_view(self.netns), self.ttl, self.sock_type, self.v6)
    }
}

fn same_text(a: &Option<String>, b: &Option<String>) -> (r: bool)
    ensures
        r == (text_view(*a) == text_view(*b)),
{
    match (a, b) {
        (Some(x), Some(y)) => *x == *y,
        (None, None) => true,
        _ => false,
    }
}

fn same_iface(a: &Option<Interface>, b: &Option<Interface>) -> (r: bool)
    ensures
        r == (iface_view(*a) == iface_view(*b)),
{
    match (a, b) {
        (Some(Interface::Addr(x)), Some(Interface::Addr(y))) => *x == *y,
        (Some(Interface::Name(x)), Some(Interface::Name(y))) => *x == *y,
        (None, None) => true,
        _ => false,
    }
}

impl ClientKey {
    /// Structural equality of two keys.
    pub fn same(&self, other: &ClientKey) -> (r: bool)
        ensures
            r == (self@ == other@),
    {
        same_iface(&self.iface, &other.iface) && same_text(&self.netns, &other.netns)
            && self.ttl == other.ttl && self.sock_type == other.sock_type && self.v6 == other.v6
    }

    /// Whether making a client for this key has to switch network namespace.
    pub fn needs_namespace(&self) -> (r: bool)
        ensures
            r == (self.netns is Some),
    {
        self.netns.is_some()
    }
}

/// The pool after a key is asked for, the slot of its client, and whether
/// that client has to be made: a key seen before gets the slot it has, a new
/// key the next free one.
pub open spec fn acquired(p: Seq<KeyView>, k: KeyView) -> (Seq<KeyView>, int, bool) {
    if p.contains(k) {
        (p, choose|i: int| 0 <= i < p.len() && p[i] == k, false)
    } else {
        (p.push(k), p.len() as int, true)
    }
}

/// The pool after keys are asked for in order.
pub open spec fn acquire_all(p: Seq<KeyView>, ks: Seq<KeyView>) -> Seq<KeyView>
    decreases ks.len(),
{
    if ks.len() == 0 {
        p
    } else {
        acquired(acquire_all(p, ks.drop_last()), ks.last()).0
    }
}

/// The keys of the clients made so far, in the order they were made: slot
/// `i` holds the client of `keys[i]`. Each key has one slot.
pub struct ClientPool {
    keys: Vec<ClientKey>,
}

impl View for ClientPool {
    type V = Seq<KeyView>;

    closed spec fn view(&self) -> Seq<KeyView> {
        self.keys@.map_values(|k: ClientKey| k@)
    }
}

impl ClientPool {
    pub open spec fn well_formed(&self) -> bool {
        self@.no_duplicates()
    }

    /// A pool with no client.
    pub fn new() -> (r: ClientPool)
        ensures
            r@ == Seq::<KeyView>::empty(),
            r.well_formed(),
    {
        let r = ClientPool { keys: Vec::new() };
        assert(r@ =~= Seq::<KeyView>::empty());
        r
    }

    /// Number of clients made.
    pub fn len(&self) -> (r: usize)
        ensures
            r == self@.len(),
    {
        self.keys.len()
    }

    /// The key of the client in slot `i`.
    pub fn key(&self, i: usize) -> (r: &ClientKey)
        requires
            i < self@.len(),
        ensures
            r@ == self@[i as int],
    {
        &self.keys[i]
    }

    /// Looks a key up: the slot of the client made for an equal key, or a new
    /// slot at the end, which the caller fills by making the client. The flag
    /// says whether the slot is new.
    pub fn acquire(&mut self, key: ClientKey) -> (r: (usize, bool))
        requires
            old(self).well_formed(),
        ensures
            (final(self)@, r.0 as int, r.1) == acquired(old(self)@, key@),
            final(self).well_formed(),
            r.0 < final(self)@.len(),
            final(self)@[r.0 as int] == key@,
    {
        let mut i: usize = 0;
        while i < self.keys.len()
            invariant
                i <= self@.len(),
                self@ == old(self)@,
                self.well_formed(),
                forall|j: int| 0 <= j < i ==> self@[j] != key@,
            decreases self@.len() - i,
        {
            if self.keys[i].same(&key) {
                proof {
                    assert(self@[i as int] == self.keys@[i as int]@);
                    assert(self@[i as int] == key@);
                    assert(self@.contains(key@));
                    let c = choose|c: int| 0 <= c < self@.len() && self@[c] == key@;
                    assert(self@[c] == self@[i as int]);
                    assert(c == i);
                }
                return (i, false);
            }
            i = i + 1;
        }
        assert(!self@.contains(key@));
        let n = self.keys.len();
        self.keys.push(key);
        assert(self@ =~= old(self)@.push(key@));
        (n, true)
    }
}

/// Targets with equal keys share one client: once a key has been asked for,
/// asking again for an equal key returns the same slot and makes nothing.
pub proof fn lemma_equal_keys_share(p: Seq<KeyView>, k1: KeyView, k2: KeyView)
    requires
        p.no_duplicates(),
        k1 == k2,
    ensures
        acquired(acquired(p, k1).0, k2) == (acquired(p, k1).0, acquired(p, k1).1, false),
{
    let (p1, i1, c1) = acquired(p, k1);
    assert(p1[i1] == k1);
    assert(p1.contains(k2));
    if c1 {
        assert(p1 == p.push(k1));
        assert(p1.no_duplicates()) by {
            assert forall|a: int, b: int| 0 <= a < p1.len() && 0 <= b < p1.len() && a != b implies p1[a]
                != p1[b] by {
                if a < p.len() && b < p.len() {
                } else if a < p.len() {
                    assert(p.contains(p1[a]));
                } else {
                    assert(p.contains(p1[b]));
                }
            }
        }
    }
}

/// However many targets start, one client is made per distinct key: the
/// pool holds each key asked for once, and nothing else.
pub proof fn lemma_one_client_per_key(ks: Seq<KeyView>)
    ensures
        acquire_all(seq![], ks).no_duplicates(),
        acquire_all(seq![], ks).to_set() == ks.to_set(),
        acquire_all(seq![], ks).len() == ks.to_set().len(),
    decreases ks.len(),
{
    let p = acquire_all(seq![], ks);
    if ks.len() > 0 {
        let q = acquire_all(seq![], ks.drop_last());
        lemma_one_client_per_key(ks.drop_last());
        let k = ks.last();
        assert(ks == ks.drop_last() + seq![k]);
        Seq::lemma_to_set_insert_commutes(ks.drop_last(), k);
        if q.contains(k) {
            assert(q.to_set().contains(k));
            assert(ks.to_set() =~= q.to_set());
        } else {
            assert(p == q.push(k));
            assert(q.push(k) == q + seq![k]);
            Seq::lemma_to_set_insert_commutes(q, k);
            assert(p.no_duplicates()) by {
                assert forall|a: int, b: int|
                    0 <= a < p.len() && 0 <= b < p.len() && a != b implies p[a] != p[b] by {
                    if a < q.len() && b < q.len() {
                    } else if a < q.len() {
                        assert(q.contains(p[a]));
                    } else {
                        assert(q.contains(p[b]));
                    }
                }
            }
        }
    } else {
        assert(p.to_set() =~= ks.to_set());
    }
    p.unique_seq_to_set();
}

} // verus!
