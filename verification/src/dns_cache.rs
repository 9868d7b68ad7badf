use vstd::hash_map::StringHashMap;
use vstd::prelude::*;

use crate::address::SocketAddress;

verus! {

/// The outcome of the resolution of each host name asked about so far:
/// the first address found, or `None` when nothing was found.
pub struct DnsStore {
    store: StringHashMap<Option<SocketAddress>>,
}

impl View for DnsStore {
    type V = Map<Seq<char>, Option<SocketAddress>>;

    closed spec fn view(&self) -> Map<Seq<char>, Option<SocketAddress>> {
        self.store@
    }
}

/// Records `resolved` for `hostname` unless an outcome is already recorded;
/// gives the store after that and the outcome that now stands for the name.
pub open spec fn record_outcome(
    store: Map<Seq<char>, Option<SocketAddress>>,
    hostname: Seq<char>,
    resolved: Option<SocketAddress>,
) -> (Map<Seq<char>, Option<SocketAddress>>, Option<SocketAddress>) {
    if store.dom().contains(hostname) {
        (store, store[hostname])
    } else {
        (store.insert(hostname, resolved), resolved)
    }
}

/// What to do with a request to resolve a name.
#[derive(Clone, Copy, Debug, PartialEq, Eq)]
pub enum DnsDecision {
    /// Answer with the outcome recorded for the name.
    Answer(Option<SocketAddress>),
    /// Look the name up, then record the outcome with [`DnsStore::record`].
    Lookup,
}

/// The decision for a request to resolve `hostname`: the recorded outcome
/// when there is one, a lookup otherwise.
pub open spec fn decide(store: Map<Seq<char>, Option<SocketAddress>>, hostname: Seq<char>) -> DnsDecision {
    if store.dom().contains(hostname) {
        DnsDecision::Answer(store[hostname])
    } else {
        DnsDecision::Lookup
    }
}

impl DnsStore {
    /// An empty store.
    pub fn new() -> (s: DnsStore)
        ensures
            s@ == Map::<Seq<char>, Option<SocketAddress>>::empty(),
    {
        DnsStore { store: StringHashMap::new() }
    }

    /// The recorded outcome for `hostname`, or `None` when the name has not
    /// been resolved yet and must be looked up.
    pub fn cached(&self, hostname: &str) -> (r: Option<Option<SocketAddress>>)
        ensures
            r == (if self@.dom().contains(hostname@) {
                Some(self@[hostname@])
            } else {
                None
            }),
    {
        match self.store.get(hostname) {
            Some(v) => Some(*v),
            None => None,
        }
    }

    /// Decides a request to resolve `hostname`: answer from the store, or
    /// look the name up.
    pub fn decide(&self, hostname: &str) -> (d: DnsDecision)
        ensures
            d == decide(self@, hostname@),
    {
        match self.store.get(hostname) {
            Some(v) => DnsDecision::Answer(*v),
            None => DnsDecision::Lookup,
        }
    }

    /// Records the outcome of a lookup of `hostname`, keeping an outcome
    /// recorded before, and returns the outcome that stands for the name.
    pub fn record(&mut self, hostname: String, resolved: Option<SocketAddress>) -> (r: Option<SocketAddress>)
        ensures
            final(self)@ == record_outcome(old(self)@, hostname@, resolved).0,
            r == record_outcome(old(self)@, hostname@, resolved).1,
    {
        match self.store.get(hostname.as_str()) {
            Some(v) => *v,
            None => {
                self.store.insert(hostname, resolved);
                resolved
            },
        }
    }
}

/// What is recorded for a name is what is then found for it, and a later
/// outcome for the same name changes neither the store nor the answer.
pub proof fn lemma_record_is_stable(
    store: Map<Seq<char>, Option<SocketAddress>>,
    hostname: Seq<char>,
    first: Option<SocketAddress>,
    later: Option<SocketAddress>,
)
    ensures
        ({
            let (s1, r1) = record_outcome(store, hostname, first);
            &&& s1.dom().contains(hostname)
            &&& s1[hostname] == r1
            &&& record_outcome(s1, hostname, later) == (s1, r1)
        }),
{
}

/// Recording a name leaves the outcomes of all other names as they were.
pub proof fn lemma_record_keeps_others(
    store: Map<Seq<char>, Option<SocketAddress>>,
    hostname: Seq<char>,
    resolved: Option<SocketAddress>,
    other: Seq<char>,
)
    requires
        other != hostname,
    ensures
        record_outcome(store, hostname, resolved).0.dom().contains(other) == store.dom().contains(other),
        store.dom().contains(other) ==> record_outcome(store, hostname, resolved).0[other] == store[other],
{
}

/// Serving requests for `names` in order, where a lookup made for the i-th
/// request would find `found[i]`: the store after them, the answer to each
/// request, and for each request whether it needed a lookup.
pub open spec fn serve_requests(
    store: Map<Seq<char>, Option<SocketAddress>>,
    names: Seq<Seq<char>>,
    found: Seq<Option<SocketAddress>>,
) -> (Map<Seq<char>, Option<SocketAddress>>, Seq<Option<SocketAddress>>, Seq<bool>)
    decreases names.len(),
{
    if names.len() == 0 {
        (store, Seq::empty(), Seq::empty())
    } else {
        let looked_up = decide(store, names[0]) is Lookup;
        let first = record_outcome(store, names[0], found[0]);
        let rest = serve_requests(first.0, names.drop_first(), found.drop_first());
        (rest.0, seq![first.1] + rest.1, seq![looked_up] + rest.2)
    }
}

/// Each name is looked up once, on its first request, and only when the
/// store had no outcome for it; every request for a name gets the same
/// answer, the outcome the store ends up holding for it; outcomes held
/// before are kept.
pub proof fn lemma_lookup_once(
    store: Map<Seq<char>, Option<SocketAddress>>,
    names: Seq<Seq<char>>,
    found: Seq<Option<SocketAddress>>,
)
    requires
        found.len() == names.len(),
    ensures
        ({
            let r = serve_requests(store, names, found);
            &&& r.1.len() == names.len()
            &&& r.2.len() == names.len()
            &&& forall|i: int| 0 <= i < names.len() ==> #[trigger] r.2[i] == !(store.dom().contains(names[i])
                || names.subrange(0, i).contains(names[i]))
            &&& forall|i: int| 0 <= i < names.len() ==> #[trigger] r.0.dom().contains(names[i])
            &&& forall|i: int| 0 <= i < names.len() ==> r.0[names[i]] == #[trigger] r.1[i]
            &&& forall|k: Seq<char>| #[trigger] store.dom().contains(k) ==> r.0.dom().contains(k) && r.0[k] == store[k]
        }),
    decreases names.len(),
{
    if names.len() > 0 {
        let first = record_outcome(store, names[0], found[0]);
        let s1 = first.0;
        lemma_lookup_once(s1, names.drop_first(), found.drop_first());
        let r = serve_requests(store, names, found);
        let rest = serve_requests(s1, names.drop_first(), found.drop_first());
        assert forall|i: int| 0 <= i < names.len() implies #[trigger] r.2[i] == !(store.dom().contains(names[i])
            || names.subrange(0, i).contains(names[i])) by {
            if i > 0 {
                let t = names.drop_first();
                assert(t[i - 1] == names[i]);
                assert(r.2[i] == rest.2[i - 1]);
                assert forall|x: Seq<char>| #[trigger] names.subrange(0, i).contains(x) == (x == names[0]
                    || t.subrange(0, i - 1).contains(x)) by {
                    if names.subrange(0, i).contains(x) && x != names[0] {
                        let u = names.subrange(0, i);
                        let j = choose|j: int| 0 <= j < u.len() && u[j] == x;
                        assert(t.subrange(0, i - 1)[j - 1] == x);
                    }
                    if t.subrange(0, i - 1).contains(x) {
                        let u = t.subrange(0, i - 1);
                        let j = choose|j: int| 0 <= j < u.len() && u[j] == x;
                        assert(names.subrange(0, i)[j + 1] == x);
                    }
                    if x == names[0] {
                        assert(names.subrange(0, i)[0] == x);
                    }
                }
            } else {
                assert(names.subrange(0, 0) =~= Seq::<Seq<char>>::empty());
            }
        }
        assert forall|i: int| #![trigger names[i]] #![trigger r.1[i]] 0 <= i < names.len() implies r.0.dom().contains(names[i])
            && r.0[names[i]] == r.1[i] by {
            if i > 0 {
                assert(names.drop_first()[i - 1] == names[i]);
                assert(r.1[i] == rest.1[i - 1]);
            } else {
                assert(s1.dom().contains(names[0]));
                assert(s1[names[0]] == r.1[0]);
            }
        }
        assert forall|k: Seq<char>| #[trigger] store.dom().contains(k) implies r.0.dom().contains(k) && r.0[k]
            == store[k] by {
            assert(s1.dom().contains(k));
            assert(s1[k] == store[k]);
        }
    }
}

/// A name with a recorded outcome is answered with exactly that outcome; a
/// name without one is looked up; and once an outcome is recorded for a name,
/// the next request for it is answered with the outcome that was returned.
pub proof fn lemma_decide(
    store: Map<Seq<char>, Option<SocketAddress>>,
    hostname: Seq<char>,
    resolved: Option<SocketAddress>,
)
    ensures
        store.dom().contains(hostname) ==> decide(store, hostname) == DnsDecision::Answer(store[hostname]),
        !store.dom().contains(hostname) ==> decide(store, hostname) == DnsDecision::Lookup,
        decide(record_outcome(store, hostname, resolved).0, hostname) == DnsDecision::Answer(
            record_outcome(store, hostname, resolved).1,
        ),
        !store.dom().contains(hostname) ==> record_outcome(store, hostname, resolved).1 == resolved,
{
}

} // verus!
