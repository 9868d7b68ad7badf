use vstd::hash_map::StringHashMap;
use vstd::prelude::*;

verus! {

/// The record kept for one client.
pub struct ClientTracker {
    client: String,
    total_traffic: u64,
}

/// The mathematical form of a [`ClientTracker`].
pub struct TrackerView {
    pub client: Seq<char>,
    pub total_traffic: u64,
}

impl View for ClientTracker {
    type V = TrackerView;

    closed spec fn view(&self) -> TrackerView {
        TrackerView { client: self.client@, total_traffic: self.total_traffic }
    }
}

impl ClientTracker {
    /// A fresh record for `client`, with no traffic counted.
    pub fn new(client: String) -> (t: ClientTracker)
        ensures
            t@ == (TrackerView { client: client@, total_traffic: 0 }),
    {
        ClientTracker { client, total_traffic: 0 }
    }

    /// The client this record is for.
    pub fn client(&self) -> (c: &str)
        ensures
            c@ == self@.client,
    {
        self.client.as_str()
    }

    /// The traffic counted for the client.
    pub fn total_traffic(&self) -> (n: u64)
        ensures
            n == self@.total_traffic,
    {
        self.total_traffic
    }

    /// A copy of this record.
    pub fn duplicate(&self) -> (t: ClientTracker)
        ensures
            t@ == self@,
    {
        ClientTracker { client: self.client.clone(), total_traffic: self.total_traffic }
    }
}

/// A request to the trackers' service.
pub enum ClientTrackersMsg {
    /// The record of this client, created when it has none.
    Get(String),
}

/// The records of all clients seen, keyed by client name, with the number of
/// records created.
pub struct ClientTrackersInner {
    num_trackers: u64,
    trackers: StringHashMap<ClientTracker>,
}

/// The mathematical form of a [`ClientTrackersInner`].
pub struct TrackersView {
    pub num_trackers: u64,
    pub trackers: Map<Seq<char>, TrackerView>,
}

impl View for ClientTrackersInner {
    type V = TrackersView;

    closed spec fn view(&self) -> TrackersView {
        TrackersView {
            num_trackers: self.num_trackers,
            trackers: self.trackers@.map_values(|t: ClientTracker| t@),
        }
    }
}

/// The trackers are consistent: the count is the number of records, and each
/// record is filed under its own client's name.
pub open spec fn trackers_wf(v: TrackersView) -> bool {
    &&& v.trackers.dom().finite()
    &&& v.num_trackers == v.trackers.len()
    &&& forall|k: Seq<char>| #[trigger] v.trackers.dom().contains(k) ==> v.trackers[k].client == k
}

/// The outcome of asking the trackers `v` for `client`'s record: the stored
/// record when there is one; otherwise a fresh record, which is stored and
/// counted.
pub open spec fn get_or_create(v: TrackersView, client: Seq<char>) -> (TrackersView, TrackerView) {
    if v.trackers.dom().contains(client) {
        (v, v.trackers[client])
    } else {
        let t = TrackerView { client, total_traffic: 0 };
        (TrackersView { num_trackers: (v.num_trackers + 1) as u64, trackers: v.trackers.insert(client, t) }, t)
    }
}

impl ClientTrackersInner {
    /// The records are consistent (see [`trackers_wf`]).
    pub closed spec fn wf(&self) -> bool {
        trackers_wf(self@)
    }

    /// No records yet.
    pub fn new() -> (r: ClientTrackersInner)
        ensures
            r.wf(),
            r@.num_trackers == 0,
            r@.trackers == Map::<Seq<char>, TrackerView>::empty(),
    {
        let r = ClientTrackersInner { num_trackers: 0, trackers: StringHashMap::new() };
        assert(r@.trackers =~= Map::<Seq<char>, TrackerView>::empty());
        r
    }

    /// The number of records created.
    pub fn num_trackers(&self) -> (n: u64)
        ensures
            n == self@.num_trackers,
    {
        self.num_trackers
    }

    /// Returns `client`'s record, creating and storing a fresh one when the
    /// client has none.
    pub fn get(&mut self, client: String) -> (t: ClientTracker)
        requires
            old(self)@.trackers.dom().contains(client@) || old(self)@.num_trackers < u64::MAX,
        ensures
            old(self).wf() ==> final(self).wf(),
            final(self)@ == get_or_create(old(self)@, client@).0,
            t@ == get_or_create(old(self)@, client@).1,
    {
        match self.trackers.get(client.as_str()) {
            Some(c) => {
                let t = c.duplicate();
                proof {
                    assert(self.trackers@.dom().contains(client@));
                }
                t
            },
            None => {
                let client_key = client.clone();
                let tracker = ClientTracker::new(client);
                let ghost old_view = self@;
                self.add_tracker(client_key, tracker.duplicate());
                proof {
                    let t = TrackerView { client: client_key@, total_traffic: 0 };
                    assert(self@.trackers =~= old_view.trackers.insert(client_key@, t));
                    assert(self@.trackers.dom() =~= old_view.trackers.dom().insert(client_key@));
                }
                tracker
            },
        }
    }

    /// Stores `tracker` under `client` and counts one more record.
    pub fn add_tracker(&mut self, client: String, tracker: ClientTracker)
        requires
            old(self)@.num_trackers < u64::MAX,
        ensures
            final(self)@.num_trackers == old(self)@.num_trackers + 1,
            final(self)@.trackers == old(self)@.trackers.insert(client@, tracker@),
    {
        self.num_trackers = self.num_trackers + 1;
        let ghost old_map = self.trackers@;
        self.trackers.insert(client, tracker);
        proof {
            assert(self@.trackers =~= old_map.map_values(|t: ClientTracker| t@).insert(client@, tracker@));
        }
    }

    /// Serves one request: a `Get` returns the client's record, created when missing.
    pub fn handle(&mut self, msg: ClientTrackersMsg) -> (t: ClientTracker)
        requires
            msg matches ClientTrackersMsg::Get(c) ==> old(self)@.trackers.dom().contains(c@)
                || old(self)@.num_trackers < u64::MAX,
        ensures
            old(self).wf() ==> final(self).wf(),
            msg matches ClientTrackersMsg::Get(c) ==> final(self)@ == get_or_create(old(self)@, c@).0
                && t@ == get_or_create(old(self)@, c@).1,
    {
        match msg {
            ClientTrackersMsg::Get(key) => self.get(key),
        }
    }
}

/// Asking twice for the same client gives the same record and changes nothing
/// the second time.
pub proof fn lemma_get_is_idempotent(v: TrackersView, client: Seq<char>)
    ensures
        get_or_create(get_or_create(v, client).0, client) == (
            get_or_create(v, client).0,
            get_or_create(v, client).1,
        ),
{
}

/// Asking for a client never changes another client's record, and the record
/// returned is always for the client asked about.
pub proof fn lemma_get_keeps_others(v: TrackersView, client: Seq<char>, other: Seq<char>)
    requires
        trackers_wf(v),
        other != client,
    ensures
        get_or_create(v, client).1.client == client,
        get_or_create(v, client).0.trackers.dom().contains(other) == v.trackers.dom().contains(other),
        v.trackers.dom().contains(other) ==> get_or_create(v, client).0.trackers[other] == v.trackers[other],
{
}

/// The count of records always equals the number of distinct clients stored:
/// asking for any client keeps the trackers consistent.
pub proof fn lemma_get_keeps_count(v: TrackersView, client: Seq<char>)
    requires
        trackers_wf(v),
        v.trackers.dom().contains(client) || v.num_trackers < u64::MAX,
    ensures
        trackers_wf(get_or_create(v, client).0),
        get_or_create(v, client).0.trackers.dom() == v.trackers.dom().insert(client),
{
    if !v.trackers.dom().contains(client) {
        let w = get_or_create(v, client).0;
        assert(w.trackers.dom() =~= v.trackers.dom().insert(client));
    } else {
        assert(v.trackers.dom().insert(client) =~= v.trackers.dom());
    }
}

/// The trackers after asking for the clients of `keys`, in order.
pub open spec fn get_all(v: TrackersView, keys: Seq<Seq<char>>) -> TrackersView
    decreases keys.len(),
{
    if keys.len() == 0 {
        v
    } else {
        get_all(get_or_create(v, keys[0]).0, keys.drop_first())
    }
}

/// Serving the requests `Get(k_1) .. Get(k_n)` in order leaves the trackers
/// consistent, with a record for exactly the clients held before and the
/// clients asked about; the count is the number of those distinct clients, and
/// records held before are kept.
pub proof fn lemma_get_all(v: TrackersView, keys: Seq<Seq<char>>)
    requires
        trackers_wf(v),
        v.num_trackers + keys.len() <= u64::MAX,
    ensures
        trackers_wf(get_all(v, keys)),
        get_all(v, keys).trackers.dom() == v.trackers.dom() + keys.to_set(),
        get_all(v, keys).num_trackers == (v.trackers.dom() + keys.to_set()).len(),
        forall|k: Seq<char>| #[trigger] v.trackers.dom().contains(k) ==> get_all(v, keys).trackers[k] == v.trackers[k],
    decreases keys.len(),
{
    if keys.len() == 0 {
        assert(keys.to_set() =~= Set::<Seq<char>>::empty());
        assert(v.trackers.dom() + keys.to_set() =~= v.trackers.dom());
    } else {
        let w = get_or_create(v, keys[0]).0;
        lemma_get_keeps_count(v, keys[0]);
        assert(w.num_trackers <= v.num_trackers + 1);
        lemma_get_all(w, keys.drop_first());
        assert forall|x: Seq<char>| #[trigger] keys.to_set().contains(x) == (x == keys[0] || keys.drop_first().to_set().contains(x)) by {
            if keys.contains(x) && x != keys[0] {
                let i = choose|i: int| 0 <= i < keys.len() && keys[i] == x;
                assert(keys.drop_first()[i - 1] == x);
            }
            if keys.drop_first().contains(x) {
                let i = choose|i: int| 0 <= i < keys.drop_first().len() && keys.drop_first()[i] == x;
                assert(keys[i + 1] == x);
            }
            if x == keys[0] {
                assert(keys[0] == x);
            }
        }
        assert(w.trackers.dom() + keys.drop_first().to_set() =~= v.trackers.dom() + keys.to_set());
        assert forall|k: Seq<char>| #[trigger] v.trackers.dom().contains(k) implies get_all(v, keys).trackers[k]
            == v.trackers[k] by {
            assert(w.trackers.dom().contains(k));
            assert(w.trackers[k] == v.trackers[k]);
        }
    }
}

/// Serving requests for `keys` from no records at all leaves a record for
/// exactly the clients asked about, counted once each.
pub proof fn lemma_get_all_from_empty(keys: Seq<Seq<char>>)
    requires
        keys.len() <= u64::MAX,
    ensures
        ({
            let w = get_all(TrackersView { num_trackers: 0, trackers: Map::empty() }, keys);
            &&& trackers_wf(w)
            &&& w.trackers.dom() == keys.to_set()
            &&& w.num_trackers == keys.to_set().len()
        }),
{
    let v = TrackersView { num_trackers: 0, trackers: Map::<Seq<char>, TrackerView>::empty() };
    assert(v.trackers.dom() =~= Set::<Seq<char>>::empty());
    lemma_get_all(v, keys);
    assert(v.trackers.dom() + keys.to_set() =~= keys.to_set());
}

/// A client asked about for the first time gets a fresh record (its own
/// name, no traffic), which is stored and counted once; a client already
/// known gets its stored record and nothing changes.
pub proof fn lemma_get_new_and_known(v: TrackersView, client: Seq<char>)
    ensures
        !v.trackers.dom().contains(client) && v.num_trackers < u64::MAX ==> {
            let (w, t) = get_or_create(v, client);
            &&& t == (TrackerView { client, total_traffic: 0 })
            &&& w.trackers.dom().contains(client)
            &&& w.trackers[client] == t
            &&& w.num_trackers == v.num_trackers + 1
        },
        v.trackers.dom().contains(client) ==> get_or_create(v, client) == (v, v.trackers[client]),
{
}

} // verus!
