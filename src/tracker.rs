//! The connection tracker: the index between connection identifiers, avatar
//! handles and display names.
use vstd::prelude::*;

verus! {

/// Handle of an avatar in the server's world.
#[derive(Clone, Copy, Debug, PartialEq, Eq, Structural)]
pub struct AvatarHandle(pub u64);

/// One tracked connection: its identifier, its avatar and its display name.
pub struct TrackedConnection {
    pub conn_id: u64,
    pub avatar: AvatarHandle,
    pub display_name: String,
}

/// What the tracker knows of a connection: its avatar and its display name.
pub type TrackedView = (AvatarHandle, Seq<char>);

/// Registry of the connections that completed their handshake.
///
/// The three lookups (identifier to avatar, identifier to name, name to
/// identifier) are all answered from one list of triples, so they can never
/// disagree.
pub struct ConnectionTracker {
    entries: Vec<TrackedConnection>,
    model: Ghost<Map<u64, TrackedView>>,
}

/// No two tracked identifiers share a display name.
pub open spec fn names_unique(m: Map<u64, TrackedView>) -> bool {
    forall|a: u64, b: u64|
        #![trigger m[a], m[b]]
        m.contains_key(a) && m.contains_key(b) && a != b ==> m[a].1 != m[b].1
}

/// Whether some tracked identifier carries `name`.
pub open spec fn name_in_use(m: Map<u64, TrackedView>, name: Seq<char>) -> bool {
    exists|id: u64| #[trigger] m.contains_key(id) && m[id].1 == name
}

impl View for ConnectionTracker {
    type V = Map<u64, TrackedView>;

    closed spec fn view(&self) -> Map<u64, TrackedView> {
        self.model@
    }
}

impl ConnectionTracker {
    pub closed spec fn entry_view(&self, i: int) -> TrackedView {
        (self.entries@[i].avatar, self.entries@[i].display_name@)
    }

    /// The tracker's internal consistency: the list of triples and the map
    /// describe the same connections, and names are unique.
    pub closed spec fn wf(&self) -> bool {
        &&& self.model@.dom().finite()
        &&& self.model@.len() == self.entries@.len()
        &&& forall|i: int, j: int|
            #![trigger self.entries@[i].conn_id, self.entries@[j].conn_id]
            0 <= i < self.entries@.len() && 0 <= j < self.entries@.len() && i != j
                ==> self.entries@[i].conn_id != self.entries@[j].conn_id
        &&& forall|i: int|
            #![trigger self.entries@[i]]
            0 <= i < self.entries@.len() ==> self.model@.contains_key(self.entries@[i].conn_id)
                && self.model@[self.entries@[i].conn_id] == self.entry_view(i)
        &&& forall|id: u64|
            #[trigger] self.model@.contains_key(id) ==> exists|i: int|
                0 <= i < self.entries@.len() && #[trigger] self.entries@[i].conn_id == id
        &&& names_unique(self.model@)
    }

    /// Lets a caller use the uniqueness of names.
    pub proof fn lemma_wf_names_unique(&self)
        requires
            self.wf(),
        ensures
            names_unique(self@),
            self@.dom().finite(),
    {
    }

    /// An empty tracker.
    pub fn new() -> (r: ConnectionTracker)
        ensures
            r.wf(),
            r@ == Map::<u64, TrackedView>::empty(),
    {
        ConnectionTracker { entries: Vec::new(), model: Ghost(Map::empty()) }
    }

    /// Position of `conn_id` in the list, if it is tracked.
    fn find_id(&self, conn_id: u64) -> (r: Option<usize>)
        requires
            self.wf(),
        ensures
            match r {
                Some(i) => i < self.entries@.len() && self.entries@[i as int].conn_id == conn_id,
                None => !self@.contains_key(conn_id),
            },
    {
        let mut i: usize = 0;
        while i < self.entries.len()
            invariant
                self.wf(),
                i <= self.entries@.len(),
                forall|k: int| 0 <= k < i ==> #[trigger] self.entries@[k].conn_id != conn_id,
            decreases self.entries@.len() - i,
        {
            if self.entries[i].conn_id == conn_id {
                return Some(i);
            }
            i = i + 1;
        }
        None
    }

    /// Registers a new connection with its avatar and display name.
    ///
    /// The handshake accepts a connection only when it is not tracked yet and
    /// its name is free; the tracker relies on that order.
    pub fn track_connection(&mut self, conn_id: u64, avatar: AvatarHandle, display_name: String)
        requires
            old(self).wf(),
            !old(self)@.contains_key(conn_id),
            !name_in_use(old(self)@, display_name@),
        ensures
            final(self).wf(),
            final(self)@ == old(self)@.insert(conn_id, (avatar, display_name@)),
    {
        let ghost name = display_name@;
        let ghost old_entries = self.entries@;
        let ghost m = self.model@;
        self.entries.push(TrackedConnection { conn_id, avatar, display_name });
        self.model = Ghost(m.insert(conn_id, (avatar, name)));
        proof {
            let n = old_entries.len() as int;
            assert(self.entries@[n].conn_id == conn_id);
            assert forall|i: int|
                #![trigger self.entries@[i]]
                0 <= i < self.entries@.len() implies self.model@.contains_key(
                    self.entries@[i].conn_id,
                ) && self.model@[self.entries@[i].conn_id] == self.entry_view(i) by {
                if i < n {
                    assert(self.entries@[i] == old_entries[i]);
                    assert(m.contains_key(old_entries[i].conn_id));
                }
            }
            assert forall|id: u64| #[trigger] self.model@.contains_key(id) implies exists|i: int|
                0 <= i < self.entries@.len() && #[trigger] self.entries@[i].conn_id == id by {
                if id != conn_id {
                    assert(m.contains_key(id));
                    let i = choose|i: int|
                        0 <= i < old_entries.len() && #[trigger] old_entries[i].conn_id == id;
                    assert(self.entries@[i] == old_entries[i]);
                }
            }
            assert forall|a: u64, b: u64|
                #![trigger self.model@[a], self.model@[b]]
                self.model@.contains_key(a) && self.model@.contains_key(b) && a != b
                    implies self.model@[a].1 != self.model@[b].1 by {
                if a == conn_id {
                    assert(m.contains_key(b));
                } else if b == conn_id {
                    assert(m.contains_key(a));
                } else {
                    assert(m[a] == self.model@[a]);
                    assert(m[b] == self.model@[b]);
                }
            }
        }
    }

    /// Forgets a connection: its avatar, its name, and its name's entry go
    /// together. Returns what was tracked, or `None` for an identifier that
    /// was never tracked (a disconnect before the handshake completed).
    pub fn drop_connection(&mut self, conn_id: u64) -> (r: Option<(AvatarHandle, String)>)
        requires
            old(self).wf(),
        ensures
            final(self).wf(),
            match r {
                Some((avatar, name)) => old(self)@.contains_key(conn_id)
                    && old(self)@[conn_id] == (avatar, name@)
                    && final(self)@ == old(self)@.remove(conn_id),
                None => !old(self)@.contains_key(conn_id) && final(self)@ == old(self)@,
            },
    {
        match self.find_id(conn_id) {
            None => None,
            Some(i) => {
                let ghost old_entries = self.entries@;
                let ghost m = self.model@;
                let removed = self.entries.remove(i);
                self.model = Ghost(m.remove(conn_id));
                proof {
                    assert(m[conn_id] == (removed.avatar, removed.display_name@));
                    assert forall|k: int|
                        #![trigger self.entries@[k]]
                        0 <= k < self.entries@.len() implies self.model@.contains_key(
                            self.entries@[k].conn_id,
                        ) && self.model@[self.entries@[k].conn_id] == self.entry_view(k) by {
                        if k < i {
                            assert(self.entries@[k] == old_entries[k]);
                            assert(old_entries[k].conn_id != old_entries[i as int].conn_id);
                        } else {
                            assert(self.entries@[k] == old_entries[k + 1]);
                            assert(old_entries[k + 1].conn_id != old_entries[i as int].conn_id);
                        }
                    }
                    assert forall|id: u64| #[trigger] self.model@.contains_key(id) implies exists|
                        k: int,
                    | 0 <= k < self.entries@.len() && #[trigger] self.entries@[k].conn_id == id by {
                        assert(m.contains_key(id));
                        let j = choose|j: int|
                            0 <= j < old_entries.len() && #[trigger] old_entries[j].conn_id == id;
                        if j < i {
                            assert(self.entries@[j] == old_entries[j]);
                        } else {
                            assert(j != i);
                            assert(self.entries@[j - 1] == old_entries[j]);
                        }
                    }
                    assert forall|a: int, b: int|
                        #![trigger self.entries@[a].conn_id, self.entries@[b].conn_id]
                        0 <= a < self.entries@.len() && 0 <= b < self.entries@.len() && a != b
                            implies self.entries@[a].conn_id != self.entries@[b].conn_id by {
                        let oa = if a < i { a } else { a + 1 };
                        let ob = if b < i { b } else { b + 1 };
                        assert(self.entries@[a] == old_entries[oa]);
                        assert(self.entries@[b] == old_entries[ob]);
                    }
                    assert forall|a: u64, b: u64|
                        #![trigger self.model@[a], self.model@[b]]
                        self.model@.contains_key(a) && self.model@.contains_key(b) && a != b
                            implies self.model@[a].1 != self.model@[b].1 by {
                        assert(m[a] == self.model@[a]);
                        assert(m[b] == self.model@[b]);
                    }
                }
                Some((removed.avatar, removed.display_name))
            },
        }
    }

    /// The avatar of a tracked connection.
    pub fn get_avatar(&self, conn_id: u64) -> (r: Option<AvatarHandle>)
        requires
            self.wf(),
        ensures
            r == (if self@.contains_key(conn_id) {
                Some(self@[conn_id].0)
            } else {
                None
            }),
    {
        match self.find_id(conn_id) {
            Some(i) => Some(self.entries[i].avatar),
            None => None,
        }
    }

    /// The display name of a tracked connection.
    pub fn get_display_name(&self, conn_id: u64) -> (r: Option<&str>)
        requires
            self.wf(),
        ensures
            r.is_some() == self@.contains_key(conn_id),
            r.is_some() ==> r.unwrap()@ == self@[conn_id].1,
    {
        match self.find_id(conn_id) {
            Some(i) => Some(self.entries[i].display_name.as_str()),
            None => None,
        }
    }

    /// The connection that holds a display name, if any.
    pub fn id_from_display_name(&self, name: &str) -> (r: Option<u64>)
        requires
            self.wf(),
        ensures
            match r {
                Some(id) => self@.contains_key(id) && self@[id].1 == name@,
                None => !name_in_use(self@, name@),
            },
    {
        let mut i: usize = 0;
        while i < self.entries.len()
            invariant
                self.wf(),
                i <= self.entries@.len(),
                forall|k: int| 0 <= k < i ==> #[trigger] self.entries@[k].display_name@ != name@,
            decreases self.entries@.len() - i,
        {
            if str_eq(self.entries[i].display_name.as_str(), name) {
                return Some(self.entries[i].conn_id);
            }
            i = i + 1;
        }
        proof {
            assert forall|id: u64| #[trigger] self@.contains_key(id) implies self@[id].1 != name@ by {
                let k = choose|k: int|
                    0 <= k < self.entries@.len() && #[trigger] self.entries@[k].conn_id == id;
                assert(self.model@[self.entries@[k].conn_id] == self.entry_view(k));
            }
        }
        None
    }

    /// Number of tracked connections.
    pub fn track_count(&self) -> (r: usize)
        requires
            self.wf(),
        ensures
            r == self@.len(),
    {
        self.entries.len()
    }
}

/// Dropping a tracked connection twice: the first drop finds its entry, the
/// second finds nothing and changes nothing, and no other entry is touched.
pub proof fn lemma_drop_twice(m: Map<u64, TrackedView>, id: u64)
    requires
        m.contains_key(id),
    ensures
        !m.remove(id).contains_key(id),
        m.remove(id).remove(id) == m.remove(id),
        forall|k: u64|
            k != id ==> (#[trigger] m.remove(id).contains_key(k) == m.contains_key(k)) && (
            m.contains_key(k) ==> m.remove(id)[k] == m[k]),
{
    assert(m.remove(id).remove(id) =~= m.remove(id));
}

/// A call on the tracker, as a value: what `track_connection` and
/// `drop_connection` receive.
pub enum TrackerCall {
    Track { id: u64, avatar: AvatarHandle, name: Seq<char> },
    Drop { id: u64 },
}

/// The tracker's map after a call, as the calls' contracts state it.
pub open spec fn after_call(m: Map<u64, TrackedView>, c: TrackerCall) -> Map<u64, TrackedView> {
    match c {
        TrackerCall::Track { id, avatar, name } => m.insert(id, (avatar, name)),
        TrackerCall::Drop { id } => m.remove(id),
    }
}

/// The tracker's map after a sequence of calls.
pub open spec fn after_calls(m: Map<u64, TrackedView>, cs: Seq<TrackerCall>) -> Map<
    u64,
    TrackedView,
>
    decreases cs.len(),
{
    if cs.len() == 0 {
        m
    } else {
        after_calls(after_call(m, cs[0]), cs.subrange(1, cs.len() as int))
    }
}

/// Whether every call of `cs` meets its precondition when it is made (a
/// track only of an untracked identifier with a free name), and none drops
/// `keep`.
pub open spec fn calls_allowed(m: Map<u64, TrackedView>, cs: Seq<TrackerCall>, keep: u64) -> bool
    decreases cs.len(),
{
    if cs.len() == 0 {
        true
    } else {
        &&& match cs[0] {
            TrackerCall::Track { id, name, .. } => !m.contains_key(id) && !name_in_use(m, name),
            TrackerCall::Drop { id } => id != keep,
        }
        &&& calls_allowed(after_call(m, cs[0]), cs.subrange(1, cs.len() as int), keep)
    }
}

/// Once `id` is tracked with `avatar` and `name`, any sequence of allowed
/// calls that does not drop `id` leaves both lookups consistent: the name
/// leads to `id` and to no other identifier, and `id` still leads to its
/// avatar and its name.
pub proof fn lemma_tracked_entry_persists(
    m: Map<u64, TrackedView>,
    id: u64,
    avatar: AvatarHandle,
    name: Seq<char>,
    cs: Seq<TrackerCall>,
)
    requires
        names_unique(m),
        !m.contains_key(id),
        !name_in_use(m, name),
        calls_allowed(m.insert(id, (avatar, name)), cs, id),
    ensures
        ({
            let f = after_calls(m.insert(id, (avatar, name)), cs);
            &&& names_unique(f)
            &&& f.contains_key(id)
            &&& f[id] == (avatar, name)
            &&& name_in_use(f, name)
            &&& forall|x: u64| #[trigger] f.contains_key(x) && f[x].1 == name ==> x == id
        }),
{
    let m1 = m.insert(id, (avatar, name));
    assert forall|a: u64, b: u64|
        #![trigger m1[a], m1[b]]
        m1.contains_key(a) && m1.contains_key(b) && a != b implies m1[a].1 != m1[b].1 by {
        if a == id {
            assert(m.contains_key(b));
        } else if b == id {
            assert(m.contains_key(a));
        } else {
            assert(m[a] == m1[a] && m[b] == m1[b]);
        }
    }
    lemma_entry_survives_calls(m1, id, cs);
}

/// The induction behind `lemma_tracked_entry_persists`.
proof fn lemma_entry_survives_calls(m: Map<u64, TrackedView>, id: u64, cs: Seq<TrackerCall>)
    requires
        names_unique(m),
        m.contains_key(id),
        calls_allowed(m, cs, id),
    ensures
        ({
            let f = after_calls(m, cs);
            &&& names_unique(f)
            &&& f.contains_key(id)
            &&& f[id] == m[id]
            &&& name_in_use(f, m[id].1)
            &&& forall|x: u64| #[trigger] f.contains_key(x) && f[x].1 == m[id].1 ==> x == id
        }),
    decreases cs.len(),
{
    if cs.len() == 0 {
        assert(m.contains_key(id) && m[id].1 == m[id].1);
    } else {
        let m1 = after_call(m, cs[0]);
        match cs[0] {
            TrackerCall::Track { id: t, avatar, name } => {
                assert(t != id);
                assert(m[id].1 != name);
                assert forall|a: u64, b: u64|
                    #![trigger m1[a], m1[b]]
                    m1.contains_key(a) && m1.contains_key(b) && a != b implies m1[a].1
                    != m1[b].1 by {
                    if a == t {
                        assert(m.contains_key(b));
                    } else if b == t {
                        assert(m.contains_key(a));
                    } else {
                        assert(m[a] == m1[a] && m[b] == m1[b]);
                    }
                }
            },
            TrackerCall::Drop { id: d } => {
                assert(d != id);
                assert forall|a: u64, b: u64|
                    #![trigger m1[a], m1[b]]
                    m1.contains_key(a) && m1.contains_key(b) && a != b implies m1[a].1
                    != m1[b].1 by {
                    assert(m[a] == m1[a] && m[b] == m1[b]);
                }
            },
        }
        assert(m1.contains_key(id) && m1[id] == m[id]);
        lemma_entry_survives_calls(m1, id, cs.subrange(1, cs.len() as int));
    }
}

/// Character-wise equality of two strings.
pub fn str_eq(a: &str, b: &str) -> (r: bool)
    ensures
        r == (a@ == b@),
{
    let la = a.unicode_len();
    let lb = b.unicode_len();
    if la != lb {
        return false;
    }
    let mut i: usize = 0;
    while i < la
        invariant
            la == a@.len(),
            lb == b@.len(),
            la == lb,
            i <= la,
            forall|k: int| 0 <= k < i ==> a@[k] == b@[k],
        decreases la - i,
    {
        if a.get_char(i) != b.get_char(i) {
            return false;
        }
        i = i + 1;
    }
    assert(a@ =~= b@);
    true
}

} // verus!
