//! The per-session connection registry: a concurrency-safe map from logical
//! connection ID to an open duplex stream, supporting get-or-create, lookup,
//! removal and shutdown-without-removal, plus the session-scoped counter
//! that allocates connection IDs on the server side.
//!
//! Streams themselves live with the caller; the registry identifies each by
//! a caller-chosen handle. The caller is expected to guard one registry per
//! session with a single reader/writer lock, so the operations here see the
//! map only in between complete updates.

use vstd::prelude::*;

use std::collections::HashMap;

verus! {

broadcast use vstd::std_specs::hash::group_hash_axioms;

/// What the registry keeps for one logical connection: the caller's handle
/// for the underlying duplex stream, and whether the stream has been shut
/// down (a Fin shuts an entry down but keeps it in the map).
#[derive(Clone, Copy, Debug, PartialEq, Eq, Structural)]
pub struct RegistryEntry {
    pub handle: usize,
    pub shut: bool,
}

/// Whether some entry of `m` holds `handle`.
pub open spec fn has_handle(m: Map<u16, RegistryEntry>, handle: usize) -> bool {
    exists|k: u16| #[trigger] m.contains_key(k) && m[k].handle == handle
}

/// The registry after one get-or-create for `conn_id` offering the fresh
/// `handle`: unchanged when `conn_id` is already present, extended by one
/// open entry otherwise.
pub open spec fn spec_get_or_create(
    m: Map<u16, RegistryEntry>,
    conn_id: u16,
    handle: usize,
) -> Map<u16, RegistryEntry> {
    if m.contains_key(conn_id) {
        m
    } else {
        m.insert(conn_id, RegistryEntry { handle, shut: false })
    }
}

/// Per-session map from logical connection ID to the stream registered for
/// it. Distinct entries always hold distinct handles, so traffic demultiplexed
/// to distinct connection IDs can never reach the same stream.
pub struct Registry {
    map: HashMap<u16, RegistryEntry>,
}

impl View for Registry {
    type V = Map<u16, RegistryEntry>;

    closed spec fn view(&self) -> Map<u16, RegistryEntry> {
        self.map@
    }
}

impl Registry {
    /// Distinct logical connections are backed by distinct streams.
    pub open spec fn wf(&self) -> bool {
        forall|k1: u16, k2: u16|
            self@.contains_key(k1) && self@.contains_key(k2) && k1 != k2
                ==> (#[trigger] self@[k1].handle) != (#[trigger] self@[k2].handle)
    }

    pub fn new() -> (r: Registry)
        ensures
            r@ == Map::<u16, RegistryEntry>::empty(),
            r.wf(),
    {
        Registry { map: HashMap::new() }
    }

    /// The entry registered for `conn_id`, if any.
    pub fn lookup(&self, conn_id: u16) -> (r: Option<RegistryEntry>)
        ensures
            r == if self@.contains_key(conn_id) {
                Some(self@[conn_id])
            } else {
                None::<RegistryEntry>
            },
    {
        match self.map.get(&conn_id) {
            Some(e) => Some(*e),
            None => None,
        }
    }

    /// Registers a freshly accepted stream under a connection ID not seen
    /// before in this session (the server does this at accept time).
    pub fn insert(&mut self, conn_id: u16, handle: usize)
        requires
            old(self).wf(),
            !old(self)@.contains_key(conn_id),
            !has_handle(old(self)@, handle),
        ensures
            final(self).wf(),
            final(self)@ == old(self)@.insert(conn_id, RegistryEntry { handle, shut: false }),
    {
        self.map.insert(conn_id, RegistryEntry { handle, shut: false });
        proof {
            assert forall|k1: u16, k2: u16|
                self@.contains_key(k1) && self@.contains_key(k2) && k1 != k2 implies (
            #[trigger] self@[k1].handle) != (#[trigger] self@[k2].handle) by {
                if k1 != conn_id && k2 != conn_id {
                    assert(old(self)@.contains_key(k1) && old(self)@.contains_key(k2));
                } else if k1 == conn_id {
                    assert(old(self)@.contains_key(k2));
                } else {
                    assert(old(self)@.contains_key(k1));
                }
            }
        }
    }

    /// Returns the handle registered for `conn_id`, inserting the offered
    /// fresh `handle` as a new open entry first if the ID was unseen. The
    /// second component tells whether the entry was created by this call:
    /// for one `conn_id`, however many calls race for it under the session's
    /// lock, only the single first call creates an entry.
    pub fn get_or_create(&mut self, conn_id: u16, handle: usize) -> (r: (usize, bool))
        requires
            old(self).wf(),
            !has_handle(old(self)@, handle),
        ensures
            final(self).wf(),
            final(self)@ == spec_get_or_create(old(self)@, conn_id, handle),
            r.1 == !old(self)@.contains_key(conn_id),
            r.0 == if old(self)@.contains_key(conn_id) {
                old(self)@[conn_id].handle
            } else {
                handle
            },
    {
        let existing = match self.map.get(&conn_id) {
            Some(e) => Some(*e),
            None => None,
        };
        match existing {
            Some(e) => (e.handle, false),
            None => {
                self.insert(conn_id, handle);
                (handle, true)
            },
        }
    }

    /// Shuts the entry for `conn_id` down WITHOUT removing it from the map:
    /// the entry stays, marked shut, and every other entry is untouched.
    /// Returns whether the entry was found; absence is not an error.
    pub fn shutdown_and_keep(&mut self, conn_id: u16) -> (found: bool)
        requires
            old(self).wf(),
        ensures
            final(self).wf(),
            found == old(self)@.contains_key(conn_id),
            final(self)@.dom() == old(self)@.dom(),
            found ==> final(self)@ == old(self)@.insert(
                conn_id,
                RegistryEntry { handle: old(self)@[conn_id].handle, shut: true },
            ),
            !found ==> final(self)@ == old(self)@,
    {
        let e = match self.map.get(&conn_id) {
            Some(e) => *e,
            None => {
                return false;
            },
        };
        self.map.insert(conn_id, RegistryEntry { handle: e.handle, shut: true });
        proof {
            assert(self@.dom() =~= old(self)@.dom());
            assert forall|k1: u16, k2: u16|
                self@.contains_key(k1) && self@.contains_key(k2) && k1 != k2 implies (
            #[trigger] self@[k1].handle) != (#[trigger] self@[k2].handle) by {
                assert(old(self)@.contains_key(k1) && old(self)@.contains_key(k2));
                assert(self@[k1].handle == old(self)@[k1].handle);
                assert(self@[k2].handle == old(self)@[k2].handle);
            }
        }
        true
    }

    /// Drops the entry for `conn_id`; dropping an absent ID is a no-op.
    pub fn remove(&mut self, conn_id: u16)
        requires
            old(self).wf(),
        ensures
            final(self).wf(),
            final(self)@ == old(self)@.remove(conn_id),
    {
        self.map.remove(&conn_id);
        proof {
            assert forall|k1: u16, k2: u16|
                self@.contains_key(k1) && self@.contains_key(k2) && k1 != k2 implies (
            #[trigger] self@[k1].handle) != (#[trigger] self@[k2].handle) by {
                assert(old(self)@.contains_key(k1) && old(self)@.contains_key(k2));
            }
        }
    }
}

/// The registry after a whole burst of get-or-create calls for one
/// `conn_id`, each offering its own fresh handle, serialized in some order.
pub open spec fn spec_get_or_create_seq(
    m: Map<u16, RegistryEntry>,
    conn_id: u16,
    handles: Seq<usize>,
) -> Map<u16, RegistryEntry>
    decreases handles.len(),
{
    if handles.len() == 0 {
        m
    } else {
        spec_get_or_create_seq(spec_get_or_create(m, conn_id, handles[0]), conn_id, handles.skip(1))
    }
}

/// How many of those calls created an entry.
pub open spec fn spec_creations(
    m: Map<u16, RegistryEntry>,
    conn_id: u16,
    handles: Seq<usize>,
) -> nat
    decreases handles.len(),
{
    if handles.len() == 0 {
        0
    } else {
        (if m.contains_key(conn_id) {
            0nat
        } else {
            1nat
        }) + spec_creations(spec_get_or_create(m, conn_id, handles[0]), conn_id, handles.skip(1))
    }
}

/// Once `conn_id` is present, further get-or-create calls for it change
/// nothing and create nothing.
proof fn lemma_get_or_create_seq_noop(m: Map<u16, RegistryEntry>, conn_id: u16, handles: Seq<usize>)
    requires
        m.contains_key(conn_id),
    ensures
        spec_get_or_create_seq(m, conn_id, handles) == m,
        spec_creations(m, conn_id, handles) == 0,
    decreases handles.len(),
{
    if handles.len() > 0 {
        lemma_get_or_create_seq_noop(m, conn_id, handles.skip(1));
    }
}

/// Single creation under concurrency: any number of racing get-or-create
/// calls for one unseen `conn_id`, serialized in whatever order by the
/// session's lock, make exactly one insertion — an open entry holding the
/// handle offered by whichever call ran first — and leave nothing else.
pub proof fn lemma_single_creation(m: Map<u16, RegistryEntry>, conn_id: u16, handles: Seq<usize>)
    requires
        !m.contains_key(conn_id),
        handles.len() > 0,
    ensures
        spec_get_or_create_seq(m, conn_id, handles) == m.insert(
            conn_id,
            RegistryEntry { handle: handles[0], shut: false },
        ),
        spec_creations(m, conn_id, handles) == 1,
{
    let m1 = m.insert(conn_id, RegistryEntry { handle: handles[0], shut: false });
    lemma_get_or_create_seq_noop(m1, conn_id, handles.skip(1));
}

/// Multiplexing isolation at the registry: two distinct connection IDs held
/// by a well-formed registry are always backed by two distinct streams.
pub proof fn lemma_distinct_connections_isolated(r: &Registry, x: u16, y: u16)
    requires
        r.wf(),
        x != y,
        r@.contains_key(x),
        r@.contains_key(y),
    ensures
        r@[x].handle != r@[y].handle,
{
}

/// The session-scoped counter the server allocates connection IDs from:
/// monotonically increasing, wrapping at 65535 with no reuse protection (a
/// known limitation of the protocol).
pub struct Counter {
    count: u16,
}

impl Counter {
    /// The count the counter stands at.
    pub closed spec fn spec_count(&self) -> u16 {
        self.count
    }

    pub fn new() -> (r: Counter)
        ensures
            r.spec_count() == 0,
    {
        Counter { count: 0 }
    }

    /// Steps the counter and returns the new count, the next connection ID.
    pub fn increment(&mut self) -> (r: u16)
        ensures
            final(self).spec_count() == (old(self).spec_count() + 1) % 0x10000,
            r == final(self).spec_count(),
    {
        self.count = if self.count == 0xffff {
            0
        } else {
            self.count + 1
        };
        self.count
    }
}

} // verus!
