use vstd::prelude::*;
use std::collections::HashMap;
use tokio::sync::mpsc::UnboundedSender;
use crate::connection::Connection;

verus! {

broadcast use vstd::std_specs::hash::group_hash_axioms, vstd::seq_lib::lemma_seq_contains_after_push;

/// Violation of the registry's id discipline. Under correct allocation it
/// never occurs: `on_connection_established` proves its own ids fresh.
#[derive(Clone, Copy, Debug, PartialEq, Eq, Structural)]
pub enum RegistryError {
    /// `register` was handed an id that is already present.
    DuplicateId,
}

/// The concurrent heart of the relay: the mapping from connection id to live
/// `Connection`, together with the id allocator. All mutation goes through
/// the coarse operations below; a caller that shares the registry between
/// tasks wraps it in a mutual-exclusion lock and holds that lock only for the
/// duration of one operation, never during a network write.
pub struct Registry {
    /// Live connections, keyed by id.
    users: HashMap<usize, Connection>,
    /// The same ids, in registration order; drives snapshot iteration.
    order: Vec<usize>,
    /// High-water mark of the id allocator: ids handed out so far are
    /// `1..=next_id`, each exactly once, never reused.
    next_id: usize,
}

impl View for Registry {
    type V = Map<usize, Connection>;

    closed spec fn view(&self) -> Map<usize, Connection> {
        self.users@
    }
}

impl Registry {
    /// The ids of the registered connections, in registration order.
    pub closed spec fn ids(self) -> Seq<usize> {
        self.order@
    }

    /// How many ids the allocator has ever handed out; they are `1..=allocated()`.
    pub closed spec fn allocated(self) -> usize {
        self.next_id
    }

    /// Whether another id can still be allocated without exhausting `usize`.
    pub open spec fn can_allocate(self) -> bool {
        self.allocated() < usize::MAX
    }

    /// Well-formedness: the ordered id list carries no duplicates and is
    /// exactly the map's key set; every entry sits under its own id; and
    /// every live id was once allocated.
    pub closed spec fn wf(self) -> bool {
        &&& self.order@.no_duplicates()
        &&& (forall|k: usize| #[trigger] self.users@.contains_key(k) ==> self.order@.contains(k))
        &&& (forall|k: usize| #[trigger] self.order@.contains(k) ==> self.users@.contains_key(k))
        &&& (forall|k: usize|
            #[trigger] self.users@.contains_key(k) ==> self.users@[k].id == k && 1 <= k
                <= self.next_id)
    }

    /// An empty registry with the id allocator at its start.
    pub fn new() -> (r: Registry)
        ensures
            r.wf(),
            r@ == Map::<usize, Connection>::empty(),
            r.ids() == Seq::<usize>::empty(),
            r.allocated() == 0,
    {
        Registry { users: HashMap::new(), order: Vec::new(), next_id: 0 }
    }

    /// Hand out a fresh id: strictly increasing, never a live one again. Two
    /// callers that serialize their calls (the registry sits behind one lock)
    /// therefore never receive the same value.
    pub fn allocate_id(&mut self) -> (id: usize)
        requires
            old(self).wf(),
            old(self).can_allocate(),
        ensures
            final(self).wf(),
            id == old(self).allocated() + 1,
            final(self).allocated() == id,
            final(self)@ == old(self)@,
            final(self).ids() == old(self).ids(),
            !old(self)@.contains_key(id),
    {
        self.next_id = self.next_id + 1;
        self.next_id
    }

    /// Insert a connection under its id. Fails with `DuplicateId`, leaving
    /// the registry untouched, exactly when the id is already present.
    pub fn register(&mut self, id: usize, conn: Connection) -> (r: Result<(), RegistryError>)
        requires
            old(self).wf(),
            conn.id == id,
            1 <= id <= old(self).allocated(),
        ensures
            final(self).wf(),
            final(self).allocated() == old(self).allocated(),
            old(self)@.contains_key(id) ==> r == Err::<(), RegistryError>(
                RegistryError::DuplicateId,
            ) && final(self)@ == old(self)@ && final(self).ids() == old(self).ids(),
            !old(self)@.contains_key(id) ==> r == Ok::<(), RegistryError>(()) && final(self)@
                == old(self)@.insert(id, conn) && final(self).ids() == old(self).ids().push(id)
                && final(self)@.len() == old(self)@.len() + 1,
    {
        if self.users.contains_key(&id) {
            Err(RegistryError::DuplicateId)
        } else {
            let ghost pre = *self;
            self.users.insert(id, conn);
            self.order.push(id);
            proof {
                assert(!pre.order@.contains(id)) by {
                    if pre.order@.contains(id) {
                        assert(pre.users@.contains_key(id));
                    }
                }
                assert(self.order@.no_duplicates()) by {
                    assert forall|p: int, q: int|
                        0 <= p < self.order@.len() && 0 <= q < self.order@.len() && p
                            != q implies self.order@[p] != self.order@[q] by {
                        if p < pre.order@.len() && q < pre.order@.len() {
                            assert(pre.order@.no_duplicates());
                        } else if p < pre.order@.len() {
                            assert(pre.order@.contains(pre.order@[p]));
                        } else if q < pre.order@.len() {
                            assert(pre.order@.contains(pre.order@[q]));
                        }
                    }
                }
                assert(self.wf());
                assert(pre.users@.dom().finite());
                assert(self.users@.dom() =~= pre.users@.dom().insert(id));
            }
            Ok(())
        }
    }

    /// Remove the connection under `id` if it is there; doing nothing — not
    /// failing — when it is absent, since a disconnect race may have removed
    /// it already.
    pub fn unregister(&mut self, id: usize)
        requires
            old(self).wf(),
        ensures
            final(self).wf(),
            final(self).allocated() == old(self).allocated(),
            final(self)@ == old(self)@.remove(id),
            final(self).ids() == old(self).ids().remove_value(id),
            old(self)@.contains_key(id) ==> final(self)@.len() == old(self)@.len() - 1,
            !old(self)@.contains_key(id) ==> final(self)@.len() == old(self)@.len(),
    {
        let ghost pre = *self;
        let pos = position_of(&self.order, id);
        let _ = self.users.remove(&id);
        match pos {
            Some(i) => {
                self.order.remove(i);
                proof {
                    let s = pre.order@;
                    let ii = i as int;
                    assert(s.contains(id)) by {
                        assert(s[ii] == id);
                    }
                    s.index_of_first_ensures(id);
                    let fi = s.index_of_first(id).unwrap();
                    assert(fi == ii) by {
                        if fi < ii {
                            assert(s[fi] == id);
                        } else if ii < fi {
                            assert(s[ii] == id);
                        }
                    }
                    s.remove_ensures(ii);
                    assert(self.order@ == s.remove_value(id));
                    // the shrunken list still carries no duplicates ...
                    assert(self.order@.no_duplicates()) by {
                        assert forall|p: int, q: int|
                            0 <= p < s.remove(ii).len() && 0 <= q < s.remove(ii).len() && p
                                != q implies s.remove(ii)[p] != s.remove(ii)[q] by {
                            let p0: int = if p < ii { p } else { p + 1 };
                            let q0: int = if q < ii { q } else { q + 1 };
                            assert(s.remove(ii)[p] == s[p0]);
                            assert(s.remove(ii)[q] == s[q0]);
                        }
                    }
                    // ... and no longer carries the removed id ...
                    assert forall|j: int| 0 <= j < s.remove(ii).len() implies s.remove(ii)[j]
                        != id by {
                        if j < ii {
                            assert(s.remove(ii)[j] == s[j]);
                        } else {
                            assert(s.remove(ii)[j] == s[j + 1]);
                            assert(s[j + 1] != s[ii]);
                        }
                    }
                    // ... while every other id keeps its place in both views.
                    assert forall|k: usize| #[trigger]
                        self.users@.contains_key(k) implies self.order@.contains(k) by {
                        assert(pre.users@.contains_key(k) && k != id);
                        assert(s.contains(k));
                        let w = choose|w: int| 0 <= w < s.len() && s[w] == k;
                        if w < ii {
                            assert(s.remove(ii)[w] == k);
                        } else {
                            assert(s.remove(ii)[w - 1] == k);
                        }
                    }
                    assert forall|k: usize| #[trigger]
                        self.order@.contains(k) implies self.users@.contains_key(k) by {
                        let j = choose|j: int| 0 <= j < s.remove(ii).len() && s.remove(ii)[j] == k;
                        let j0: int = if j < ii {
                            j
                        } else {
                            j + 1
                        };
                        assert(s[j0] == k);
                        assert(s.contains(k));
                        assert(k != id);
                        assert(pre.users@.contains_key(k));
                    }
                    assert(self.wf());
                    assert(pre.users@.contains_key(id));
                    assert(pre.users@.dom().finite());
                    assert(self.users@.dom() =~= pre.users@.dom().remove(id));
                }
            },
            None => {
                proof {
                    let s = pre.order@;
                    s.index_of_first_ensures(id);
                    assert(!pre.users@.contains_key(id));
                    assert(self.users@ =~= pre.users@);
                    assert(self.users@ == pre.users@);
                    assert(self.order@ == s.remove_value(id));
                    assert(self.wf());
                }
            },
        }
    }

    /// The registration point, invoked once per accepted transport upgrade:
    /// allocate a fresh id, wrap the delivery handle, register it. The id's
    /// freshness rules the duplicate-id failure out, so the new entry is
    /// always in place when this returns.
    pub fn on_connection_established(&mut self, outbound: UnboundedSender<String>) -> (id: usize)
        requires
            old(self).wf(),
            old(self).can_allocate(),
        ensures
            final(self).wf(),
            id == old(self).allocated() + 1,
            final(self).allocated() == id,
            !old(self)@.contains_key(id),
            final(self)@ == old(self)@.insert(id, (Connection { id, outbound })),
            final(self).ids() == old(self).ids().push(id),
            final(self)@.len() == old(self)@.len() + 1,
    {
        let id = self.allocate_id();
        let conn = Connection::new(id, outbound);
        let r = self.register(id, conn);
        proof {
            assert(r is Ok);
        }
        id
    }

    /// The connection registered under `id`, if any.
    pub fn lookup(&self, id: usize) -> (r: Option<&Connection>)
        requires
            self.wf(),
        ensures
            match r {
                Some(c) => self@.contains_key(id) && *c == self@[id],
                None => !self@.contains_key(id),
            },
    {
        self.users.get(&id)
    }

    /// A consistent point-in-time copy of the registry's contents — exactly
    /// the registered connections, in registration order, each with a fresh
    /// handle onto its delivery queue — for a fan-out to walk after the
    /// registry lock is released.
    pub fn snapshot_for_broadcast(&self) -> (snap: Vec<Connection>)
        requires
            self.wf(),
        ensures
            snap@.len() == self.ids().len(),
            forall|i: int| 0 <= i < snap@.len() ==> #[trigger] snap@[i] == self@[self.ids()[i]],
            forall|i: int| 0 <= i < snap@.len() ==> (#[trigger] snap@[i]).id == self.ids()[i],
    {
        let mut snap: Vec<Connection> = Vec::new();
        let n = self.order.len();
        let mut i: usize = 0;
        while i < n
            invariant
                self.wf(),
                n == self.order@.len(),
                i <= n,
                snap@.len() == i,
                forall|j: int| 0 <= j < i ==> #[trigger] snap@[j] == self.users@[self.order@[j]],
                forall|j: int| 0 <= j < i ==> (#[trigger] snap@[j]).id == self.order@[j],
            decreases n - i,
        {
            let id = self.order[i];
            proof {
                assert(self.order@.contains(id));
            }
            match self.users.get(&id) {
                Some(c) => {
                    snap.push(c.duplicate_handle());
                },
                None => {
                    proof {
                        assert(false);
                    }
                },
            }
            i = i + 1;
        }
        snap
    }

    /// Whether the id allocator can still hand out another id; for the
    /// process lifetime ids are never reused, so the space can in principle
    /// run dry.
    pub fn has_id_capacity(&self) -> (b: bool)
        ensures
            b == self.can_allocate(),
    {
        self.next_id < usize::MAX
    }

    /// How many connections are live.
    pub fn len(&self) -> (n: usize)
        requires
            self.wf(),
        ensures
            n == self@.len(),
    {
        self.users.len()
    }

    /// Whether a connection is registered under `id`.
    pub fn contains(&self, id: usize) -> (r: bool)
        requires
            self.wf(),
        ensures
            r == self@.contains_key(id),
    {
        self.users.contains_key(&id)
    }
}

/// The index of the first occurrence of `x` in `v`, if it occurs at all.
fn position_of(v: &Vec<usize>, x: usize) -> (r: Option<usize>)
    ensures
        match r {
            Some(i) => i < v@.len() && v@[i as int] == x && (forall|j: int|
                0 <= j < i ==> v@[j] != x),
            None => !v@.contains(x),
        },
{
    let n = v.len();
    let mut i: usize = 0;
    while i < n
        invariant
            n == v@.len(),
            i <= n,
            forall|j: int| 0 <= j < i ==> v@[j] != x,
        decreases n - i,
    {
        if v[i] == x {
            return Some(i);
        }
        i = i + 1;
    }
    None
}

/// Uniqueness of live connections, as the relay's registry keeps it: a
/// well-formed registry never holds two entries under one id, and its ordered
/// id list is exactly the key set of its mapping — so however many
/// connection-upgrade events have registered and left, N entries always carry
/// N distinct ids.
pub proof fn lemma_registry_ids_distinct(r: Registry)
    requires
        r.wf(),
    ensures
        r.ids().no_duplicates(),
        r.ids().len() == r@.dom().len(),
        forall|k: usize| #[trigger] r.ids().contains(k) <==> r@.contains_key(k),
{
    broadcast use vstd::seq_lib::seq_to_set_is_finite;

    r.ids().unique_seq_to_set();
    assert(r.ids().to_set() =~= r@.dom());
}

/// Idempotence of `unregister`: if `after` is `before` with `id` removed (the
/// state `unregister` leaves), removing the same id again changes nothing —
/// the second call has nothing left to do.
pub proof fn lemma_unregister_idempotent(before: Registry, after: Registry, id: usize)
    requires
        before.wf(),
        after@ == before@.remove(id),
        after.ids() == before.ids().remove_value(id),
    ensures
        after@.remove(id) == after@,
        after.ids().remove_value(id) == after.ids(),
{
    assert(after@.remove(id) =~= after@);
    before.ids().index_of_first_ensures(id);
    if before.ids().contains(id) {
        let i = before.ids().index_of_first(id).unwrap();
        before.ids().remove_ensures(i);
        assert forall|j: int|
            0 <= j < after.ids().len() implies #[trigger] after.ids()[j] != id by {
            if j < i {
                assert(after.ids()[j] == before.ids()[j]);
            } else {
                assert(after.ids()[j] == before.ids()[j + 1]);
                assert(before.ids()[j + 1] != before.ids()[i]);
            }
        }
        if after.ids().contains(id) {
            let w = choose|w: int| 0 <= w < after.ids().len() && after.ids()[w] == id;
            assert(false);
        }
        after.ids().index_of_first_ensures(id);
    } else {
        after.ids().index_of_first_ensures(id);
    }
}

} // verus!
