//! The connection registry: identifiers bound to connection handles.
use vstd::prelude::*;

verus! {

/// The bindings of `m` that do not point at connection `handle`.
pub open spec fn without_handle(m: Map<Seq<char>, u64>, handle: u64) -> Map<Seq<char>, u64> {
    Map::new(|k: Seq<char>| m.contains_key(k) && m[k] != handle, |k: Seq<char>| m[k])
}

/// No identifier of `m` points at connection `handle`.
pub open spec fn no_binding_to(m: Map<Seq<char>, u64>, handle: u64) -> bool {
    forall|k: Seq<char>| #[trigger] m.contains_key(k) ==> m[k] != handle
}

struct Binding {
    id: String,
    handle: u64,
}

/// `m` holds exactly the bindings of `b`, whose identifiers are distinct.
spec fn matches_bindings(b: Seq<Binding>, m: Map<Seq<char>, u64>) -> bool {
    &&& forall|i: int|
        0 <= i < b.len() ==> {
            &&& #[trigger] m.contains_key(b[i].id@)
            &&& m[b[i].id@] == b[i].handle
        }
    &&& forall|k: Seq<char>|
        #[trigger] m.contains_key(k) ==> exists|i: int| 0 <= i < b.len() && #[trigger] b[i].id@ == k
    &&& forall|i: int, j: int|
        0 <= i < b.len() && 0 <= j < b.len() && i != j ==> #[trigger] b[i].id@ != #[trigger] b[j].id@
}

/// Maps identifiers to the handles of live connections, at most one handle
/// per identifier. Handles are issued by the registry itself, one per
/// connection, and are never issued twice.
pub struct Registry {
    bindings: Vec<Binding>,
    next_handle: u64,
    map: Ghost<Map<Seq<char>, u64>>,
}

impl View for Registry {
    type V = Map<Seq<char>, u64>;

    closed spec fn view(&self) -> Map<Seq<char>, u64> {
        self.map@
    }
}

impl Registry {
    /// The first handle not issued yet.
    pub closed spec fn next(&self) -> u64 {
        self.next_handle
    }

    /// `handle` was issued by this registry.
    pub open spec fn issued(&self, handle: u64) -> bool {
        handle < self.next()
    }

    pub closed spec fn wf(&self) -> bool {
        &&& matches_bindings(self.bindings@, self.map@)
        &&& forall|k: Seq<char>| #[trigger] self.map@.contains_key(k) ==> self.map@[k] < self.next_handle
    }

    /// An empty registry that has issued no handle.
    pub fn new() -> (r: Registry)
        ensures
            r.wf(),
            r@ == Map::<Seq<char>, u64>::empty(),
            r.next() == 0,
    {
        Registry { bindings: Vec::new(), next_handle: 0, map: Ghost(Map::empty()) }
    }

    /// Whether `handle` was issued by this registry.
    pub fn issued_handle(&self, handle: u64) -> (r: bool)
        ensures
            r == self.issued(handle),
    {
        handle < self.next_handle
    }

    /// Issues a handle for a new connection, or `None` once every handle
    /// has been issued. The bindings are unchanged.
    pub fn issue_handle(&mut self) -> (r: Option<u64>)
        requires
            old(self).wf(),
        ensures
            final(self).wf(),
            final(self)@ == old(self)@,
            old(self).next() == u64::MAX <==> r.is_none(),
            r.is_none() ==> final(self).next() == old(self).next(),
            r matches Some(h) ==> {
                &&& h == old(self).next()
                &&& final(self).next() == h + 1
                &&& no_binding_to(old(self)@, h)
            },
    {
        if self.next_handle == u64::MAX {
            None
        } else {
            let h = self.next_handle;
            self.next_handle = h + 1;
            assert forall|k: Seq<char>| #[trigger] self.map@.contains_key(k) implies self.map@[k]
                < self.next_handle by {}
            Some(h)
        }
    }

    fn position(&self, id: &String) -> (r: Option<usize>)
        requires
            self.wf(),
        ensures
            r matches Some(i) ==> i < self.bindings.len() && self.bindings[i as int].id@ == id@,
            r.is_none() ==> !self@.contains_key(id@),
    {
        let mut i: usize = 0;
        while i < self.bindings.len()
            invariant
                self.wf(),
                i <= self.bindings.len(),
                forall|j: int| 0 <= j < i ==> self.bindings[j].id@ != id@,
            decreases self.bindings.len() - i,
        {
            if self.bindings[i].id == *id {
                return Some(i);
            }
            i = i + 1;
        }
        None
    }

    /// The handle bound to `id`, if any.
    pub fn lookup(&self, id: &String) -> (r: Option<u64>)
        requires
            self.wf(),
        ensures
            r == (if self@.contains_key(id@) { Some(self@[id@]) } else { None::<u64> }),
    {
        match self.position(id) {
            Some(i) => Some(self.bindings[i].handle),
            None => None,
        }
    }

    /// Whether `id` is bound.
    pub fn contains(&self, id: &String) -> (r: bool)
        requires
            self.wf(),
        ensures
            r == self@.contains_key(id@),
    {
        self.position(id).is_some()
    }

    /// Binds `id` to `handle`, replacing any earlier binding of `id`.
    pub fn register(&mut self, id: String, handle: u64)
        requires
            old(self).wf(),
            old(self).issued(handle),
        ensures
            final(self).wf(),
            final(self)@ == old(self)@.insert(id@, handle),
            final(self).next() == old(self).next(),
    {
        let ghost key = id@;
        let ghost before = self.bindings@;
        let pos = self.position(&id);
        match pos {
            Some(i) => {
                self.bindings.set(i, Binding { id, handle });
            },
            None => {
                self.bindings.push(Binding { id, handle });
            },
        }
        self.map = Ghost(self.map@.insert(key, handle));
        assert forall|k: Seq<char>| #[trigger] self.map@.contains_key(k) implies exists|i: int|
            0 <= i < self.bindings.len() && #[trigger] self.bindings[i].id@ == k by {
            if k == key {
                match pos {
                    Some(i) => assert(self.bindings[i as int].id@ == k),
                    None => assert(self.bindings[before.len() as int].id@ == k),
                }
            } else {
                let w = choose|i: int| 0 <= i < before.len() && before[i].id@ == k;
                assert(self.bindings[w].id@ == k);
            }
        }
    }

    /// Removes the binding of `id`; does nothing where `id` is unbound.
    pub fn unregister(&mut self, id: &String)
        requires
            old(self).wf(),
        ensures
            final(self).wf(),
            final(self)@ == old(self)@.remove(id@),
            final(self).next() == old(self).next(),
    {
        match self.position(id) {
            Some(i) => {
                let ghost before = self.bindings@;
                self.bindings.remove(i);
                self.map = Ghost(self.map@.remove(id@));
                assert forall|k: Seq<char>| #[trigger] self.map@.contains_key(k) implies exists|j: int|
                    0 <= j < self.bindings.len() && #[trigger] self.bindings[j].id@ == k by {
                    let w = choose|j: int| 0 <= j < before.len() && before[j].id@ == k;
                    if w < i {
                        assert(self.bindings[w].id@ == k);
                    } else {
                        assert(self.bindings[w - 1].id@ == k);
                    }
                }
            },
            None => {
                assert(self.map@.remove(id@) =~= self.map@);
            },
        }
    }

    /// Removes every identifier bound to `handle`: the connection becomes
    /// unreachable while all other bindings stay as they were.
    pub fn unregister_connection(&mut self, handle: u64)
        requires
            old(self).wf(),
        ensures
            final(self).wf(),
            final(self)@ == without_handle(old(self)@, handle),
            final(self).next() == old(self).next(),
            no_binding_to(final(self)@, handle),
    {
        let ghost old_b = self.bindings@;
        let ghost old_m = self.map@;
        let mut kept: Vec<Binding> = Vec::new();
        let ghost mut src: Seq<int> = Seq::empty();
        let mut i: usize = 0;
        while i < self.bindings.len()
            invariant
                self.wf(),
                self.bindings@ == old_b,
                self.map@ == old_m,
                i <= old_b.len(),
                src.len() == kept.len(),
                forall|j: int|
                    0 <= j < kept.len() ==> {
                        &&& 0 <= #[trigger] src[j] < i
                        &&& kept[j].id@ == old_b[src[j]].id@
                        &&& kept[j].handle == old_b[src[j]].handle
                        &&& kept[j].handle != handle
                    },
                forall|j1: int, j2: int| 0 <= j1 < j2 < kept.len() ==> #[trigger] src[j1] < #[trigger] src[j2],
                forall|i2: int|
                    0 <= i2 < i && #[trigger] old_b[i2].handle != handle ==> exists|j: int|
                        0 <= j < kept.len() && #[trigger] src[j] == i2,
            decreases old_b.len() - i,
        {
            if self.bindings[i].handle != handle {
                let b = Binding { id: self.bindings[i].id.clone(), handle: self.bindings[i].handle };
                kept.push(b);
                proof {
                    let prev = src;
                    src = src.push(i as int);
                    assert forall|i2: int|
                        0 <= i2 < i + 1 && #[trigger] old_b[i2].handle != handle implies exists|j: int|
                        0 <= j < kept.len() && #[trigger] src[j] == i2 by {
                        if i2 == i {
                            assert(src[prev.len() as int] == i2);
                        } else {
                            let j = choose|j: int| 0 <= j < prev.len() && prev[j] == i2;
                            assert(src[j] == i2);
                        }
                    }
                }
            }
            i = i + 1;
        }
        let ghost m = without_handle(old_m, handle);
        proof {
            assert forall|j: int| 0 <= j < kept.len() implies {
                &&& #[trigger] m.contains_key(kept@[j].id@)
                &&& m[kept@[j].id@] == kept@[j].handle
            } by {
                assert(old_b[src[j]].id@ == kept@[j].id@);
            }
            assert forall|k: Seq<char>| #[trigger] m.contains_key(k) implies exists|j: int|
                0 <= j < kept@.len() && #[trigger] kept@[j].id@ == k by {
                let i2 = choose|i2: int| 0 <= i2 < old_b.len() && old_b[i2].id@ == k;
                assert(old_b[i2].handle != handle);
                let j = choose|j: int| 0 <= j < kept.len() && src[j] == i2;
                assert(kept@[j].id@ == k);
            }
            assert forall|j1: int, j2: int|
                0 <= j1 < kept@.len() && 0 <= j2 < kept@.len() && j1 != j2 implies #[trigger] kept@[j1].id@
                != #[trigger] kept@[j2].id@ by {
                if j1 < j2 {
                    assert(src[j1] < src[j2]);
                } else {
                    assert(src[j2] < src[j1]);
                }
            }
        }
        self.bindings = kept;
        self.map = Ghost(m);
    }
}

} // verus!
