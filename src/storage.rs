//! An in-memory key-value store: byte values addressed by an application byte
//! and a key byte, with a fixed number of slots.

use vstd::prelude::*;
use vstd::slice::slice_to_vec;

use crate::error::{Error, StorageResult};

verus! {

/// The address of a stored value: application byte (with its flag bits) and
/// key byte.
pub type AppKey = (u8, u8);

struct Slot {
    app: u8,
    key: u8,
    value: Vec<u8>,
}

impl Slot {
    spec fn addr(&self) -> AppKey {
        (self.app, self.key)
    }
}

/// A key-value store that holds at most `capacity` keys.
pub struct Storage {
    slots: Vec<Slot>,
    capacity: usize,
    contents: Ghost<Map<AppKey, Seq<u8>>>,
}

impl View for Storage {
    type V = Map<AppKey, Seq<u8>>;

    closed spec fn view(&self) -> Map<AppKey, Seq<u8>> {
        self.contents@
    }
}

impl Storage {
    /// Number of keys held.
    pub closed spec fn used(&self) -> nat {
        self.slots.len() as nat
    }

    /// Number of keys the store can hold.
    pub closed spec fn capacity(&self) -> nat {
        self.capacity as nat
    }

    pub closed spec fn wf(&self) -> bool {
        &&& self.slots.len() <= self.capacity
        &&& forall|i: int, j: int|
            0 <= i < j < self.slots.len() ==> self.slots[i].addr() != self.slots[j].addr()
        &&& forall|i: int|
            0 <= i < self.slots.len() ==> {
                &&& self.contents@.contains_key(#[trigger] self.slots[i].addr())
                &&& self.contents@[self.slots[i].addr()] == self.slots[i].value@
            }
        &&& forall|k: AppKey|
            #[trigger] self.contents@.contains_key(k) ==> exists|i: int|
                0 <= i < self.slots.len() && self.slots[i].addr() == k
    }

    /// Whether a write to `k` finds room: the key is already there, or a slot
    /// is free.
    pub open spec fn has_room_for(&self, k: AppKey) -> bool {
        self@.contains_key(k) || self.used() < self.capacity()
    }

    /// An empty store for at most `capacity` keys.
    pub fn new(capacity: usize) -> (s: Self)
        ensures
            s.wf(),
            s@ == Map::<AppKey, Seq<u8>>::empty(),
            s.used() == 0,
            s.capacity() == capacity,
    {
        Storage { slots: Vec::new(), capacity, contents: Ghost(Map::empty()) }
    }

    fn find(&self, app: u8, key: u8) -> (r: Option<usize>)
        requires
            self.wf(),
        ensures
            r matches Some(i) ==> i < self.slots.len() && self.slots[i as int].addr() == (app, key),
            r is None ==> !self@.contains_key((app, key)),
    {
        let mut i: usize = 0;
        while i < self.slots.len()
            invariant
                self.wf(),
                i <= self.slots.len(),
                forall|j: int| 0 <= j < i ==> self.slots[j].addr() != (app, key),
            decreases self.slots.len() - i,
        {
            if self.slots[i].app == app && self.slots[i].key == key {
                return Some(i);
            }
            i += 1;
        }
        None
    }

    /// Whether a value is stored under `(app, key)`.
    pub fn has(&self, app: u8, key: u8) -> (r: bool)
        requires
            self.wf(),
        ensures
            r == self@.contains_key((app, key)),
    {
        self.find(app, key).is_some()
    }

    /// The bytes stored under `(app, key)`, if any.
    pub fn get(&self, app: u8, key: u8) -> (r: Option<Vec<u8>>)
        requires
            self.wf(),
        ensures
            r is Some <==> self@.contains_key((app, key)),
            r matches Some(v) ==> v@ == self@[(app, key)],
    {
        match self.find(app, key) {
            Some(i) => Some(slice_to_vec(self.slots[i].value.as_slice())),
            None => None,
        }
    }

    /// Stores `value` under `(app, key)`, replacing what was there; fails
    /// with `NoSpace`, changing nothing, when the key is new and every slot is
    /// taken.
    pub fn set(&mut self, app: u8, key: u8, value: &[u8]) -> (r: StorageResult<()>)
        requires
            old(self).wf(),
        ensures
            final(self).wf(),
            final(self).capacity() == old(self).capacity(),
            old(self).has_room_for((app, key)) ==> {
                &&& r is Ok
                &&& final(self)@ == old(self)@.insert((app, key), value@)
                &&& final(self).used() == old(self).used() + if old(self)@.contains_key(
                    (app, key),
                ) {
                    0int
                } else {
                    1int
                }
            },
            !old(self).has_room_for((app, key)) ==> r == Err::<(), Error>(Error::NoSpace)
                && final(self)@ == old(self)@ && final(self).used() == old(self).used(),
    {
        let ghost k = (app, key);
        match self.find(app, key) {
            Some(i) => {
                let v = slice_to_vec(value);
                let ghost old_slots = self.slots@;
                self.slots.set(i, Slot { app, key, value: v });
                self.contents = Ghost(self.contents@.insert(k, value@));
                assert forall|kk: AppKey| #[trigger]
                    self.contents@.contains_key(kk) implies exists|j: int|
                    0 <= j < self.slots.len() && self.slots[j].addr() == kk by {
                    if kk != k {
                        let j = choose|j: int|
                            0 <= j < old_slots.len() && old_slots[j].addr() == kk;
                        assert(self.slots[j].addr() == kk);
                    } else {
                        assert(self.slots[i as int].addr() == kk);
                    }
                }
                Ok(())
            },
            None => {
                if self.slots.len() >= self.capacity {
                    return Err(Error::NoSpace);
                }
                let v = slice_to_vec(value);
                let ghost old_slots = self.slots@;
                self.slots.push(Slot { app, key, value: v });
                self.contents = Ghost(self.contents@.insert(k, value@));
                assert forall|kk: AppKey| #[trigger]
                    self.contents@.contains_key(kk) implies exists|j: int|
                    0 <= j < self.slots.len() && self.slots[j].addr() == kk by {
                    if kk != k {
                        let j = choose|j: int|
                            0 <= j < old_slots.len() && old_slots[j].addr() == kk;
                        assert(self.slots[j].addr() == kk);
                    } else {
                        assert(self.slots[old_slots.len() as int].addr() == kk);
                    }
                }
                Ok(())
            },
        }
    }

    /// Removes whatever is stored under `(app, key)`; removing an absent key
    /// succeeds and changes nothing.
    pub fn delete(&mut self, app: u8, key: u8) -> (r: StorageResult<()>)
        requires
            old(self).wf(),
        ensures
            final(self).wf(),
            r is Ok,
            final(self)@ == old(self)@.remove((app, key)),
            final(self).capacity() == old(self).capacity(),
            final(self).used() <= old(self).used(),
    {
        let ghost k = (app, key);
        match self.find(app, key) {
            Some(i) => {
                let ghost old_slots = self.slots@;
                let _ = self.slots.remove(i);
                self.contents = Ghost(self.contents@.remove(k));
                assert forall|a: int, b: int|
                    0 <= a < b < self.slots.len() implies self.slots[a].addr()
                    != self.slots[b].addr() by {
                    let oa = if a < i { a } else { a + 1 };
                    let ob = if b < i { b } else { b + 1 };
                    assert(self.slots[a] == old_slots[oa]);
                    assert(self.slots[b] == old_slots[ob]);
                }
                assert forall|j: int| 0 <= j < self.slots.len() implies {
                    &&& self.contents@.contains_key(#[trigger] self.slots[j].addr())
                    &&& self.contents@[self.slots[j].addr()] == self.slots[j].value@
                } by {
                    let oj = if j < i { j } else { j + 1 };
                    assert(self.slots[j] == old_slots[oj]);
                    assert(old_slots[oj].addr() != old_slots[i as int].addr());
                }
                assert forall|kk: AppKey| #[trigger]
                    self.contents@.contains_key(kk) implies exists|j: int|
                    0 <= j < self.slots.len() && self.slots[j].addr() == kk by {
                    let oj = choose|j: int| 0 <= j < old_slots.len() && old_slots[j].addr() == kk;
                    assert(oj != i);
                    let j = if oj < i { oj } else { oj - 1 };
                    assert(self.slots[j] == old_slots[oj]);
                }
                Ok(())
            },
            None => {
                assert(self@.remove(k) =~= self@);
                Ok(())
            },
        }
    }
}

} // verus!
