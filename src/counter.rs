//! Counters that never hand out the same value twice.

use vstd::prelude::*;

use crate::error::{Error, StorageResult};
use crate::field::Field;
use crate::storage::{AppKey, Storage};

verus! {

/// The value that the next advance of a counter stored in `f` returns: 0 for
/// a counter never used, one more than the stored value otherwise; `None`
/// when the stored value is the largest or cannot be read.
pub open spec fn counter_next(f: Field<u32>, m: Map<AppKey, Seq<u8>>) -> Option<u32> {
    if !m.contains_key(f.addr()) {
        Some(0)
    } else {
        match f.read(m) {
            Some(c) => if c < u32::MAX {
                Some((c + 1) as u32)
            } else {
                None
            },
            None => None,
        }
    }
}

/// A persisted counter: each advance is written to the store before its value
/// is returned.
pub struct MonotonicCounter {
    pub field: Field<u32>,
}

impl MonotonicCounter {
    pub open spec fn wf(&self) -> bool {
        self.field.fits(4)
    }

    pub fn new(field: Field<u32>) -> (c: Self)
        requires
            field.fits(4),
        ensures
            c.field == field,
            c.wf(),
    {
        MonotonicCounter { field }
    }

    /// Advances the counter and returns its new value. Fails with
    /// `CounterOverflow`, changing nothing, when it cannot advance, and with
    /// `NoSpace` when the store has no room for a first value.
    pub fn next(&self, st: &mut Storage) -> (r: StorageResult<u32>)
        requires
            self.wf(),
            old(st).wf(),
        ensures
            final(st).wf(),
            final(st).capacity() == old(st).capacity(),
            counter_next(self.field, old(st)@) is None ==> r == Err::<u32, Error>(
                Error::CounterOverflow,
            ) && final(st)@ == old(st)@,
            counter_next(self.field, old(st)@) matches Some(n) ==> if old(st).has_room_for(
                self.field.addr(),
            ) {
                r == Ok::<u32, Error>(n) && final(st)@ == self.field.written(old(st)@, n)
            } else {
                r == Err::<u32, Error>(Error::NoSpace) && final(st)@ == old(st)@
            },
    {
        let next: u32 = if !self.field.has(st) {
            0
        } else {
            match self.field.get(st) {
                Some(c) => {
                    if c == u32::MAX {
                        return Err(Error::CounterOverflow);
                    }
                    c + 1
                },
                None => {
                    return Err(Error::CounterOverflow);
                },
            }
        };
        match self.field.set(st, next) {
            Ok(()) => Ok(next),
            Err(e) => Err(e),
        }
    }

    /// Sets the counter to `value`; the next advance returns `value + 1`.
    pub fn set(&self, st: &mut Storage, value: u32) -> (r: StorageResult<()>)
        requires
            self.wf(),
            old(st).wf(),
        ensures
            self.field.stored(*old(st), *final(st), value, r),
    {
        self.field.set(st, value)
    }
}

/// After a counter advanced to `a`, the store holds `a`, and the next advance
/// returns a larger value or fails; it fails only once `a` is the largest
/// value.
pub proof fn lemma_counter_strictly_increasing(f: Field<u32>, m: Map<AppKey, Seq<u8>>, a: u32)
    requires
        f.fits(4),
        counter_next(f, m) == Some(a),
    ensures
        f.read(f.written(m, a)) == Some(a),
        counter_next(f, f.written(m, a)) matches Some(b) ==> b > a,
        counter_next(f, f.written(m, a)) is None <==> a == u32::MAX,
{
    <u32 as crate::encoding::Encodable>::lemma_decode_encode(a);
}

} // verus!
