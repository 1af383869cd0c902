//! Typed accessors, each bound to one address of the store.

use core::marker::PhantomData;
use vstd::prelude::*;

use crate::encoding::Encodable;
use crate::error::{Error, StorageResult};
use crate::storage::{AppKey, Storage};

verus! {

/// Flag bit of the application byte for values that the host may read.
pub const FLAG_PUBLIC: u8 = 0x80;

/// Flag bits of the application byte for values that the host may also
/// write while the device is locked.
pub const FLAGS_WRITE: u8 = 0xC0;

/// Who may reach a field from outside the device.
#[derive(Debug, Clone, Copy, PartialEq, Eq, Structural)]
pub enum Visibility {
    Private,
    Public,
    PublicWritable,
}

/// The application byte under which a field of `namespace` is stored.
pub open spec fn app_byte(namespace: u8, visibility: Visibility) -> u8 {
    match visibility {
        Visibility::Private => namespace,
        Visibility::Public => namespace | FLAG_PUBLIC,
        Visibility::PublicWritable => namespace | FLAGS_WRITE,
    }
}

/// A typed value at one address of the store. The encoding of a value may be
/// at most `max_len` bytes long, and exactly that long for an exact field.
pub struct Field<T> {
    pub namespace: u8,
    pub key: u8,
    pub visibility: Visibility,
    pub max_len: usize,
    pub exact: bool,
    pub marker: PhantomData<T>,
}

/// The field at `(namespace, key)` with the given visibility and length rule.
pub open spec fn field_at<T>(
    namespace: u8,
    key: u8,
    visibility: Visibility,
    max_len: usize,
    exact: bool,
) -> Field<T> {
    Field { namespace, key, visibility, max_len, exact, marker: PhantomData }
}

impl<T> Clone for Field<T> {
    fn clone(&self) -> (r: Self)
        ensures
            r == *self,
    {
        Field {
            namespace: self.namespace,
            key: self.key,
            visibility: self.visibility,
            max_len: self.max_len,
            exact: self.exact,
            marker: PhantomData,
        }
    }
}

impl<T> Field<T> {
    /// The outcome of removing the field's value from store `before`.
    pub open spec fn removed(&self, before: Storage, after: Storage, r: StorageResult<()>) -> bool {
        &&& after.wf()
        &&& after.capacity() == before.capacity()
        &&& after.used() <= before.used()
        &&& r is Ok
        &&& after@ == before@.remove(self.addr())
    }

    pub open spec fn addr(&self) -> AppKey {
        (app_byte(self.namespace, self.visibility), self.key)
    }

    /// Whether a stored byte string of length `n` fits the field.
    pub open spec fn fits(&self, n: nat) -> bool {
        n <= self.max_len && (self.exact ==> n == self.max_len)
    }

    pub fn new(namespace: u8, key: u8, visibility: Visibility, max_len: usize) -> (f: Self)
        ensures
            f == field_at::<T>(namespace, key, visibility, max_len, false),
    {
        Field { namespace, key, visibility, max_len, exact: false, marker: PhantomData }
    }

    /// A field that only the device itself reads and writes.
    pub fn private(namespace: u8, key: u8, max_len: usize) -> (f: Self)
        ensures
            f == field_at::<T>(namespace, key, Visibility::Private, max_len, false),
    {
        Self::new(namespace, key, Visibility::Private, max_len)
    }

    /// A field that the host may read.
    pub fn public(namespace: u8, key: u8, max_len: usize) -> (f: Self)
        ensures
            f == field_at::<T>(namespace, key, Visibility::Public, max_len, false),
    {
        Self::new(namespace, key, Visibility::Public, max_len)
    }

    /// A field that the host may read and write.
    pub fn public_writable(namespace: u8, key: u8, max_len: usize) -> (f: Self)
        ensures
            f == field_at::<T>(namespace, key, Visibility::PublicWritable, max_len, false),
    {
        Self::new(namespace, key, Visibility::PublicWritable, max_len)
    }

    /// The same field, whose encodings must be exactly `max_len` bytes long.
    pub fn exact(self) -> (f: Self)
        ensures
            f == field_at::<T>(self.namespace, self.key, self.visibility, self.max_len, true),
    {
        Field { exact: true, ..self }
    }

    fn app(&self) -> (r: u8)
        ensures
            r == self.addr().0,
    {
        match self.visibility {
            Visibility::Private => self.namespace,
            Visibility::Public => self.namespace | FLAG_PUBLIC,
            Visibility::PublicWritable => self.namespace | FLAGS_WRITE,
        }
    }

    /// Whether anything is stored for the field.
    pub fn has(&self, st: &Storage) -> (r: bool)
        requires
            st.wf(),
        ensures
            r == st@.contains_key(self.addr()),
    {
        st.has(self.app(), self.key)
    }

    /// Removes the field's value; removing an absent value succeeds.
    pub fn delete(&self, st: &mut Storage) -> (r: StorageResult<()>)
        requires
            old(st).wf(),
        ensures
            final(st).wf(),
            r is Ok,
            final(st)@ == old(st)@.remove(self.addr()),
            final(st).capacity() == old(st).capacity(),
            final(st).used() <= old(st).used(),
            self.removed(*old(st), *final(st), r),
    {
        st.delete(self.app(), self.key)
    }
}

impl<T: Encodable> Field<T> {
    /// Whether the field can hold `v`.
    pub open spec fn accepts(&self, v: T::V) -> bool {
        self.fits(T::encoding(v).len())
    }

    /// The field's value in store contents `m`: nothing where the address is
    /// empty, or holds bytes of a length the field does not allow, or bytes
    /// that do not decode.
    pub open spec fn read(&self, m: Map<AppKey, Seq<u8>>) -> Option<T::V> {
        if m.contains_key(self.addr()) && self.fits(m[self.addr()].len()) {
            T::decoding(m[self.addr()])
        } else {
            None
        }
    }

    /// Whether `r` is what reading the field from store contents `m` gives.
    pub open spec fn yields(&self, m: Map<AppKey, Seq<u8>>, r: Option<T>) -> bool {
        match r {
            Some(v) => self.read(m) == Some(v@),
            None => self.read(m) is None,
        }
    }

    /// Store contents `m` after the field was set to `v`.
    pub open spec fn written(&self, m: Map<AppKey, Seq<u8>>, v: T::V) -> Map<AppKey, Seq<u8>> {
        m.insert(self.addr(), T::encoding(v))
    }

    /// The outcome of setting the field to `v` in store `before`: `r` and the
    /// store `after`.
    pub open spec fn stored(
        &self,
        before: Storage,
        after: Storage,
        v: T::V,
        r: StorageResult<()>,
    ) -> bool {
        &&& after.wf()
        &&& after.capacity() == before.capacity()
        &&& after.used() <= before.used() + 1
        &&& (before@.contains_key(self.addr()) ==> after.used() == before.used())
        &&& if !self.accepts(v) {
            r == Err::<(), Error>(Error::InvalidLength) && after@ == before@ && after.used()
                == before.used()
        } else if before.has_room_for(self.addr()) {
            r is Ok && after@ == self.written(before@, v)
        } else {
            r == Err::<(), Error>(Error::NoSpace) && after@ == before@ && after.used()
                == before.used()
        }
    }

    /// The field's value; `None` when absent or when the stored bytes do not
    /// decode.
    pub fn get(&self, st: &Storage) -> (r: Option<T>)
        requires
            st.wf(),
        ensures
            r is Some <==> self.read(st@) is Some,
            r matches Some(v) ==> self.read(st@) == Some(v@),
    {
        match st.get(self.app(), self.key) {
            Some(bytes) => {
                let n = bytes.len();
                if n > self.max_len || (self.exact && n != self.max_len) {
                    None
                } else {
                    T::decode(bytes.as_slice())
                }
            },
            None => None,
        }
    }

    /// Overwrites the field with `value`. A value whose encoding the field
    /// cannot hold is refused with `InvalidLength` before the store is
    /// touched; a full store refuses a new key with `NoSpace`.
    pub fn set(&self, st: &mut Storage, value: T) -> (r: StorageResult<()>)
        requires
            old(st).wf(),
        ensures
            final(st).wf(),
            final(st).capacity() == old(st).capacity(),
            final(st).used() <= old(st).used() + 1,
            !self.accepts(value@) ==> r == Err::<(), Error>(Error::InvalidLength) && final(st)@
                == old(st)@,
            self.accepts(value@) && !old(st).has_room_for(self.addr()) ==> r == Err::<(), Error>(
                Error::NoSpace,
            ) && final(st)@ == old(st)@,
            self.accepts(value@) && old(st).has_room_for(self.addr()) ==> r is Ok && final(st)@
                == self.written(old(st)@, value@),
            old(st)@.contains_key(self.addr()) ==> final(st).used() == old(st).used(),
            self.stored(*old(st), *final(st), value@, r),
    {
        let bytes = value.encode();
        let n = bytes.len();
        if n > self.max_len || (self.exact && n != self.max_len) {
            return Err(Error::InvalidLength);
        }
        st.set(self.app(), self.key, bytes.as_slice())
    }
}

/// Stores `false` as the absence of the value.
impl Field<bool> {
    /// Stores `true`, or deletes the value for `false`: an absent flag reads
    /// as `false`.
    pub fn set_true_or_delete(&self, st: &mut Storage, value: bool) -> (r: StorageResult<()>)
        requires
            old(st).wf(),
            self.max_len >= 1,
            self.exact ==> self.max_len == 1,
        ensures
            final(st).wf(),
            final(st).capacity() == old(st).capacity(),
            final(st).used() <= old(st).used() + 1,
            value && old(st).has_room_for(self.addr()) ==> r is Ok && final(st)@ == self.written(
                old(st)@,
                true,
            ),
            value && !old(st).has_room_for(self.addr()) ==> r == Err::<(), Error>(Error::NoSpace)
                && final(st)@ == old(st)@ && final(st).used() == old(st).used(),
            !value ==> r is Ok && final(st)@ == old(st)@.remove(self.addr()) && final(st).used()
                <= old(st).used(),
            value && old(st)@.contains_key(self.addr()) ==> final(st).used() == old(st).used(),
    {
        if value {
            self.set(st, true)
        } else {
            self.delete(st)
        }
    }
}

/// A value that a field accepts reads back as itself after it was set,
/// whatever else the store holds.
pub proof fn lemma_round_trip<T: Encodable>(f: Field<T>, m: Map<AppKey, Seq<u8>>, v: T::V)
    requires
        f.accepts(v),
    ensures
        f.read(f.written(m, v)) == Some(v),
{
    T::lemma_decode_encode(v);
}

/// After a field was deleted it is absent and reads as nothing.
pub proof fn lemma_absent_after_delete<T: Encodable>(f: Field<T>, m: Map<AppKey, Seq<u8>>)
    ensures
        !m.remove(f.addr()).contains_key(f.addr()),
        f.read(m.remove(f.addr())) is None,
{
}

/// Storing `false` in a boolean field leaves it absent; storing `true` reads
/// back as `true`.
pub proof fn lemma_true_or_delete(f: Field<bool>, m: Map<AppKey, Seq<u8>>)
    requires
        f.fits(1),
    ensures
        !m.remove(f.addr()).contains_key(f.addr()),
        f.read(f.written(m, true)) == Some(true),
{
}

/// Presence and removal, common to fields of every value type.
pub trait FieldOpsBase {
    spec fn address(&self) -> AppKey;

    fn has(&self, st: &Storage) -> (r: bool)
        requires
            st.wf(),
        ensures
            r == st@.contains_key(self.address()),
    ;

    fn delete(&self, st: &mut Storage) -> (r: StorageResult<()>)
        requires
            old(st).wf(),
        ensures
            final(st).wf(),
            r is Ok,
            final(st)@ == old(st)@.remove(self.address()),
            final(st).capacity() == old(st).capacity(),
            final(st).used() <= old(st).used(),
    ;
}

/// Reading and writing a value of type `T`.
pub trait FieldGetSet<T: Encodable> {
    spec fn location(&self) -> AppKey;

    /// Whether the field can hold `v`.
    spec fn holds(&self, v: T::V) -> bool;

    /// The value read from store contents `m`.
    spec fn value_in(&self, m: Map<AppKey, Seq<u8>>) -> Option<T::V>;

    fn get(&self, st: &Storage) -> (r: Option<T>)
        requires
            st.wf(),
        ensures
            r is Some <==> self.value_in(st@) is Some,
            r matches Some(v) ==> self.value_in(st@) == Some(v@),
    ;

    fn set(&self, st: &mut Storage, value: T) -> (r: StorageResult<()>)
        requires
            old(st).wf(),
        ensures
            final(st).wf(),
            final(st).capacity() == old(st).capacity(),
            !self.holds(value@) ==> r == Err::<(), Error>(Error::InvalidLength) && final(st)@
                == old(st)@,
            self.holds(value@) && !old(st).has_room_for(self.location())
                ==> r == Err::<(), Error>(Error::NoSpace) && final(st)@ == old(st)@,
            self.holds(value@) && old(st).has_room_for(self.location())
                ==> r is Ok && final(st)@ == old(st)@.insert(self.location(), T::encoding(value@)),
    ;
}

/// A field with all its operations.
pub trait FieldOps<T: Encodable>: FieldOpsBase + FieldGetSet<T> {

}

impl<T> FieldOpsBase for Field<T> {
    open spec fn address(&self) -> AppKey {
        self.addr()
    }

    fn has(&self, st: &Storage) -> (r: bool) {
        Field::has(self, st)
    }

    fn delete(&self, st: &mut Storage) -> (r: StorageResult<()>) {
        Field::delete(self, st)
    }
}

impl<T: Encodable> FieldGetSet<T> for Field<T> {
    open spec fn location(&self) -> AppKey {
        self.addr()
    }

    open spec fn holds(&self, v: T::V) -> bool {
        self.accepts(v)
    }

    open spec fn value_in(&self, m: Map<AppKey, Seq<u8>>) -> Option<T::V> {
        self.read(m)
    }

    fn get(&self, st: &Storage) -> (r: Option<T>) {
        Field::get(self, st)
    }

    fn set(&self, st: &mut Storage, value: T) -> (r: StorageResult<()>) {
        Field::set(self, st, value)
    }
}

impl<T: Encodable> FieldOps<T> for Field<T> {

}

/// A field as offered to the host runtime.
pub struct FieldObj<T> {
    pub field: Field<T>,
}

impl<T: Encodable> FieldObj<T> {
    pub fn from(field: Field<T>) -> (r: Self)
        ensures
            r.field == field,
    {
        FieldObj { field }
    }

    /// The value handed to the host: the field's value, or nothing.
    pub fn obj_get(&self, st: &Storage) -> (r: Option<T>)
        requires
            st.wf(),
        ensures
            r is Some <==> self.field.read(st@) is Some,
            r matches Some(v) ==> self.field.read(st@) == Some(v@),
    {
        self.field.get(st)
    }
}

impl<T> FieldOpsBase for FieldObj<T> {
    open spec fn address(&self) -> AppKey {
        self.field.addr()
    }

    fn has(&self, st: &Storage) -> (r: bool) {
        self.field.has(st)
    }

    fn delete(&self, st: &mut Storage) -> (r: StorageResult<()>) {
        self.field.delete(st)
    }
}

impl<T: Encodable> FieldGetSet<T> for FieldObj<T> {
    open spec fn location(&self) -> AppKey {
        self.field.addr()
    }

    open spec fn holds(&self, v: T::V) -> bool {
        self.field.accepts(v)
    }

    open spec fn value_in(&self, m: Map<AppKey, Seq<u8>>) -> Option<T::V> {
        self.field.read(m)
    }

    fn get(&self, st: &Storage) -> (r: Option<T>) {
        self.field.get(st)
    }

    fn set(&self, st: &mut Storage, value: T) -> (r: StorageResult<()>) {
        self.field.set(st, value)
    }
}

impl<T: Encodable> FieldOps<T> for FieldObj<T> {

}

} // verus!
