//! Recovery-share mnemonics, addressed by share index and group index, both
//! in `0..16`, and folded into one key byte as `index + group_index * 16`.

use vstd::prelude::*;

use crate::error::{Error, StorageResult};
use crate::field::Field;
use crate::registry::{
    share, spec_share, APP_RECOVERY_SHARES, MAX_GROUP_COUNT, MAX_SHARE_COUNT, SHARE_MAXLENGTH,
};
use crate::storage::{AppKey, Storage};

verus! {

pub open spec fn in_range(index: u8, group_index: u8) -> bool {
    index < MAX_SHARE_COUNT && group_index < MAX_GROUP_COUNT
}

/// The text of a share: what is stored, or empty text where nothing readable
/// is.
pub open spec fn share_text(m: Map<AppKey, Seq<u8>>, index: u8, group_index: u8) -> Seq<char> {
    match spec_share(index, group_index).read(m) {
        Some(s) => s,
        None => seq![],
    }
}

/// The non-empty shares of a group among indices `0..n`, in ascending index
/// order.
pub open spec fn group_shares_upto(m: Map<AppKey, Seq<u8>>, group_index: u8, n: nat) -> Seq<
    Seq<char>,
>
    decreases n,
{
    if n == 0 {
        seq![]
    } else {
        let prev = group_shares_upto(m, group_index, (n - 1) as nat);
        let s = share_text(m, (n - 1) as u8, group_index);
        if s.len() > 0 {
            prev.push(s)
        } else {
            prev
        }
    }
}

/// The non-empty shares of a group, in ascending index order.
pub open spec fn group_shares(m: Map<AppKey, Seq<u8>>, group_index: u8) -> Seq<Seq<char>> {
    group_shares_upto(m, group_index, MAX_SHARE_COUNT as nat)
}

#[verifier::external_type_specification]
#[verifier::external_body]
#[verifier::reject_recursive_types(T)]
pub struct ExHeaplessVec<T, const N: usize>(heapless::Vec<T, N>);

/// The shares of one group: at most one per share index.
pub type ShareList = heapless::Vec<String, 16>;

/// The texts that a share list holds, in order.
pub uninterp spec fn share_list_items(v: heapless::Vec<String, 16>) -> Seq<Seq<char>>;

/// Relies on `heapless::Vec::new`: the new vector is empty.
#[verifier::external_body]
fn share_list_new() -> (r: ShareList)
    ensures
        share_list_items(r) == Seq::<Seq<char>>::empty(),
{
    heapless::Vec::new()
}

/// Relies on `heapless::Vec::push`: with fewer than 16 items held the item is
/// appended; otherwise the vector stays as it was and the item comes back.
#[verifier::external_body]
fn share_list_push(v: &mut ShareList, item: String) -> (r: Result<(), String>)
    ensures
        share_list_items(*old(v)).len() < 16 ==> r is Ok && share_list_items(*final(v))
            == share_list_items(*old(v)).push(item@),
        share_list_items(*old(v)).len() >= 16 ==> r is Err && share_list_items(*final(v))
            == share_list_items(*old(v)),
{
    v.push(item)
}

proof fn lemma_group_shares_len(m: Map<AppKey, Seq<u8>>, group_index: u8, n: nat)
    ensures
        group_shares_upto(m, group_index, n).len() <= n,
    decreases n,
{
    if n > 0 {
        lemma_group_shares_len(m, group_index, (n - 1) as nat);
    }
}

/// Every address in the recovery-share namespace.
pub open spec fn share_addrs() -> Set<AppKey> {
    Set::new(|k: AppKey| k.0 == APP_RECOVERY_SHARES)
}

/// The stored share, or empty text when there is none.
pub fn get_share_string(st: &Storage, index: u8, group_index: u8) -> (r: StorageResult<String>)
    requires
        st.wf(),
    ensures
        !in_range(index, group_index) ==> r == Err::<String, Error>(Error::IndexOutOfRange),
        in_range(index, group_index)
            ==> (r matches Ok(s) && s@ == share_text(st@, index, group_index)),
{
    if index >= MAX_SHARE_COUNT || group_index >= MAX_GROUP_COUNT {
        return Err(Error::IndexOutOfRange);
    }
    match share(index, group_index).get(st) {
        Some(s) => Ok(s),
        None => Ok(String::new()),
    }
}

/// Stores a share; text longer than 256 bytes is refused. What the text says
/// is not checked here.
pub fn set_share(st: &mut Storage, index: u8, group_index: u8, mnemonic: &str) -> (r:
    StorageResult<()>)
    requires
        old(st).wf(),
    ensures
        !in_range(index, group_index) ==> r == Err::<(), Error>(Error::IndexOutOfRange)
            && *final(st) == *old(st),
        in_range(index, group_index) ==> spec_share(index, group_index).stored(
            *old(st),
            *final(st),
            mnemonic@,
            r,
        ),
{
    if index >= MAX_SHARE_COUNT || group_index >= MAX_GROUP_COUNT {
        return Err(Error::IndexOutOfRange);
    }
    share(index, group_index).set(st, mnemonic.to_owned())
}

/// The non-empty shares of a group, in ascending index order; empty slots are
/// skipped.
pub fn fetch_group(st: &Storage, group_index: u8) -> (r: StorageResult<ShareList>)
    requires
        st.wf(),
    ensures
        group_index >= MAX_GROUP_COUNT ==> r == Err::<ShareList, Error>(Error::IndexOutOfRange),
        group_index < MAX_GROUP_COUNT
            ==> (r matches Ok(v) && share_list_items(v) == group_shares(st@, group_index)),
{
    if group_index >= MAX_GROUP_COUNT {
        return Err(Error::IndexOutOfRange);
    }
    let mut result = share_list_new();
    let mut index: u8 = 0;
    while index < MAX_SHARE_COUNT
        invariant
            st.wf(),
            group_index < MAX_GROUP_COUNT,
            index <= MAX_SHARE_COUNT,
            share_list_items(result) == group_shares_upto(st@, group_index, index as nat),
        decreases MAX_SHARE_COUNT - index,
    {
        let s = match get_share_string(st, index, group_index) {
            Ok(s) => s,
            Err(e) => return Err(e),
        };
        if !s.as_str().is_empty() {
            proof {
                lemma_group_shares_len(st@, group_index, index as nat);
            }
            let _ = share_list_push(&mut result, s);
        }
        index += 1;
    }
    Ok(result)
}

/// Removes every share of every group, set or not.
pub fn delete_all_recovery_shares(st: &mut Storage) -> (r: StorageResult<()>)
    requires
        old(st).wf(),
    ensures
        final(st).wf(),
        final(st).capacity() == old(st).capacity(),
        final(st).used() <= old(st).used(),
        r is Ok,
        final(st)@ == old(st)@.remove_keys(share_addrs()),
{
    let mut i: u16 = 0;
    while i < 256
        invariant
            st.wf(),
            st.capacity() == old(st).capacity(),
            st.used() <= old(st).used(),
            i <= 256,
            st@ == old(st)@.remove_keys(
                Set::new(|k: AppKey| k.0 == APP_RECOVERY_SHARES && (k.1 as int) < i),
            ),
        decreases 256 - i,
    {
        let _ = Field::<String>::private(APP_RECOVERY_SHARES, i as u8, SHARE_MAXLENGTH).delete(st);
        assert(st@ =~= old(st)@.remove_keys(
            Set::new(|k: AppKey| k.0 == APP_RECOVERY_SHARES && (k.1 as int) < i + 1),
        ));
        i += 1;
    }
    assert(Set::new(|k: AppKey| k.0 == APP_RECOVERY_SHARES && (k.1 as int) < 256)
        =~= share_addrs());
    Ok(())
}

proof fn lemma_group_empty_upto(m: Map<AppKey, Seq<u8>>, group_index: u8, n: nat)
    requires
        forall|k: AppKey| k.0 == APP_RECOVERY_SHARES ==> !#[trigger] m.contains_key(k),
    ensures
        group_shares_upto(m, group_index, n) == Seq::<Seq<char>>::empty(),
    decreases n,
{
    if n > 0 {
        lemma_group_empty_upto(m, group_index, (n - 1) as nat);
        assert(!m.contains_key(spec_share((n - 1) as u8, group_index).addr()));
    }
}

/// Once every share has been removed, each group reads as an empty list.
pub proof fn lemma_fetch_group_after_delete_all(m: Map<AppKey, Seq<u8>>, group_index: u8)
    ensures
        group_shares(m.remove_keys(share_addrs()), group_index) == Seq::<Seq<char>>::empty(),
{
    let cleared = m.remove_keys(share_addrs());
    assert forall|k: AppKey| k.0 == APP_RECOVERY_SHARES implies !#[trigger] cleared.contains_key(
        k,
    ) by {
        assert(share_addrs().contains(k));
    }
    lemma_group_empty_upto(cleared, group_index, MAX_SHARE_COUNT as nat);
}

} // verus!
