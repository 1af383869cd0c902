use storagedevice::counter::MonotonicCounter;
use storagedevice::field::{Field, FieldGetSet, FieldObj, FieldOpsBase};
use storagedevice::hex::hexlify_bytes;
use storagedevice::recovery_shares::{
    delete_all_recovery_shares, fetch_group, get_share_string, set_share,
};
use storagedevice::error::Error;
use storagedevice::storage::Storage;

#[test]
fn round_trip_every_value_type() {
    let mut st = Storage::new(16);
    let f8 = Field::<u8>::private(0x05, 0x01, 1);
    let f16 = Field::<u16>::private(0x05, 0x02, 2);
    let f32 = Field::<u32>::public(0x05, 0x03, 4);
    let fb = Field::<bool>::public_writable(0x05, 0x04, 1);
    let ft = Field::<String>::private(0x05, 0x05, 8);
    let fv = Field::<Vec<u8>>::private(0x05, 0x06, 4).exact();
    f8.set(&mut st, 200).unwrap();
    f16.set(&mut st, 0xbeef).unwrap();
    f32.set(&mut st, 0xdead_beef).unwrap();
    fb.set(&mut st, false).unwrap();
    ft.set(&mut st, String::from("ab€")).unwrap();
    fv.set(&mut st, vec![1, 2, 3, 4]).unwrap();
    assert_eq!(f8.get(&st), Some(200));
    assert_eq!(f16.get(&st), Some(0xbeef));
    assert_eq!(f32.get(&st), Some(0xdead_beef));
    assert_eq!(fb.get(&st), Some(false));
    assert_eq!(ft.get(&st), Some(String::from("ab€")));
    assert_eq!(fv.get(&st), Some(vec![1, 2, 3, 4]));
    // visibility flags are part of the address
    assert!(st.has(0x85, 0x03));
    assert!(st.has(0xC5, 0x04));
    assert!(st.has(0x05, 0x01));
}

#[test]
fn length_rules() {
    let mut st = Storage::new(16);
    let ft = Field::<String>::private(0x05, 0x05, 3);
    assert_eq!(ft.set(&mut st, String::from("abcd")), Err(Error::InvalidLength));
    assert_eq!(ft.set(&mut st, String::from("€€")), Err(Error::InvalidLength));
    ft.set(&mut st, String::from("€")).unwrap();
    let fv = Field::<Vec<u8>>::private(0x05, 0x06, 4).exact();
    assert_eq!(fv.set(&mut st, vec![1, 2, 3]), Err(Error::InvalidLength));
    assert_eq!(fv.set(&mut st, vec![1, 2, 3, 4, 5]), Err(Error::InvalidLength));
    assert!(!fv.has(&st));
}

#[test]
fn undecodable_bytes_read_as_absent() {
    let mut st = Storage::new(16);
    let f16 = Field::<u16>::private(0x05, 0x02, 2);
    st.set(0x05, 0x02, &[1]).unwrap();
    assert!(f16.has(&st));
    assert_eq!(f16.get(&st), None);
}

#[test]
fn absent_after_delete() {
    let mut st = Storage::new(16);
    let f = Field::<u32>::private(0x05, 0x07, 4);
    f.set(&mut st, 9).unwrap();
    assert!(f.has(&st));
    f.delete(&mut st).unwrap();
    assert!(!f.has(&st));
    assert_eq!(f.get(&st), None);
    // deleting again is fine
    f.delete(&mut st).unwrap();
}

#[test]
fn set_true_or_delete() {
    let mut st = Storage::new(16);
    let f = Field::<bool>::private(0x05, 0x08, 1);
    f.set_true_or_delete(&mut st, true).unwrap();
    assert_eq!(f.get(&st), Some(true));
    f.set_true_or_delete(&mut st, false).unwrap();
    assert!(!f.has(&st));
    assert_eq!(f.get(&st), None);
}

#[test]
fn field_obj_forwards_to_its_field() {
    let mut st = Storage::new(16);
    let obj = FieldObj::from(Field::<u32>::public(0x10, 0x10, 4));
    assert_eq!(obj.obj_get(&st), None);
    FieldGetSet::set(&obj, &mut st, 77).unwrap();
    assert_eq!(obj.obj_get(&st), Some(77));
    assert_eq!(FieldGetSet::get(&obj, &st), Some(77));
    assert!(FieldOpsBase::has(&obj, &st));
    FieldOpsBase::delete(&obj, &mut st).unwrap();
    assert!(!FieldOpsBase::has(&obj, &st));
}

#[test]
fn monotonic_counter_survives_restart() {
    let mut st = Storage::new(4);
    let counter = MonotonicCounter::new(Field::<u32>::private(0x02, 0x01, 4));
    assert_eq!(counter.next(&mut st), Ok(0));
    assert_eq!(counter.next(&mut st), Ok(1));
    let restarted = MonotonicCounter::new(Field::<u32>::private(0x02, 0x01, 4));
    assert_eq!(restarted.next(&mut st), Ok(2));
}

#[test]
fn hexlify() {
    assert_eq!(hexlify_bytes(&[]), "");
    assert_eq!(hexlify_bytes(&[0x00, 0x9f, 0xa0, 0xff]), "009fa0ff");
}

#[test]
fn recovery_shares_fetch_group() {
    let mut st = Storage::new(300);
    set_share(&mut st, 2, 1, "wordA").unwrap();
    set_share(&mut st, 5, 1, "wordB").unwrap();
    set_share(&mut st, 0, 2, "other").unwrap();
    let group = fetch_group(&st, 1).unwrap();
    assert_eq!(group.as_slice(), &[String::from("wordA"), String::from("wordB")]);
    assert_eq!(get_share_string(&st, 2, 1).unwrap(), "wordA");
    assert_eq!(get_share_string(&st, 3, 1).unwrap(), "");
    // folded key: index + group * 16
    assert!(st.has(0x03, 2 + 16));
    assert!(st.has(0x03, 5 + 16));
    delete_all_recovery_shares(&mut st).unwrap();
    assert!(fetch_group(&st, 1).unwrap().as_slice().is_empty());
    assert!(fetch_group(&st, 2).unwrap().as_slice().is_empty());
    delete_all_recovery_shares(&mut st).unwrap();
}

#[test]
fn recovery_shares_empty_text_skipped() {
    let mut st = Storage::new(300);
    set_share(&mut st, 15, 15, "last").unwrap();
    set_share(&mut st, 3, 15, "").unwrap();
    assert_eq!(fetch_group(&st, 15).unwrap().as_slice(), &[String::from("last")]);
    assert!(st.has(0x03, 255));
}

#[test]
fn recovery_shares_index_range() {
    let mut st = Storage::new(300);
    assert_eq!(set_share(&mut st, 16, 0, "x"), Err(Error::IndexOutOfRange));
    assert_eq!(set_share(&mut st, 0, 16, "x"), Err(Error::IndexOutOfRange));
    assert_eq!(get_share_string(&st, 16, 0), Err(Error::IndexOutOfRange));
    assert_eq!(fetch_group(&st, 16).err(), Some(Error::IndexOutOfRange));
    let long = "w".repeat(257);
    assert_eq!(set_share(&mut st, 0, 0, &long), Err(Error::InvalidLength));
}

#[test]
fn full_group_holds_sixteen_shares() {
    let mut st = Storage::new(300);
    for i in 0..16u8 {
        set_share(&mut st, i, 4, &format!("w{}", i)).unwrap();
    }
    let group = fetch_group(&st, 4).unwrap();
    assert_eq!(group.len(), 16);
    assert_eq!(group[0], "w0");
    assert_eq!(group[15], "w15");
}

#[test]
fn delete_all_keeps_other_namespaces() {
    let mut st = Storage::new(300);
    st.set(0x01, 0x03, &[1]).unwrap();
    set_share(&mut st, 1, 1, "w").unwrap();
    delete_all_recovery_shares(&mut st).unwrap();
    assert!(st.has(0x01, 0x03));
    assert!(!st.has(0x03, 17));
}
