use storagedevice::device::{
    _normalize_autolock_delay, delete_private_u2f_counter, get_autolock_delay_ms,
    get_backup_type, get_device_id, get_experimental_features, get_flags, get_label,
    get_mnemonic_secret, get_needs_backup, get_next_u2f_counter, get_no_backup,
    get_passphrase_always_on_device, get_private_u2f_counter, get_rotation,
    get_safety_check_level, get_sd_salt_auth_key, get_slip39_identifier,
    get_slip39_iteration_exponent, get_unfinished_backup, get_version, is_initialized,
    is_passphrase_enabled, is_version_stored, set_autolock_delay_ms, set_backed_up,
    set_device_id, set_experimental_features, set_flags, set_homescreen, set_is_initialized,
    set_label,
    set_mnemonic_secret, set_passphrase_always_on_device, set_passphrase_enabled, set_rotation,
    set_safety_check_level, set_sd_salt_auth_key, set_slip39_identifier,
    set_slip39_iteration_exponent, set_u2f_counter, set_unfinished_backup, set_version,
    AUTOLOCK_DELAY_DEFAULT, AUTOLOCK_DELAY_MAXIMUM, AUTOLOCK_DELAY_MINIMUM,
    STORAGE_VERSION_CURRENT,
};
use storagedevice::error::Error;
use storagedevice::storage::Storage;

fn store() -> Storage {
    Storage::new(64)
}

#[test]
fn normalize_autolock_delay_small() {
    let result = _normalize_autolock_delay(123);
    assert_eq!(result, AUTOLOCK_DELAY_MINIMUM);
}

#[test]
fn normalize_autolock_delay_big() {
    let result = _normalize_autolock_delay(u32::MAX);
    assert_eq!(result, AUTOLOCK_DELAY_MAXIMUM);
}

#[test]
fn normalize_autolock_delay_normal() {
    let result = _normalize_autolock_delay(1_000_000);
    assert_eq!(result, 1_000_000);
}

#[test]
fn autolock_constants() {
    assert_eq!(AUTOLOCK_DELAY_MINIMUM, 60_000);
    assert_eq!(AUTOLOCK_DELAY_MAXIMUM, 0x2000_0000);
    assert_eq!(AUTOLOCK_DELAY_DEFAULT, 600_000);
}

#[test]
fn autolock_delay_clamped_on_read() {
    let mut st = store();
    assert_eq!(get_autolock_delay_ms(&st), 600_000);
    set_autolock_delay_ms(&mut st, 123).unwrap();
    assert_eq!(get_autolock_delay_ms(&st), 60_000);
    set_autolock_delay_ms(&mut st, u32::MAX).unwrap();
    assert_eq!(get_autolock_delay_ms(&st), 0x2000_0000);
    set_autolock_delay_ms(&mut st, 1_000_000).unwrap();
    assert_eq!(get_autolock_delay_ms(&st), 1_000_000);
    // the raw value stays as written
    set_autolock_delay_ms(&mut st, 5).unwrap();
    assert_eq!(st.get(0x01, 0x0C), Some(vec![0, 0, 0, 5]));
}

#[test]
fn rotation_validation() {
    let mut st = store();
    assert_eq!(get_rotation(&st), 0);
    assert_eq!(set_rotation(&mut st, 45), Err(Error::InvalidRotation));
    assert_eq!(get_rotation(&st), 0);
    set_rotation(&mut st, 90).unwrap();
    assert_eq!(get_rotation(&st), 90);
    set_rotation(&mut st, 270).unwrap();
    assert_eq!(get_rotation(&st), 270);
    assert_eq!(set_rotation(&mut st, 360), Err(Error::InvalidRotation));
    assert_eq!(get_rotation(&st), 270);
}

#[test]
fn flags_accumulate() {
    let mut st = store();
    assert_eq!(get_flags(&st), 0);
    set_flags(&mut st, 0b0001).unwrap();
    set_flags(&mut st, 0b0010).unwrap();
    assert_eq!(get_flags(&st), 0b0011);
    set_flags(&mut st, 0).unwrap();
    assert_eq!(get_flags(&st), 0b0011);
}

#[test]
fn flags_stored_big_endian() {
    let mut st = store();
    set_flags(&mut st, 0x0102_0304).unwrap();
    assert_eq!(st.get(0x01, 0x08), Some(vec![1, 2, 3, 4]));
    assert_eq!(get_flags(&st), 0x0102_0304);
}

#[test]
fn u2f_counter_strictly_increasing() {
    let mut st = store();
    let a = get_next_u2f_counter(&mut st).unwrap();
    let b = get_next_u2f_counter(&mut st).unwrap();
    let c = get_next_u2f_counter(&mut st).unwrap();
    assert_eq!((a, b, c), (0, 1, 2));
    // a restart keeps the store; the counter goes on from there
    let mut restarted = st;
    assert_eq!(get_next_u2f_counter(&mut restarted).unwrap(), 3);
}

#[test]
fn u2f_counter_set_and_overflow() {
    let mut st = store();
    set_u2f_counter(&mut st, 100).unwrap();
    assert_eq!(get_next_u2f_counter(&mut st), Ok(101));
    set_u2f_counter(&mut st, u32::MAX).unwrap();
    assert_eq!(get_next_u2f_counter(&mut st), Err(Error::CounterOverflow));
    assert_eq!(get_next_u2f_counter(&mut st), Err(Error::CounterOverflow));
}

#[test]
fn u2f_counter_apart_from_private_counter() {
    let mut st = store();
    assert_eq!(get_next_u2f_counter(&mut st), Ok(0));
    assert_eq!(get_private_u2f_counter(&st), None);
    st.set(0x01, 0x09, &[7]).unwrap();
    assert_eq!(get_private_u2f_counter(&st), Some(7));
    assert_eq!(get_next_u2f_counter(&mut st), Ok(1));
}

#[test]
fn delete_private_u2f_counter_removes_only_it() {
    let mut st = store();
    st.set(0x01, 0x09, &[7]).unwrap();
    set_experimental_features(&mut st, true).unwrap();
    delete_private_u2f_counter(&mut st).unwrap();
    assert_eq!(get_private_u2f_counter(&st), None);
    assert!(get_experimental_features(&st));
}

#[test]
fn mnemonic_secret_without_backup() {
    let mut st = store();
    set_mnemonic_secret(&mut st, b"secret words", 1, true, true).unwrap();
    assert!(!get_needs_backup(&st));
    assert!(get_no_backup(&st));
    assert_eq!(get_version(&st), Some(vec![STORAGE_VERSION_CURRENT]));
    assert!(is_version_stored(&st));
    assert!(is_initialized(&st));
    assert_eq!(get_backup_type(&st), Ok(1));
    assert_eq!(get_mnemonic_secret(&st), Some(b"secret words".to_vec()));
}

#[test]
fn mnemonic_secret_needs_backup_then_backed_up() {
    let mut st = store();
    set_mnemonic_secret(&mut st, &[1, 2, 3], 0, true, false).unwrap();
    assert!(get_needs_backup(&st));
    assert!(!get_no_backup(&st));
    set_backed_up(&mut st).unwrap();
    assert!(!get_needs_backup(&st));
    assert!(!st.has(0x01, 0x07));
}

#[test]
fn mnemonic_secret_defaults_store_no_flags() {
    let mut st = store();
    set_mnemonic_secret(&mut st, &[9], 2, false, false).unwrap();
    assert!(!st.has(0x01, 0x07));
    assert!(!st.has(0x01, 0x0D));
    assert_eq!(get_backup_type(&st), Ok(2));
}

#[test]
fn mnemonic_secret_too_long_changes_nothing() {
    let mut st = store();
    let secret = vec![0u8; 257];
    assert_eq!(set_mnemonic_secret(&mut st, &secret, 1, false, false), Err(Error::InvalidLength));
    assert!(!is_version_stored(&st));
    assert_eq!(get_mnemonic_secret(&st), None);
    let longest = vec![5u8; 256];
    set_mnemonic_secret(&mut st, &longest, 1, false, false).unwrap();
    assert_eq!(get_mnemonic_secret(&st), Some(longest));
}

#[test]
fn mnemonic_secret_out_of_room() {
    let mut st = Storage::new(2);
    assert_eq!(set_mnemonic_secret(&mut st, &[1], 1, false, false), Err(Error::NoSpace));
    // the writes made before the store filled up stay
    assert!(is_version_stored(&st));
    assert_eq!(get_mnemonic_secret(&st), Some(vec![1]));
    assert!(!is_initialized(&st));
}

#[test]
fn passphrase_dependency() {
    let mut st = store();
    set_passphrase_enabled(&mut st, true).unwrap();
    set_passphrase_always_on_device(&mut st, true).unwrap();
    assert!(get_passphrase_always_on_device(&st));
    set_passphrase_enabled(&mut st, false).unwrap();
    assert!(!get_passphrase_always_on_device(&st));
    assert!(!is_passphrase_enabled(&st));
}

#[test]
fn passphrase_enabled_keeps_always_on_device() {
    let mut st = store();
    set_passphrase_always_on_device(&mut st, true).unwrap();
    set_passphrase_enabled(&mut st, true).unwrap();
    assert!(is_passphrase_enabled(&st));
    assert!(get_passphrase_always_on_device(&st));
}

#[test]
fn passphrase_always_on_device_legacy_bytes() {
    let mut st = store();
    st.set(0x01, 0x0A, &[2]).unwrap();
    assert!(!get_passphrase_always_on_device(&st));
    st.set(0x01, 0x0A, &[1]).unwrap();
    assert!(get_passphrase_always_on_device(&st));
}

#[test]
fn device_id_generated_once() {
    let mut st = store();
    let fresh = [0x00, 0x01, 0x0a, 0xff, 0x10, 0x20, 0x30, 0x40, 0x50, 0x60, 0x70, 0x8e];
    let id = get_device_id(&mut st, &fresh).unwrap();
    assert_eq!(id, "00010aff102030405060708e");
    let again = get_device_id(&mut st, &[0xaa; 12]).unwrap();
    assert_eq!(again, "00010aff102030405060708e");
}

#[test]
fn device_id_set_exact_length() {
    let mut st = store();
    assert_eq!(set_device_id(&mut st, "abc"), Err(Error::InvalidLength));
    set_device_id(&mut st, "0123456789ABCDEF01234567").unwrap();
    assert_eq!(get_device_id(&mut st, &[0; 12]).unwrap(), "0123456789ABCDEF01234567");
}

#[test]
fn device_id_regenerated_when_corrupt() {
    let mut st = store();
    st.set(0x81, 0x00, b"short").unwrap();
    let id = get_device_id(&mut st, &[0x11; 12]).unwrap();
    assert_eq!(id, "111111111111111111111111");
}

#[test]
fn label_round_trip_and_limits() {
    let mut st = store();
    assert_eq!(get_label(&st), None);
    set_label(&mut st, "My Tréžor").unwrap();
    assert_eq!(get_label(&st), Some(String::from("My Tréžor")));
    let long = "x".repeat(33);
    assert_eq!(set_label(&mut st, &long), Err(Error::InvalidLength));
    assert_eq!(get_label(&st), Some(String::from("My Tréžor")));
    let longest = "y".repeat(32);
    set_label(&mut st, &longest).unwrap();
    assert_eq!(get_label(&st), Some(longest));
}

#[test]
fn label_invalid_utf8_reads_as_absent() {
    let mut st = store();
    st.set(0x81, 0x04, &[0x66, 0xff, 0x66]).unwrap();
    assert_eq!(get_label(&st), None);
    st.set(0x81, 0x04, &[0x68, 0x69]).unwrap();
    assert_eq!(get_label(&st), Some(String::from("hi")));
}

#[test]
fn version_exact_length() {
    let mut st = store();
    assert_eq!(set_version(&mut st, &[1, 2]), Err(Error::InvalidLength));
    assert_eq!(set_version(&mut st, &[]), Err(Error::InvalidLength));
    assert!(!is_version_stored(&st));
    set_version(&mut st, &[3]).unwrap();
    assert_eq!(get_version(&st), Some(vec![3]));
}

#[test]
fn sd_salt_auth_key_rules() {
    let mut st = store();
    assert_eq!(get_sd_salt_auth_key(&st), None);
    assert_eq!(set_sd_salt_auth_key(&mut st, &[1; 15]), Err(Error::InvalidLength));
    set_sd_salt_auth_key(&mut st, &[7; 16]).unwrap();
    assert_eq!(get_sd_salt_auth_key(&st), Some(vec![7; 16]));
    set_sd_salt_auth_key(&mut st, &[]).unwrap();
    assert_eq!(get_sd_salt_auth_key(&st), None);
    assert!(!st.has(0x81, 0x12));
}

#[test]
fn sd_salt_auth_key_wrong_stored_length_reads_as_absent() {
    let mut st = store();
    st.set(0x81, 0x12, &[1; 17]).unwrap();
    assert_eq!(get_sd_salt_auth_key(&st), None);
}

#[test]
fn safety_check_level_rules() {
    let mut st = store();
    assert_eq!(get_safety_check_level(&st), 0);
    assert_eq!(set_safety_check_level(&mut st, 2), Err(Error::InvalidSafetyCheckLevel));
    set_safety_check_level(&mut st, 1).unwrap();
    assert_eq!(get_safety_check_level(&st), 1);
    st.set(0x01, 0x14, &[5]).unwrap();
    assert_eq!(get_safety_check_level(&st), 0);
}

#[test]
fn backup_type_rules() {
    let mut st = store();
    assert_eq!(get_backup_type(&st), Ok(0));
    st.set(0x01, 0x0E, &[3]).unwrap();
    assert_eq!(get_backup_type(&st), Err(Error::InvalidBackupType));
    st.set(0x01, 0x0E, &[2]).unwrap();
    assert_eq!(get_backup_type(&st), Ok(2));
}

#[test]
fn boolean_settings_delete_on_false() {
    let mut st = store();
    set_unfinished_backup(&mut st, true).unwrap();
    assert!(get_unfinished_backup(&st));
    set_unfinished_backup(&mut st, false).unwrap();
    assert!(!get_unfinished_backup(&st));
    assert!(!st.has(0x01, 0x0B));
    set_experimental_features(&mut st, true).unwrap();
    assert_eq!(st.get(0x01, 0x15), Some(vec![1]));
    set_experimental_features(&mut st, false).unwrap();
    assert!(!st.has(0x01, 0x15));
    assert!(!get_experimental_features(&st));
}

#[test]
fn slip39_parameters() {
    let mut st = store();
    assert_eq!(get_slip39_identifier(&st), None);
    assert_eq!(get_slip39_iteration_exponent(&st), None);
    set_slip39_identifier(&mut st, 0x7fff).unwrap();
    set_slip39_iteration_exponent(&mut st, 3).unwrap();
    assert_eq!(get_slip39_identifier(&st), Some(0x7fff));
    assert_eq!(get_slip39_iteration_exponent(&st), Some(3));
    assert_eq!(st.get(0x01, 0x10), Some(vec![0x7f, 0xff]));
}

#[test]
fn homescreen_limit() {
    let mut st = store();
    assert_eq!(set_homescreen(&mut st, &vec![0u8; 16385]), Err(Error::InvalidLength));
    set_homescreen(&mut st, &vec![3u8; 16384]).unwrap();
    assert_eq!(st.get(0x81, 0x06).map(|v| v.len()), Some(16384));
}

#[test]
fn full_store_refuses_new_keys() {
    let mut st = Storage::new(1);
    set_flags(&mut st, 1).unwrap();
    assert_eq!(set_rotation(&mut st, 90), Err(Error::NoSpace));
    assert_eq!(get_rotation(&st), 0);
    // an existing key can still be overwritten
    set_flags(&mut st, 2).unwrap();
    assert_eq!(get_flags(&st), 3);
}

#[test]
fn no_backup_clears_earlier_needs_backup_flag() {
    let mut st = store();
    set_mnemonic_secret(&mut st, &[1], 1, true, false).unwrap();
    assert!(get_needs_backup(&st));
    set_mnemonic_secret(&mut st, &[2], 1, true, true).unwrap();
    assert!(!get_needs_backup(&st));
    assert!(!st.has(0x01, 0x07));
    assert!(get_no_backup(&st));
}

#[test]
fn mnemonic_secret_fails_at_first_write_without_room() {
    // room for four keys: version, secret, backup type, initialized
    let mut st = Storage::new(4);
    set_mnemonic_secret(&mut st, &[1], 1, false, false).unwrap();
    // rewriting needs no new key, so it succeeds with the store full
    set_mnemonic_secret(&mut st, &[2], 0, false, false).unwrap();
    assert_eq!(get_mnemonic_secret(&st), Some(vec![2]));
    // the no-backup flag is a new key: writes before it stay, later ones are not made
    set_is_initialized(&mut st, false).unwrap();
    assert_eq!(set_mnemonic_secret(&mut st, &[3], 2, false, true), Err(Error::NoSpace));
    assert_eq!(get_mnemonic_secret(&st), Some(vec![3]));
    assert_eq!(get_backup_type(&st), Ok(2));
    assert!(!get_no_backup(&st));
    assert!(!is_initialized(&st));
}

#[test]
fn passphrase_disable_out_of_room() {
    let mut st = Storage::new(1);
    assert_eq!(set_passphrase_enabled(&mut st, false), Err(Error::NoSpace));
    // the first write stays
    assert!(st.has(0x01, 0x05));
    assert!(!is_passphrase_enabled(&st));
    assert!(!st.has(0x01, 0x0A));
}
