//! The catalogue of device settings: where each one is stored, its type and
//! its length rule. Every address is used by one field only.

use vstd::prelude::*;

use crate::field::{field_at, Field, Visibility};

verus! {

/// Namespace of the device settings.
pub const APP_DEVICE: u8 = 0x01;

/// Namespace of the recovery shares.
pub const APP_RECOVERY_SHARES: u8 = 0x03;

/// Length of the hexadecimal device identifier.
pub const DEVICE_ID_LEN: usize = 24;

/// Longest mnemonic secret.
pub const MNEMONIC_SECRET_MAXLENGTH: usize = 256;

/// Longest device label, in bytes.
pub const LABEL_MAXLENGTH: usize = 32;

/// Largest homescreen image, in bytes.
pub const HOMESCREEN_MAXSIZE: usize = 16384;

/// Length of the SD salt authentication key.
pub const SD_SALT_AUTH_KEY_LEN_BYTES: usize = 16;

/// Longest recovery share, in bytes.
pub const SHARE_MAXLENGTH: usize = 256;

/// Number of share slots in a group.
pub const MAX_SHARE_COUNT: u8 = 16;

/// Number of groups.
pub const MAX_GROUP_COUNT: u8 = 16;

/// Hexadecimal device identifier of exactly 24 characters.
pub open spec fn spec_device_id() -> Field<String> {
    field_at(APP_DEVICE, 0x00, Visibility::Public, DEVICE_ID_LEN, true)
}

#[verifier::when_used_as_spec(spec_device_id)]
pub fn device_id() -> (f: Field<String>)
    ensures
        f == spec_device_id(),
{
    Field::public(APP_DEVICE, 0x00, DEVICE_ID_LEN).exact()
}

/// Storage format version, one byte.
pub open spec fn spec_version() -> Field<Vec<u8>> {
    field_at(APP_DEVICE, 0x01, Visibility::Private, 1, true)
}

#[verifier::when_used_as_spec(spec_version)]
pub fn version() -> (f: Field<Vec<u8>>)
    ensures
        f == spec_version(),
{
    Field::private(APP_DEVICE, 0x01, 1).exact()
}

/// The mnemonic secret, up to 256 bytes.
pub open spec fn spec_mnemonic_secret() -> Field<Vec<u8>> {
    field_at(APP_DEVICE, 0x02, Visibility::Private, MNEMONIC_SECRET_MAXLENGTH, false)
}

#[verifier::when_used_as_spec(spec_mnemonic_secret)]
pub fn mnemonic_secret() -> (f: Field<Vec<u8>>)
    ensures
        f == spec_mnemonic_secret(),
{
    Field::private(APP_DEVICE, 0x02, MNEMONIC_SECRET_MAXLENGTH)
}

/// Device label, up to 32 bytes of text.
pub open spec fn spec_label() -> Field<String> {
    field_at(APP_DEVICE, 0x04, Visibility::Public, LABEL_MAXLENGTH, false)
}

#[verifier::when_used_as_spec(spec_label)]
pub fn label() -> (f: Field<String>)
    ensures
        f == spec_label(),
{
    Field::public(APP_DEVICE, 0x04, LABEL_MAXLENGTH)
}

/// Whether a passphrase is used.
pub open spec fn spec_use_passphrase() -> Field<bool> {
    field_at(APP_DEVICE, 0x05, Visibility::Private, 1, false)
}

#[verifier::when_used_as_spec(spec_use_passphrase)]
pub fn use_passphrase() -> (f: Field<bool>)
    ensures
        f == spec_use_passphrase(),
{
    Field::private(APP_DEVICE, 0x05, 1)
}

/// Homescreen image, up to 16 KiB.
pub open spec fn spec_homescreen() -> Field<Vec<u8>> {
    field_at(APP_DEVICE, 0x06, Visibility::Public, HOMESCREEN_MAXSIZE, false)
}

#[verifier::when_used_as_spec(spec_homescreen)]
pub fn homescreen() -> (f: Field<Vec<u8>>)
    ensures
        f == spec_homescreen(),
{
    Field::public(APP_DEVICE, 0x06, HOMESCREEN_MAXSIZE)
}

/// Whether the seed still needs a backup.
pub open spec fn spec_needs_backup() -> Field<bool> {
    field_at(APP_DEVICE, 0x07, Visibility::Private, 1, false)
}

#[verifier::when_used_as_spec(spec_needs_backup)]
pub fn needs_backup() -> (f: Field<bool>)
    ensures
        f == spec_needs_backup(),
{
    Field::private(APP_DEVICE, 0x07, 1)
}

/// Accumulated feature flags.
pub open spec fn spec_flags() -> Field<u32> {
    field_at(APP_DEVICE, 0x08, Visibility::Private, 4, false)
}

#[verifier::when_used_as_spec(spec_flags)]
pub fn flags() -> (f: Field<u32>)
    ensures
        f == spec_flags(),
{
    Field::private(APP_DEVICE, 0x08, 4)
}

/// Legacy private U2F counter.
pub open spec fn spec_u2f_counter_private() -> Field<u8> {
    field_at(APP_DEVICE, 0x09, Visibility::Private, 1, false)
}

#[verifier::when_used_as_spec(spec_u2f_counter_private)]
pub fn u2f_counter_private() -> (f: Field<u8>)
    ensures
        f == spec_u2f_counter_private(),
{
    Field::private(APP_DEVICE, 0x09, 1)
}

/// The U2F signature counter.
pub open spec fn spec_u2f_counter() -> Field<u32> {
    field_at(APP_DEVICE, 0x09, Visibility::PublicWritable, 4, false)
}

#[verifier::when_used_as_spec(spec_u2f_counter)]
pub fn u2f_counter() -> (f: Field<u32>)
    ensures
        f == spec_u2f_counter(),
{
    Field::public_writable(APP_DEVICE, 0x09, 4)
}

/// Whether the passphrase is always entered on the device.
pub open spec fn spec_passphrase_always_on_device() -> Field<bool> {
    field_at(APP_DEVICE, 0x0A, Visibility::Private, 1, false)
}

#[verifier::when_used_as_spec(spec_passphrase_always_on_device)]
pub fn passphrase_always_on_device() -> (f: Field<bool>)
    ensures
        f == spec_passphrase_always_on_device(),
{
    Field::private(APP_DEVICE, 0x0A, 1)
}

/// Whether a backup was started and not finished.
pub open spec fn spec_unfinished_backup() -> Field<bool> {
    field_at(APP_DEVICE, 0x0B, Visibility::Private, 1, false)
}

#[verifier::when_used_as_spec(spec_unfinished_backup)]
pub fn unfinished_backup() -> (f: Field<bool>)
    ensures
        f == spec_unfinished_backup(),
{
    Field::private(APP_DEVICE, 0x0B, 1)
}

/// Raw autolock delay in milliseconds.
pub open spec fn spec_autolock_delay_ms() -> Field<u32> {
    field_at(APP_DEVICE, 0x0C, Visibility::Private, 4, false)
}

#[verifier::when_used_as_spec(spec_autolock_delay_ms)]
pub fn autolock_delay_ms() -> (f: Field<u32>)
    ensures
        f == spec_autolock_delay_ms(),
{
    Field::private(APP_DEVICE, 0x0C, 4)
}

/// Whether the seed was created without a backup.
pub open spec fn spec_no_backup() -> Field<bool> {
    field_at(APP_DEVICE, 0x0D, Visibility::Private, 1, false)
}

#[verifier::when_used_as_spec(spec_no_backup)]
pub fn no_backup() -> (f: Field<bool>)
    ensures
        f == spec_no_backup(),
{
    Field::private(APP_DEVICE, 0x0D, 1)
}

/// Backup type code.
pub open spec fn spec_backup_type() -> Field<u8> {
    field_at(APP_DEVICE, 0x0E, Visibility::Private, 1, false)
}

#[verifier::when_used_as_spec(spec_backup_type)]
pub fn backup_type() -> (f: Field<u8>)
    ensures
        f == spec_backup_type(),
{
    Field::private(APP_DEVICE, 0x0E, 1)
}

/// Display rotation in degrees.
pub open spec fn spec_rotation() -> Field<u16> {
    field_at(APP_DEVICE, 0x0F, Visibility::Public, 2, false)
}

#[verifier::when_used_as_spec(spec_rotation)]
pub fn rotation() -> (f: Field<u16>)
    ensures
        f == spec_rotation(),
{
    Field::public(APP_DEVICE, 0x0F, 2)
}

/// SLIP-39 identifier used in passphrase derivation.
pub open spec fn spec_slip39_identifier() -> Field<u16> {
    field_at(APP_DEVICE, 0x10, Visibility::Private, 2, false)
}

#[verifier::when_used_as_spec(spec_slip39_identifier)]
pub fn slip39_identifier() -> (f: Field<u16>)
    ensures
        f == spec_slip39_identifier(),
{
    Field::private(APP_DEVICE, 0x10, 2)
}

/// SLIP-39 iteration exponent used in passphrase derivation.
pub open spec fn spec_slip39_iteration_exponent() -> Field<u8> {
    field_at(APP_DEVICE, 0x11, Visibility::Private, 1, false)
}

#[verifier::when_used_as_spec(spec_slip39_iteration_exponent)]
pub fn slip39_iteration_exponent() -> (f: Field<u8>)
    ensures
        f == spec_slip39_iteration_exponent(),
{
    Field::private(APP_DEVICE, 0x11, 1)
}

/// Key that authenticates the SD card salt, exactly 16 bytes.
pub open spec fn spec_sd_salt_auth_key() -> Field<Vec<u8>> {
    field_at(APP_DEVICE, 0x12, Visibility::Public, SD_SALT_AUTH_KEY_LEN_BYTES, true)
}

#[verifier::when_used_as_spec(spec_sd_salt_auth_key)]
pub fn sd_salt_auth_key() -> (f: Field<Vec<u8>>)
    ensures
        f == spec_sd_salt_auth_key(),
{
    Field::public(APP_DEVICE, 0x12, SD_SALT_AUTH_KEY_LEN_BYTES).exact()
}

/// Whether the device is initialized.
pub open spec fn spec_initialized() -> Field<bool> {
    field_at(APP_DEVICE, 0x13, Visibility::Public, 1, false)
}

#[verifier::when_used_as_spec(spec_initialized)]
pub fn initialized() -> (f: Field<bool>)
    ensures
        f == spec_initialized(),
{
    Field::public(APP_DEVICE, 0x13, 1)
}

/// Safety-check level code.
pub open spec fn spec_safety_check_level() -> Field<u8> {
    field_at(APP_DEVICE, 0x14, Visibility::Private, 1, false)
}

#[verifier::when_used_as_spec(spec_safety_check_level)]
pub fn safety_check_level() -> (f: Field<u8>)
    ensures
        f == spec_safety_check_level(),
{
    Field::private(APP_DEVICE, 0x14, 1)
}

/// Whether experimental features are on.
pub open spec fn spec_experimental_features() -> Field<bool> {
    field_at(APP_DEVICE, 0x15, Visibility::Private, 1, false)
}

#[verifier::when_used_as_spec(spec_experimental_features)]
pub fn experimental_features() -> (f: Field<bool>)
    ensures
        f == spec_experimental_features(),
{
    Field::private(APP_DEVICE, 0x15, 1)
}

/// The key under which share `index` of group `group_index` is stored.
pub open spec fn share_key(index: u8, group_index: u8) -> u8 {
    (index + group_index * MAX_SHARE_COUNT) as u8
}

/// Share `index` of group `group_index`, up to 256 bytes of text.
pub open spec fn spec_share(index: u8, group_index: u8) -> Field<String> {
    field_at(
        APP_RECOVERY_SHARES,
        share_key(index, group_index),
        Visibility::Private,
        SHARE_MAXLENGTH,
        false,
    )
}

#[verifier::when_used_as_spec(spec_share)]
pub fn share(index: u8, group_index: u8) -> (f: Field<String>)
    requires
        index < MAX_SHARE_COUNT,
        group_index < MAX_GROUP_COUNT,
    ensures
        f == spec_share(index, group_index),
{
    Field::private(APP_RECOVERY_SHARES, index + group_index * MAX_SHARE_COUNT, SHARE_MAXLENGTH)
}

} // verus!
