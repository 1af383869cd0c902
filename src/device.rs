//! Device settings: one getter and setter per setting, with the defaults,
//! whitelists and dependencies between settings.

use vstd::prelude::*;
use vstd::slice::slice_to_vec;

use crate::error::{Error, StorageResult};
use crate::field::Field;
use crate::counter::{counter_next, MonotonicCounter};
use crate::hex::{hex_ascii, hexlify_bytes};
use crate::registry::{
    autolock_delay_ms, backup_type, device_id, experimental_features, flags, homescreen,
    initialized, label, mnemonic_secret, needs_backup, no_backup, passphrase_always_on_device,
    rotation, safety_check_level, sd_salt_auth_key, slip39_identifier, slip39_iteration_exponent,
    spec_autolock_delay_ms, spec_backup_type, spec_device_id, spec_experimental_features,
    spec_flags, spec_homescreen, spec_initialized, spec_label, spec_mnemonic_secret,
    spec_needs_backup, spec_no_backup, spec_passphrase_always_on_device, spec_rotation,
    spec_safety_check_level, spec_sd_salt_auth_key, spec_slip39_identifier,
    spec_slip39_iteration_exponent, spec_u2f_counter, spec_u2f_counter_private,
    spec_unfinished_backup, spec_use_passphrase, spec_version, u2f_counter, u2f_counter_private,
    unfinished_backup, use_passphrase, version, MNEMONIC_SECRET_MAXLENGTH,
};
use vstd::utf8::encode_utf8;
use crate::storage::{AppKey, Storage};

verus! {

/// Safety checks refuse anything unusual.
pub const SAFETY_CHECK_LEVEL_STRICT: u8 = 0;

/// Safety checks ask the user instead of refusing.
pub const SAFETY_CHECK_LEVEL_PROMPT: u8 = 1;

/// Safety-check level of a device that has none stored.
pub const DEFAULT_SAFETY_CHECK_LEVEL: u8 = SAFETY_CHECK_LEVEL_STRICT;

/// Autolock delay of a device that has none stored: ten minutes.
pub const AUTOLOCK_DELAY_DEFAULT: u32 = 10 * 60 * 1000;

/// Shortest autolock delay that is ever applied: one minute.
pub const AUTOLOCK_DELAY_MINIMUM: u32 = 60 * 1000;

/// Longest autolock delay that is ever applied (about six days); longer
/// intervals overflow the scheduler.
pub const AUTOLOCK_DELAY_MAXIMUM: u32 = 0x2000_0000;

/// The storage format version that this library writes.
pub const STORAGE_VERSION_CURRENT: u8 = 0x02;

/// Whether a boolean field holds `true`; an absent flag is `false`.
pub open spec fn flag_set(f: Field<bool>, m: Map<AppKey, Seq<u8>>) -> bool {
    f.read(m) == Some(true)
}

pub open spec fn valid_rotation(rotation: u16) -> bool {
    rotation == 0 || rotation == 90 || rotation == 180 || rotation == 270
}

/// The display rotation, 0 when none is stored.
pub open spec fn rotation_of(m: Map<AppKey, Seq<u8>>) -> u16 {
    match spec_rotation().read(m) {
        Some(r) => r,
        None => 0,
    }
}

pub open spec fn normalized_autolock_delay(delay_ms: u32) -> u32 {
    if delay_ms < AUTOLOCK_DELAY_MINIMUM {
        AUTOLOCK_DELAY_MINIMUM
    } else if delay_ms > AUTOLOCK_DELAY_MAXIMUM {
        AUTOLOCK_DELAY_MAXIMUM
    } else {
        delay_ms
    }
}

/// The autolock delay in effect: the stored one, or the default, clamped to
/// the allowed range.
pub open spec fn autolock_delay_of(m: Map<AppKey, Seq<u8>>) -> u32 {
    normalized_autolock_delay(
        match spec_autolock_delay_ms().read(m) {
            Some(d) => d,
            None => AUTOLOCK_DELAY_DEFAULT,
        },
    )
}

/// The accumulated flags, 0 when none are stored.
pub open spec fn flags_of(m: Map<AppKey, Seq<u8>>) -> u32 {
    match spec_flags().read(m) {
        Some(f) => f,
        None => 0,
    }
}

pub open spec fn valid_safety_check_level(level: u8) -> bool {
    level == SAFETY_CHECK_LEVEL_STRICT || level == SAFETY_CHECK_LEVEL_PROMPT
}

/// The safety-check level in effect: the stored one where it is known,
/// strict otherwise.
pub open spec fn safety_check_level_of(m: Map<AppKey, Seq<u8>>) -> u8 {
    match spec_safety_check_level().read(m) {
        Some(l) => if valid_safety_check_level(l) {
            l
        } else {
            DEFAULT_SAFETY_CHECK_LEVEL
        },
        None => DEFAULT_SAFETY_CHECK_LEVEL,
    }
}

/// The known backup-type codes.
pub open spec fn valid_backup_type(backup_type: u8) -> bool {
    backup_type <= 2
}

/// The backup type, 0 when none is stored.
pub open spec fn backup_type_of(m: Map<AppKey, Seq<u8>>) -> u8 {
    match spec_backup_type().read(m) {
        Some(b) => b,
        None => 0,
    }
}

/// Clamps an autolock delay to the range that the scheduler can apply.
pub fn _normalize_autolock_delay(delay_ms: u32) -> (r: u32)
    ensures
        r == normalized_autolock_delay(delay_ms),
        AUTOLOCK_DELAY_MINIMUM <= r <= AUTOLOCK_DELAY_MAXIMUM,
        AUTOLOCK_DELAY_MINIMUM <= delay_ms <= AUTOLOCK_DELAY_MAXIMUM ==> r == delay_ms,
{
    if delay_ms < AUTOLOCK_DELAY_MINIMUM {
        AUTOLOCK_DELAY_MINIMUM
    } else if delay_ms > AUTOLOCK_DELAY_MAXIMUM {
        AUTOLOCK_DELAY_MAXIMUM
    } else {
        delay_ms
    }
}

pub fn is_version_stored(st: &Storage) -> (r: bool)
    requires
        st.wf(),
    ensures
        r == st@.contains_key(spec_version().addr()),
{
    version().has(st)
}

pub fn get_version(st: &Storage) -> (r: Option<Vec<u8>>)
    requires
        st.wf(),
    ensures
        spec_version().yields(st@, r),
{
    version().get(st)
}

/// Stores the format version; anything but a single byte is refused.
pub fn set_version(st: &mut Storage, version_bytes: &[u8]) -> (r: StorageResult<()>)
    requires
        old(st).wf(),
    ensures
        spec_version().stored(*old(st), *final(st), version_bytes@, r),
{
    version().set(st, slice_to_vec(version_bytes))
}

pub fn is_initialized(st: &Storage) -> (r: bool)
    requires
        st.wf(),
    ensures
        r == flag_set(spec_initialized(), st@),
{
    match initialized().get(st) {
        Some(v) => v,
        None => false,
    }
}

pub fn set_is_initialized(st: &mut Storage, is_initialized: bool) -> (r: StorageResult<()>)
    requires
        old(st).wf(),
    ensures
        spec_initialized().stored(*old(st), *final(st), is_initialized, r),
{
    initialized().set(st, is_initialized)
}

pub fn get_rotation(st: &Storage) -> (r: u16)
    requires
        st.wf(),
    ensures
        r == rotation_of(st@),
{
    match rotation().get(st) {
        Some(r) => r,
        None => 0,
    }
}

/// Stores the display rotation; only 0, 90, 180 and 270 degrees are
/// accepted.
pub fn set_rotation(st: &mut Storage, rotation_deg: u16) -> (r: StorageResult<()>)
    requires
        old(st).wf(),
    ensures
        !valid_rotation(rotation_deg)
            ==> r == Err::<(), Error>(Error::InvalidRotation) && *final(st) == *old(st),
        valid_rotation(rotation_deg)
            ==> spec_rotation().stored(*old(st), *final(st), rotation_deg, r),
{
    if !(rotation_deg == 0 || rotation_deg == 90 || rotation_deg == 180 || rotation_deg == 270) {
        Err(Error::InvalidRotation)
    } else {
        rotation().set(st, rotation_deg)
    }
}

pub fn get_label(st: &Storage) -> (r: Option<String>)
    requires
        st.wf(),
    ensures
        spec_label().yields(st@, r),
{
    label().get(st)
}

/// Stores the device label; text longer than 32 bytes is refused.
pub fn set_label(st: &mut Storage, text: &str) -> (r: StorageResult<()>)
    requires
        old(st).wf(),
    ensures
        spec_label().stored(*old(st), *final(st), text@, r),
{
    label().set(st, text.to_owned())
}

/// Store contents `m` after the first `k` writes of a mnemonic-secret
/// bundle. In order, the writes are: the current format version, the secret,
/// the backup type, the no-backup flag, the initialized flag, and the
/// needs-backup flag, which is set only when a backup is needed and there is
/// to be one (no backup takes precedence and clears it).
pub open spec fn mnemonic_bundle_prefix(
    m: Map<AppKey, Seq<u8>>,
    secret: Seq<u8>,
    backup: u8,
    needs: bool,
    none: bool,
    k: int,
) -> Map<AppKey, Seq<u8>> {
    let m1 = spec_version().written(m, seq![STORAGE_VERSION_CURRENT]);
    let m2 = spec_mnemonic_secret().written(m1, secret);
    let m3 = spec_backup_type().written(m2, backup);
    let m4 = if none {
        spec_no_backup().written(m3, true)
    } else {
        m3.remove(spec_no_backup().addr())
    };
    let m5 = spec_initialized().written(m4, true);
    let m6 = if needs && !none {
        spec_needs_backup().written(m5, true)
    } else {
        m5.remove(spec_needs_backup().addr())
    };
    if k <= 0 {
        m
    } else if k == 1 {
        m1
    } else if k == 2 {
        m2
    } else if k == 3 {
        m3
    } else if k == 4 {
        m4
    } else if k == 5 {
        m5
    } else {
        m6
    }
}

/// The address of write `k` (counting from 0) of a mnemonic-secret bundle.
pub open spec fn mnemonic_bundle_addr(k: int) -> AppKey {
    if k == 0 {
        spec_version().addr()
    } else if k == 1 {
        spec_mnemonic_secret().addr()
    } else if k == 2 {
        spec_backup_type().addr()
    } else if k == 3 {
        spec_no_backup().addr()
    } else if k == 4 {
        spec_initialized().addr()
    } else {
        spec_needs_backup().addr()
    }
}

/// Store contents `m` after the whole mnemonic-secret bundle was written.
pub open spec fn with_mnemonic_secret(
    m: Map<AppKey, Seq<u8>>,
    secret: Seq<u8>,
    backup: u8,
    needs: bool,
    none: bool,
) -> Map<AppKey, Seq<u8>> {
    mnemonic_bundle_prefix(m, secret, backup, needs, none, 6)
}

/// Store contents `m` after the first `k` writes of enabling or disabling the
/// passphrase: the passphrase flag, then, when disabling, `false` for
/// entering it always on the device.
pub open spec fn passphrase_enabled_prefix(m: Map<AppKey, Seq<u8>>, enable: bool, k: int) -> Map<
    AppKey,
    Seq<u8>,
> {
    let m1 = spec_use_passphrase().written(m, enable);
    let m2 = if enable {
        m1
    } else {
        spec_passphrase_always_on_device().written(m1, false)
    };
    if k <= 0 {
        m
    } else if k == 1 {
        m1
    } else {
        m2
    }
}

/// The address of write `k` (counting from 0) of enabling or disabling the
/// passphrase.
pub open spec fn passphrase_enabled_addr(k: int) -> AppKey {
    if k == 0 {
        spec_use_passphrase().addr()
    } else {
        spec_passphrase_always_on_device().addr()
    }
}

/// Store contents `m` after the passphrase was enabled or disabled; disabling
/// it also turns off entering it always on the device.
pub open spec fn with_passphrase_enabled(m: Map<AppKey, Seq<u8>>, enable: bool) -> Map<
    AppKey,
    Seq<u8>,
> {
    passphrase_enabled_prefix(m, enable, 2)
}

/// The device identifier; on a device that has none, the hexadecimal text of
/// `fresh` (random bytes supplied by the caller) becomes the identifier and
/// is stored before it is returned.
pub fn get_device_id(st: &mut Storage, fresh: &[u8; 12]) -> (r: StorageResult<String>)
    requires
        old(st).wf(),
    ensures
        final(st).wf(),
        final(st).capacity() == old(st).capacity(),
        spec_device_id().read(old(st)@) matches Some(id)
            ==> (r matches Ok(s) && s@ == id) && *final(st) == *old(st),
        spec_device_id().read(old(st)@) is None && old(st).has_room_for(spec_device_id().addr())
            ==> (r matches Ok(s) && encode_utf8(s@) == hex_ascii(fresh@))
                && final(st)@ == old(st)@.insert(spec_device_id().addr(), hex_ascii(fresh@)),
        spec_device_id().read(old(st)@) is None && !old(st).has_room_for(spec_device_id().addr())
            ==> r == Err::<String, Error>(Error::NoSpace) && final(st)@ == old(st)@,
{
    match device_id().get(st) {
        Some(id) => Ok(id),
        None => {
            let hex_id = hexlify_bytes(fresh.as_slice());
            let result = hex_id.clone();
            match device_id().set(st, hex_id) {
                Ok(()) => Ok(result),
                Err(e) => Err(e),
            }
        },
    }
}

/// Stores the device identifier; anything but 24 bytes of text is refused.
pub fn set_device_id(st: &mut Storage, id: &str) -> (r: StorageResult<()>)
    requires
        old(st).wf(),
    ensures
        spec_device_id().stored(*old(st), *final(st), id@, r),
{
    device_id().set(st, id.to_owned())
}

pub fn get_mnemonic_secret(st: &Storage) -> (r: Option<Vec<u8>>)
    requires
        st.wf(),
    ensures
        spec_mnemonic_secret().yields(st@, r),
{
    mnemonic_secret().get(st)
}

/// Writes a new mnemonic secret with its bundle (see
/// `mnemonic_bundle_prefix`). A secret longer than 256 bytes is refused before
/// anything is written. The writes are independent: the first one that finds
/// no room in the store ends the operation with `NoSpace`; the writes before
/// it stay, and none after it is made.
pub fn set_mnemonic_secret(
    st: &mut Storage,
    secret: &[u8],
    backup: u8,
    needs: bool,
    none: bool,
) -> (r: StorageResult<()>)
    requires
        old(st).wf(),
    ensures
        final(st).wf(),
        final(st).capacity() == old(st).capacity(),
        secret@.len() > MNEMONIC_SECRET_MAXLENGTH ==> r == Err::<(), Error>(Error::InvalidLength)
            && *final(st) == *old(st),
        secret@.len() <= MNEMONIC_SECRET_MAXLENGTH ==> {
            &&& final(st).used() <= old(st).used() + 6
            &&& r is Ok ==> final(st)@ == with_mnemonic_secret(
                old(st)@,
                secret@,
                backup,
                needs,
                none,
            )
            &&& r is Err ==> r == Err::<(), Error>(Error::NoSpace) && exists|k: int|
                0 <= k < 6 && final(st)@ == #[trigger] mnemonic_bundle_prefix(
                    old(st)@,
                    secret@,
                    backup,
                    needs,
                    none,
                    k,
                ) && !final(st).has_room_for(mnemonic_bundle_addr(k))
            &&& old(st).used() + 6 <= old(st).capacity() ==> r is Ok
        },
{
    if secret.len() > MNEMONIC_SECRET_MAXLENGTH {
        return Err(Error::InvalidLength);
    }
    let ghost m = old(st)@;
    let ghost used = old(st).used();
    let current = vec![STORAGE_VERSION_CURRENT];
    assert(current@ =~= seq![STORAGE_VERSION_CURRENT]);
    if let Err(e) = version().set(st, current) {
        assert(st@ == mnemonic_bundle_prefix(m, secret@, backup, needs, none, 0));
        return Err(e);
    }
    assert(st@ == mnemonic_bundle_prefix(m, secret@, backup, needs, none, 1));
    assert(st.used() <= used + 1);
    if let Err(e) = mnemonic_secret().set(st, slice_to_vec(secret)) {
        assert(st@ == mnemonic_bundle_prefix(m, secret@, backup, needs, none, 1));
        return Err(e);
    }
    assert(st@ == mnemonic_bundle_prefix(m, secret@, backup, needs, none, 2));
    assert(st.used() <= used + 2);
    if let Err(e) = backup_type().set(st, backup) {
        assert(st@ == mnemonic_bundle_prefix(m, secret@, backup, needs, none, 2));
        return Err(e);
    }
    assert(st@ == mnemonic_bundle_prefix(m, secret@, backup, needs, none, 3));
    assert(st.used() <= used + 3);
    if let Err(e) = no_backup().set_true_or_delete(st, none) {
        assert(st@ == mnemonic_bundle_prefix(m, secret@, backup, needs, none, 3));
        return Err(e);
    }
    assert(st@ == mnemonic_bundle_prefix(m, secret@, backup, needs, none, 4));
    assert(st.used() <= used + 4);
    if let Err(e) = initialized().set(st, true) {
        assert(st@ == mnemonic_bundle_prefix(m, secret@, backup, needs, none, 4));
        return Err(e);
    }
    assert(st@ == mnemonic_bundle_prefix(m, secret@, backup, needs, none, 5));
    assert(st.used() <= used + 5);
    if let Err(e) = needs_backup().set_true_or_delete(st, needs && !none) {
        assert(st@ == mnemonic_bundle_prefix(m, secret@, backup, needs, none, 5));
        return Err(e);
    }
    assert(st@ == mnemonic_bundle_prefix(m, secret@, backup, needs, none, 6));
    Ok(())
}

pub fn is_passphrase_enabled(st: &Storage) -> (r: bool)
    requires
        st.wf(),
    ensures
        r == flag_set(spec_use_passphrase(), st@),
{
    match use_passphrase().get(st) {
        Some(v) => v,
        None => false,
    }
}

/// Enables or disables the passphrase; disabling it also stores `false` for
/// entering it always on the device. When the second write finds no room, the
/// first one stays.
pub fn set_passphrase_enabled(st: &mut Storage, enable: bool) -> (r: StorageResult<()>)
    requires
        old(st).wf(),
    ensures
        final(st).wf(),
        final(st).capacity() == old(st).capacity(),
        final(st).used() <= old(st).used() + 2,
        r is Ok ==> final(st)@ == with_passphrase_enabled(old(st)@, enable),
        r is Err ==> r == Err::<(), Error>(Error::NoSpace) && exists|k: int|
            0 <= k < 2 && final(st)@ == #[trigger] passphrase_enabled_prefix(old(st)@, enable, k)
                && !final(st).has_room_for(passphrase_enabled_addr(k)),
        old(st).used() + 2 <= old(st).capacity() ==> r is Ok,
{
    let ghost m = old(st)@;
    if let Err(e) = use_passphrase().set(st, enable) {
        assert(st@ == passphrase_enabled_prefix(m, enable, 0));
        return Err(e);
    }
    assert(st@ == passphrase_enabled_prefix(m, enable, 1));
    if !enable {
        if let Err(e) = passphrase_always_on_device().set(st, false) {
            assert(st@ == passphrase_enabled_prefix(m, enable, 1));
            return Err(e);
        }
    }
    assert(st@ == passphrase_enabled_prefix(m, enable, 2));
    Ok(())
}

pub fn get_passphrase_always_on_device(st: &Storage) -> (r: bool)
    requires
        st.wf(),
    ensures
        r == flag_set(spec_passphrase_always_on_device(), st@),
{
    match passphrase_always_on_device().get(st) {
        Some(v) => v,
        None => false,
    }
}

pub fn set_passphrase_always_on_device(st: &mut Storage, enable: bool) -> (r: StorageResult<()>)
    requires
        old(st).wf(),
    ensures
        spec_passphrase_always_on_device().stored(*old(st), *final(st), enable, r),
{
    passphrase_always_on_device().set(st, enable)
}

pub fn get_unfinished_backup(st: &Storage) -> (r: bool)
    requires
        st.wf(),
    ensures
        r == flag_set(spec_unfinished_backup(), st@),
{
    match unfinished_backup().get(st) {
        Some(v) => v,
        None => false,
    }
}

/// Records whether a backup is in progress; `false` is stored as absence.
pub fn set_unfinished_backup(st: &mut Storage, state: bool) -> (r: StorageResult<()>)
    requires
        old(st).wf(),
    ensures
        state ==> spec_unfinished_backup().stored(*old(st), *final(st), true, r),
        !state ==> spec_unfinished_backup().removed(*old(st), *final(st), r),
{
    unfinished_backup().set_true_or_delete(st, state)
}

pub fn get_needs_backup(st: &Storage) -> (r: bool)
    requires
        st.wf(),
    ensures
        r == flag_set(spec_needs_backup(), st@),
{
    match needs_backup().get(st) {
        Some(v) => v,
        None => false,
    }
}

/// Records that the backup was made, by removing the needs-backup flag.
pub fn set_backed_up(st: &mut Storage) -> (r: StorageResult<()>)
    requires
        old(st).wf(),
    ensures
        spec_needs_backup().removed(*old(st), *final(st), r),
{
    needs_backup().delete(st)
}

pub fn get_no_backup(st: &Storage) -> (r: bool)
    requires
        st.wf(),
    ensures
        r == flag_set(spec_no_backup(), st@),
{
    match no_backup().get(st) {
        Some(v) => v,
        None => false,
    }
}

pub fn get_experimental_features(st: &Storage) -> (r: bool)
    requires
        st.wf(),
    ensures
        r == flag_set(spec_experimental_features(), st@),
{
    match experimental_features().get(st) {
        Some(v) => v,
        None => false,
    }
}

/// Turns experimental features on or off; off is stored as absence.
pub fn set_experimental_features(st: &mut Storage, enable: bool) -> (r: StorageResult<()>)
    requires
        old(st).wf(),
    ensures
        enable ==> spec_experimental_features().stored(*old(st), *final(st), true, r),
        !enable ==> spec_experimental_features().removed(*old(st), *final(st), r),
{
    experimental_features().set_true_or_delete(st, enable)
}

/// The backup type, 0 when none is stored; a stored code outside the known
/// ones is reported as `InvalidBackupType`.
pub fn get_backup_type(st: &Storage) -> (r: StorageResult<u8>)
    requires
        st.wf(),
    ensures
        valid_backup_type(backup_type_of(st@)) ==> r == Ok::<u8, Error>(backup_type_of(st@)),
        !valid_backup_type(backup_type_of(st@)) ==> r == Err::<u8, Error>(
            Error::InvalidBackupType,
        ),
{
    let b = match backup_type().get(st) {
        Some(b) => b,
        None => 0,
    };
    if b > 2 {
        Err(Error::InvalidBackupType)
    } else {
        Ok(b)
    }
}

pub fn get_homescreen(st: &Storage) -> (r: Option<Vec<u8>>)
    requires
        st.wf(),
    ensures
        spec_homescreen().yields(st@, r),
{
    homescreen().get(st)
}

/// Stores the homescreen image; more than 16 KiB is refused.
pub fn set_homescreen(st: &mut Storage, image: &[u8]) -> (r: StorageResult<()>)
    requires
        old(st).wf(),
    ensures
        spec_homescreen().stored(*old(st), *final(st), image@, r),
{
    homescreen().set(st, slice_to_vec(image))
}

pub fn get_slip39_identifier(st: &Storage) -> (r: Option<u16>)
    requires
        st.wf(),
    ensures
        spec_slip39_identifier().yields(st@, r),
{
    slip39_identifier().get(st)
}

pub fn set_slip39_identifier(st: &mut Storage, identifier: u16) -> (r: StorageResult<()>)
    requires
        old(st).wf(),
    ensures
        spec_slip39_identifier().stored(*old(st), *final(st), identifier, r),
{
    slip39_identifier().set(st, identifier)
}

pub fn get_slip39_iteration_exponent(st: &Storage) -> (r: Option<u8>)
    requires
        st.wf(),
    ensures
        spec_slip39_iteration_exponent().yields(st@, r),
{
    slip39_iteration_exponent().get(st)
}

pub fn set_slip39_iteration_exponent(st: &mut Storage, exponent: u8) -> (r: StorageResult<()>)
    requires
        old(st).wf(),
    ensures
        spec_slip39_iteration_exponent().stored(*old(st), *final(st), exponent, r),
{
    slip39_iteration_exponent().set(st, exponent)
}

/// The autolock delay in effect, clamped when read (see `autolock_delay_of`).
pub fn get_autolock_delay_ms(st: &Storage) -> (r: u32)
    requires
        st.wf(),
    ensures
        r == autolock_delay_of(st@),
{
    let delay = match autolock_delay_ms().get(st) {
        Some(d) => d,
        None => AUTOLOCK_DELAY_DEFAULT,
    };
    _normalize_autolock_delay(delay)
}

/// Stores the raw autolock delay; it is clamped only when read.
pub fn set_autolock_delay_ms(st: &mut Storage, delay_ms: u32) -> (r: StorageResult<()>)
    requires
        old(st).wf(),
    ensures
        spec_autolock_delay_ms().stored(*old(st), *final(st), delay_ms, r),
{
    autolock_delay_ms().set(st, delay_ms)
}

pub fn get_flags(st: &Storage) -> (r: u32)
    requires
        st.wf(),
    ensures
        r == flags_of(st@),
{
    match flags().get(st) {
        Some(f) => f,
        None => 0,
    }
}

/// Adds `new_flags` to the stored flags; no flag is ever cleared.
pub fn set_flags(st: &mut Storage, new_flags: u32) -> (r: StorageResult<()>)
    requires
        old(st).wf(),
    ensures
        spec_flags().stored(*old(st), *final(st), new_flags | flags_of(old(st)@), r),
{
    let old_flags = match flags().get(st) {
        Some(f) => f,
        None => 0,
    };
    flags().set(st, new_flags | old_flags)
}

pub fn get_safety_check_level(st: &Storage) -> (r: u8)
    requires
        st.wf(),
    ensures
        r == safety_check_level_of(st@),
{
    let level = match safety_check_level().get(st) {
        Some(l) => l,
        None => DEFAULT_SAFETY_CHECK_LEVEL,
    };
    if level != SAFETY_CHECK_LEVEL_STRICT && level != SAFETY_CHECK_LEVEL_PROMPT {
        DEFAULT_SAFETY_CHECK_LEVEL
    } else {
        level
    }
}

/// Stores the safety-check level; only strict and prompt are accepted.
pub fn set_safety_check_level(st: &mut Storage, level: u8) -> (r: StorageResult<()>)
    requires
        old(st).wf(),
    ensures
        !valid_safety_check_level(level) ==> r == Err::<(), Error>(
            Error::InvalidSafetyCheckLevel,
        ) && *final(st) == *old(st),
        valid_safety_check_level(level) ==> spec_safety_check_level().stored(
            *old(st),
            *final(st),
            level,
            r,
        ),
{
    if level != SAFETY_CHECK_LEVEL_STRICT && level != SAFETY_CHECK_LEVEL_PROMPT {
        Err(Error::InvalidSafetyCheckLevel)
    } else {
        safety_check_level().set(st, level)
    }
}

pub fn get_sd_salt_auth_key(st: &Storage) -> (r: Option<Vec<u8>>)
    requires
        st.wf(),
    ensures
        spec_sd_salt_auth_key().yields(st@, r),
{
    sd_salt_auth_key().get(st)
}

/// Stores the SD salt authentication key, which must be 16 bytes long; an
/// empty key removes the stored one.
pub fn set_sd_salt_auth_key(st: &mut Storage, auth_key: &[u8]) -> (r: StorageResult<()>)
    requires
        old(st).wf(),
    ensures
        auth_key@.len() == 0 ==> spec_sd_salt_auth_key().removed(*old(st), *final(st), r),
        auth_key@.len() != 0 ==> spec_sd_salt_auth_key().stored(
            *old(st),
            *final(st),
            auth_key@,
            r,
        ),
{
    if auth_key.len() == 0 {
        sd_salt_auth_key().delete(st)
    } else {
        sd_salt_auth_key().set(st, slice_to_vec(auth_key))
    }
}

/// Advances the U2F counter and returns its new value (see `counter_next`).
pub fn get_next_u2f_counter(st: &mut Storage) -> (r: StorageResult<u32>)
    requires
        old(st).wf(),
    ensures
        final(st).wf(),
        final(st).capacity() == old(st).capacity(),
        counter_next(spec_u2f_counter(), old(st)@) is None ==> r == Err::<u32, Error>(
            Error::CounterOverflow,
        ) && final(st)@ == old(st)@,
        counter_next(spec_u2f_counter(), old(st)@) matches Some(n) ==> if old(st).has_room_for(
            spec_u2f_counter().addr(),
        ) {
            r == Ok::<u32, Error>(n) && final(st)@ == spec_u2f_counter().written(old(st)@, n)
        } else {
            r == Err::<u32, Error>(Error::NoSpace) && final(st)@ == old(st)@
        },
{
    MonotonicCounter::new(u2f_counter()).next(st)
}

/// Sets the U2F counter; the next advance returns `count + 1`.
pub fn set_u2f_counter(st: &mut Storage, count: u32) -> (r: StorageResult<()>)
    requires
        old(st).wf(),
    ensures
        spec_u2f_counter().stored(*old(st), *final(st), count, r),
{
    MonotonicCounter::new(u2f_counter()).set(st, count)
}

pub fn get_private_u2f_counter(st: &Storage) -> (r: Option<u8>)
    requires
        st.wf(),
    ensures
        spec_u2f_counter_private().yields(st@, r),
{
    u2f_counter_private().get(st)
}

/// Removes the legacy private U2F counter. This removes that counter's own
/// key, and no other setting.
pub fn delete_private_u2f_counter(st: &mut Storage) -> (r: StorageResult<()>)
    requires
        old(st).wf(),
    ensures
        spec_u2f_counter_private().removed(*old(st), *final(st), r),
{
    u2f_counter_private().delete(st)
}

/// An accepted rotation reads back as itself.
pub proof fn lemma_rotation_round_trip(m: Map<AppKey, Seq<u8>>, rotation_deg: u16)
    requires
        valid_rotation(rotation_deg),
    ensures
        rotation_of(spec_rotation().written(m, rotation_deg)) == rotation_deg,
{
    <u16 as crate::encoding::Encodable>::lemma_decode_encode(rotation_deg);
}

/// A stored autolock delay reads back clamped to the allowed range.
pub proof fn lemma_autolock_delay_clamped(m: Map<AppKey, Seq<u8>>, delay_ms: u32)
    ensures
        autolock_delay_of(spec_autolock_delay_ms().written(m, delay_ms))
            == normalized_autolock_delay(delay_ms),
{
    <u32 as crate::encoding::Encodable>::lemma_decode_encode(delay_ms);
}

/// Two flag writes in a row leave the union of both with what was stored.
pub proof fn lemma_flags_accumulate(m: Map<AppKey, Seq<u8>>, a: u32, b: u32)
    ensures
        ({
            let m1 = spec_flags().written(m, a | flags_of(m));
            let m2 = spec_flags().written(m1, b | flags_of(m1));
            flags_of(m2) == flags_of(m) | a | b
        }),
{
    let old_flags = flags_of(m);
    <u32 as crate::encoding::Encodable>::lemma_decode_encode(a | old_flags);
    let m1 = spec_flags().written(m, a | old_flags);
    <u32 as crate::encoding::Encodable>::lemma_decode_encode(b | (a | old_flags));
    assert(b | (a | old_flags) == old_flags | a | b) by (bit_vector);
}

/// Writing a mnemonic secret without a backup turns the needs-backup flag off,
/// whatever was asked and whatever was stored, sets the no-backup flag, and
/// stamps the current format version.
pub proof fn lemma_no_backup_suppresses_needs_backup(
    m: Map<AppKey, Seq<u8>>,
    secret: Seq<u8>,
    backup: u8,
    needs: bool,
)
    ensures
        ({
            let m2 = with_mnemonic_secret(m, secret, backup, needs, true);
            &&& !flag_set(spec_needs_backup(), m2)
            &&& flag_set(spec_no_backup(), m2)
            &&& spec_version().read(m2) == Some(seq![STORAGE_VERSION_CURRENT])
        }),
{
}

/// After a mnemonic-secret bundle was written, the needs-backup flag is on
/// exactly when a backup is needed and there is to be one, the no-backup flag
/// is as given, the device is initialized, and the secret, backup type and
/// current format version read back.
pub proof fn lemma_mnemonic_bundle_read_back(
    m: Map<AppKey, Seq<u8>>,
    secret: Seq<u8>,
    backup: u8,
    needs: bool,
    none: bool,
)
    requires
        secret.len() <= MNEMONIC_SECRET_MAXLENGTH,
    ensures
        ({
            let m2 = with_mnemonic_secret(m, secret, backup, needs, none);
            &&& flag_set(spec_needs_backup(), m2) == (needs && !none)
            &&& flag_set(spec_no_backup(), m2) == none
            &&& flag_set(spec_initialized(), m2)
            &&& spec_mnemonic_secret().read(m2) == Some(secret)
            &&& backup_type_of(m2) == backup
            &&& spec_version().read(m2) == Some(seq![STORAGE_VERSION_CURRENT])
        }),
{
}

/// Once the passphrase is disabled, it is no longer entered always on the
/// device.
pub proof fn lemma_disabling_passphrase_clears_always_on_device(m: Map<AppKey, Seq<u8>>)
    ensures
        !flag_set(spec_passphrase_always_on_device(), with_passphrase_enabled(m, false)),
        !flag_set(spec_use_passphrase(), with_passphrase_enabled(m, false)),
{
}

} // verus!
