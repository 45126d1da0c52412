//! The Surface internal keyboard as a SetupAPI device: which device is the
//! target, what its `ConfigFlags` say, and how the answers of the device
//! queries are read.
//!
//! The device is disabled by setting `CONFIGFLAG_DISABLED` in its
//! `ConfigFlags` registry value and asking PnP to re-evaluate it; its state is
//! always read back from that value.

use vstd::prelude::*;
use vstd::string::StringExecFns;
use crate::text::{
    chars_of, extend, extend_str, find, first_occurrence, hex_fixed, hex_fixed_chars,
    join_strings, joined, same_chars, starts_with, string_of, eq_ignore_ascii_case,
    equal_ignoring_ascii_case,
};
use crate::wide::{
    decode_until_nul, le_units, multi_sz_strings, nul_position, parse_multi_sz, units_from_le_bytes,
    utf16_decoded,
};

verus! {

broadcast use vstd::string::group_string_axioms;

/// `ConfigFlags` bit marking a device as disabled; it persists across reboot.
pub const CONFIGFLAG_DISABLED: u32 = 0x00000001;

/// `ERROR_FILE_NOT_FOUND`: a registry value that does not exist.
pub const ERROR_FILE_NOT_FOUND: u32 = 2;

/// `ERROR_INSUFFICIENT_BUFFER`.
pub const ERROR_INSUFFICIENT_BUFFER: u32 = 122;

/// Service of the target device.
pub const TARGET_SERVICE: &'static str = "kbdhid";

/// Hardware-id substring of the target device.
pub const TARGET_VID_PID: &'static str = "VID_045E&PID_006C";

/// Upper-cased parent path prefix of the target device: the Surface
/// Aggregator Module bus, `{2DEDC554-A829-42AB-90E9-E4E4B4772981}\Target_SAM`.
pub const SAM_PARENT_PREFIX_UPPER: &'static str = "{2DEDC554-A829-42AB-90E9-E4E4B4772981}\\TARGET_SAM";

/// Registry key under `HKLM` holding each device's `ConfigFlags`.
pub const ENUM_REGISTRY_ROOT: &'static str = "SYSTEM\\CurrentControlSet\\Enum\\";

/// The keyboard device that enable and disable act on.
#[derive(Debug, Clone)]
pub struct Target {
    /// PnP instance id, used to find the device again.
    pub instance_id: String,
    /// Hardware ids, kept for diagnostics.
    pub hardware_ids: Vec<String>,
    /// Parent device path.
    pub parent: String,
    /// Service name.
    pub service: String,
}

/// A target's fields as text.
pub struct TargetView {
    pub instance_id: Seq<char>,
    pub hardware_ids: Seq<Seq<char>>,
    pub parent: Seq<char>,
    pub service: Seq<char>,
}

impl View for Target {
    type V = TargetView;

    open spec fn view(&self) -> TargetView {
        TargetView {
            instance_id: self.instance_id@,
            hardware_ids: self.hardware_ids.deep_view(),
            parent: self.parent@,
            service: self.service@,
        }
    }
}

/// Keyboard state, as the `CONFIGFLAG_DISABLED` bit records it.
#[derive(Debug, Clone, Copy, PartialEq, Eq, Structural)]
pub enum KeyboardState {
    Enabled,
    Disabled,
}

/// What `ConfigFlags` said before an enable: a disabled device at start-up
/// means an earlier run ended without restoring it.
#[derive(Debug, Clone, Copy, PartialEq, Eq, Structural)]
pub enum EnableOutcome {
    /// `CONFIGFLAG_DISABLED` was clear.
    WasAlreadyEnabled,
    /// `CONFIGFLAG_DISABLED` was set.
    WasDisabled,
}

/// The outcome of looking for the target among the keyboard-class devices.
#[derive(Debug)]
pub enum ResolveResult {
    /// Exactly one device matched; it is safe to act on.
    Matched(Target),
    /// No device matched; `dump` lists every keyboard-class device.
    NoMatch { dump: String },
    /// Several devices matched; nothing may be disabled.
    MultipleMatches { candidates: Vec<Target>, dump: String },
    /// The device enumeration itself failed.
    EnumerationError(String),
}

/// Errors of the device operations.
#[derive(Debug)]
pub enum DeviceError {
    /// A Win32 call failed; `last_error` is its error code.
    Win32 { api: &'static str, last_error: u32 },
    /// The target's instance id was not found among the present devices.
    DeviceNotFound,
    /// A device string was not valid UTF-16.
    InvalidString,
}

/// The text `DeviceError` displays as.
pub open spec fn device_error_text(e: DeviceError) -> Seq<char> {
    match e {
        DeviceError::Win32 { api, last_error } => api@ + " failed: error 0x"@ + hex_fixed(
            last_error as nat,
            8,
            true,
        ),
        DeviceError::DeviceNotFound => "Target device not found"@,
        DeviceError::InvalidString => "Invalid UTF-16 string conversion"@,
    }
}

impl DeviceError {
    /// The human-readable text of the error.
    pub fn message(&self) -> (s: String)
        ensures
            s@ == device_error_text(*self),
    {
        match self {
            DeviceError::Win32 { api, last_error } => {
                let mut v = chars_of(api);
                extend_str(&mut v, " failed: error 0x");
                let digits = hex_fixed_chars(*last_error, 8, true);
                extend(&mut v, &digits);
                string_of(&v)
            },
            DeviceError::DeviceNotFound => String::from_str("Target device not found"),
            DeviceError::InvalidString => String::from_str("Invalid UTF-16 string conversion"),
        }
    }
}

// ---------------------------------------------------------------------------
// The target predicate
// ---------------------------------------------------------------------------

/// A keyboard-class device as the enumeration reads it.
pub struct CandidateInfo {
    pub instance_id: String,
    pub hardware_ids: Vec<String>,
    pub parent: String,
    pub service: String,
    pub config_flags: u32,
}

/// A candidate's fields as text.
pub struct CandidateView {
    pub instance_id: Seq<char>,
    pub hardware_ids: Seq<Seq<char>>,
    pub parent: Seq<char>,
    pub service: Seq<char>,
    pub config_flags: u32,
}

impl View for CandidateInfo {
    type V = CandidateView;

    open spec fn view(&self) -> CandidateView {
        CandidateView {
            instance_id: self.instance_id@,
            hardware_ids: self.hardware_ids.deep_view(),
            parent: self.parent@,
            service: self.service@,
            config_flags: self.config_flags,
        }
    }
}

/// What `str::to_uppercase` returns for `s` (Unicode upper-case mapping).
pub uninterp spec fn unicode_uppercase(s: Seq<char>) -> Seq<char>;

/// `str::to_uppercase`: the string's Unicode upper-case mapping.
#[verifier::external_body]
fn to_uppercase(s: &str) -> (r: String)
    ensures
        r@ == unicode_uppercase(s@),
{
    s.to_uppercase()
}

/// Some hardware id contains `VID_045E&PID_006C`.
pub open spec fn has_target_vid_pid(hardware_ids: Seq<Seq<char>>) -> bool {
    exists|i: int|
        0 <= i < hardware_ids.len() && (#[trigger] first_occurrence(
            hardware_ids[i],
            TARGET_VID_PID@,
        )) is Some
}

/// The upper-cased parent path lies on the Surface Aggregator Module bus.
pub open spec fn on_sam_bus(parent_upper: Seq<char>) -> bool {
    SAM_PARENT_PREFIX_UPPER@.is_prefix_of(parent_upper)
}

/// The three-clause target predicate: service `kbdhid`, a hardware id with
/// `VID_045E&PID_006C`, and a parent on the SAM bus (compared case-insensitively).
pub open spec fn is_target(c: CandidateView) -> bool {
    &&& c.service == TARGET_SERVICE@
    &&& has_target_vid_pid(c.hardware_ids)
    &&& on_sam_bus(unicode_uppercase(c.parent))
}

/// Whether an upper-cased parent path lies on the SAM bus.
pub fn parent_on_sam_bus(parent_upper: &str) -> (r: bool)
    ensures
        r == on_sam_bus(parent_upper@),
{
    let p = chars_of(parent_upper);
    let prefix = chars_of(SAM_PARENT_PREFIX_UPPER);
    starts_with(&p, &prefix)
}

/// Whether some hardware id contains `VID_045E&PID_006C`.
pub fn hardware_ids_match(hardware_ids: &Vec<String>) -> (r: bool)
    ensures
        r == has_target_vid_pid(hardware_ids.deep_view()),
{
    let pattern = chars_of(TARGET_VID_PID);
    let mut i: usize = 0;
    while i < hardware_ids.len()
        invariant
            i <= hardware_ids.len(),
            pattern@ == TARGET_VID_PID@,
            forall|j: int|
                0 <= j < i ==> (#[trigger] first_occurrence(
                    hardware_ids.deep_view()[j],
                    TARGET_VID_PID@,
                )) is None,
        decreases hardware_ids.len() - i,
    {
        let id = chars_of(hardware_ids[i].as_str());
        assert(id@ == hardware_ids.deep_view()[i as int]);
        if find(&id, &pattern).is_some() {
            return true;
        }
        i += 1;
    }
    false
}

/// The three-clause target predicate.
pub fn matches(candidate: &CandidateInfo) -> (r: bool)
    ensures
        r == is_target(candidate@),
{
    let service = chars_of(candidate.service.as_str());
    let wanted = chars_of(TARGET_SERVICE);
    if !same_chars(&service, &wanted) {
        return false;
    }
    if !hardware_ids_match(&candidate.hardware_ids) {
        return false;
    }
    let upper = to_uppercase(candidate.parent.as_str());
    parent_on_sam_bus(upper.as_str())
}

// ---------------------------------------------------------------------------
// Resolving the target among the enumerated devices
// ---------------------------------------------------------------------------

/// The target made from a matching candidate.
pub open spec fn target_view_of(c: CandidateView) -> TargetView {
    TargetView {
        instance_id: c.instance_id,
        hardware_ids: c.hardware_ids,
        parent: c.parent,
        service: c.service,
    }
}

/// The targets made from the matching candidates, in enumeration order.
pub open spec fn matching_targets(devices: Seq<CandidateView>) -> Seq<TargetView>
    decreases devices.len(),
{
    if devices.len() == 0 {
        Seq::empty()
    } else {
        let rest = matching_targets(devices.drop_last());
        if is_target(devices.last()) {
            rest.push(target_view_of(devices.last()))
        } else {
            rest
        }
    }
}

/// One line of the enumeration dump:
/// `instance_id | Service=.. | HardwareIds=[..] | Parent=.. | ConfigFlags=0x........`.
pub open spec fn dump_line(c: CandidateView) -> Seq<char> {
    c.instance_id + " | Service="@ + c.service + " | HardwareIds=["@ + joined(
        c.hardware_ids,
        ", "@,
    ) + "] | Parent="@ + c.parent + " | ConfigFlags=0x"@ + hex_fixed(c.config_flags as nat, 8, true)
        + "\n"@
}

/// The enumeration dump: one line per device, in order.
pub open spec fn resolve_dump(devices: Seq<CandidateView>) -> Seq<char>
    decreases devices.len(),
{
    if devices.len() == 0 {
        Seq::empty()
    } else {
        resolve_dump(devices.drop_last()) + dump_line(devices.last())
    }
}

/// The candidates as text.
pub open spec fn candidate_views(devices: Seq<CandidateInfo>) -> Seq<CandidateView> {
    devices.map_values(|d: CandidateInfo| d@)
}

/// The targets as text.
pub open spec fn target_views(targets: Seq<Target>) -> Seq<TargetView> {
    targets.map_values(|t: Target| t@)
}

/// What resolving over `devices` yields: the single match, or the dump when
/// zero or several devices match.
pub open spec fn resolved(r: ResolveResult, devices: Seq<CandidateView>) -> bool {
    let m = matching_targets(devices);
    match r {
        ResolveResult::Matched(t) => m.len() == 1 && t@ == m[0],
        ResolveResult::NoMatch { dump } => m.len() == 0 && dump@ == resolve_dump(devices),
        ResolveResult::MultipleMatches { candidates, dump } => m.len() > 1 && target_views(
            candidates@,
        ) == m && dump@ == resolve_dump(devices),
        ResolveResult::EnumerationError(_) => false,
    }
}

/// The dump line of one device.
pub fn format_dump_line(c: &CandidateInfo) -> (line: Vec<char>)
    ensures
        line@ == dump_line(c@),
{
    let mut v = chars_of(c.instance_id.as_str());
    extend_str(&mut v, " | Service=");
    extend_str(&mut v, c.service.as_str());
    extend_str(&mut v, " | HardwareIds=[");
    let ids = join_strings(&c.hardware_ids, ", ");
    extend(&mut v, &ids);
    extend_str(&mut v, "] | Parent=");
    extend_str(&mut v, c.parent.as_str());
    extend_str(&mut v, " | ConfigFlags=0x");
    let digits = hex_fixed_chars(c.config_flags, 8, true);
    extend(&mut v, &digits);
    extend_str(&mut v, "\n");
    v
}

/// A copy of the candidate as a target.
fn target_from(c: &CandidateInfo) -> (t: Target)
    ensures
        t@ == target_view_of(c@),
{
    let ids = c.hardware_ids.clone();
    assert(ids@ =~= c.hardware_ids@);
    assert(ids.deep_view() =~= c.hardware_ids.deep_view());
    Target {
        instance_id: c.instance_id.clone(),
        hardware_ids: ids,
        parent: c.parent.clone(),
        service: c.service.clone(),
    }
}

/// Apply the target predicate to every enumerated keyboard-class device.
/// Exactly one match is required: zero or several give the dump of all
/// devices instead, and nothing to act on.
pub fn classify_candidates(devices: &Vec<CandidateInfo>) -> (r: ResolveResult)
    ensures
        resolved(r, candidate_views(devices@)),
{
    let ghost views = candidate_views(devices@);
    let mut candidates: Vec<Target> = Vec::new();
    let mut dump: Vec<char> = Vec::new();
    let mut i: usize = 0;
    while i < devices.len()
        invariant
            i <= devices.len(),
            views == candidate_views(devices@),
            target_views(candidates@) == matching_targets(views.take(i as int)),
            dump@ == resolve_dump(views.take(i as int)),
        decreases devices.len() - i,
    {
        let d = &devices[i];
        let line = format_dump_line(d);
        extend(&mut dump, &line);
        let ghost before = candidates@;
        if matches(d) {
            let t = target_from(d);
            candidates.push(t);
        }
        i += 1;
        proof {
            let now = views.take(i as int);
            assert(now.drop_last() =~= views.take(i - 1));
            assert(now.last() == devices@[i - 1]@);
            assert(target_views(candidates@) =~= matching_targets(now));
        }
    }
    assert(views.take(devices.len() as int) =~= views);
    let dump = string_of(&dump);
    if candidates.len() == 0 {
        ResolveResult::NoMatch { dump }
    } else if candidates.len() == 1 {
        let t = candidates.pop().unwrap();
        ResolveResult::Matched(t)
    } else {
        ResolveResult::MultipleMatches { candidates, dump }
    }
}

/// Whether two instance ids name the same device (ASCII case-insensitive).
pub fn same_instance_id(a: &str, b: &str) -> (r: bool)
    ensures
        r == eq_ignore_ascii_case(a@, b@),
{
    let x = chars_of(a);
    let y = chars_of(b);
    equal_ignoring_ascii_case(&x, &y)
}

// ---------------------------------------------------------------------------
// Reading device properties
// ---------------------------------------------------------------------------

/// The text of a NUL-terminated wide string.
pub open spec fn wide_text(units: Seq<u16>) -> Option<Seq<char>> {
    utf16_decoded(units.take(nul_position(units)))
}

/// Number of UTF-16 units that hold `required_size` bytes.
pub fn wide_buffer_len(required_size: u32) -> (n: usize)
    ensures
        n as int == (required_size as int + 1) / 2,
{
    let n: u32 = required_size / 2 + required_size % 2;
    n as usize
}

/// Text of a string registry property: empty when the property is absent
/// (`required_size == 0`), the read's error when the read failed, and the
/// buffer's text otherwise.
pub fn registry_property_text(required_size: u32, read_ok: bool, last_error: u32, buffer: &[u16]) -> (r: Result<String, DeviceError>)
    ensures
        required_size == 0 ==> (r matches Ok(s) && s@ == Seq::<char>::empty()),
        required_size != 0 && !read_ok ==> (r matches Err(DeviceError::Win32 { api, last_error: e })
            && api@ == "SetupDiGetDeviceRegistryPropertyW"@ && e == last_error),
        required_size != 0 && read_ok ==> match wide_text(buffer@) {
            Some(t) => r matches Ok(s) && s@ == t,
            None => r matches Err(DeviceError::InvalidString),
        },
{
    if required_size == 0 {
        return Ok(String::new());
    }
    if !read_ok {
        return Err(DeviceError::Win32 { api: "SetupDiGetDeviceRegistryPropertyW", last_error });
    }
    match decode_until_nul(buffer) {
        Some(s) => Ok(s),
        None => Err(DeviceError::InvalidString),
    }
}

/// The hardware ids of a `REG_MULTI_SZ` property: none when it is absent or
/// the read failed.
pub fn hardware_ids_from(required_size: u32, read_ok: bool, buffer: &[u16]) -> (ids: Vec<String>)
    ensures
        ids.deep_view() == (if required_size == 0 || !read_ok {
            Seq::empty()
        } else {
            multi_sz_strings(buffer@)
        }),
{
    if required_size == 0 || !read_ok {
        let v: Vec<String> = Vec::new();
        assert(v.deep_view() =~= Seq::<Seq<char>>::empty());
        return v;
    }
    parse_multi_sz(buffer)
}

/// The parent path from the `DEVPKEY_Device_Parent` property bytes: empty when
/// the property is absent, the read failed or its type is not a string.
pub fn parent_from_property(required_size: u32, read_ok: bool, is_string_type: bool, bytes: &[u8]) -> (r: Result<String, DeviceError>)
    ensures
        required_size == 0 || !read_ok || !is_string_type ==> (r matches Ok(s) && s@
            == Seq::<char>::empty()),
        required_size != 0 && read_ok && is_string_type ==> match wide_text(le_units(bytes@)) {
            Some(t) => r matches Ok(s) && s@ == t,
            None => r matches Err(DeviceError::InvalidString),
        },
{
    if required_size == 0 || !read_ok || !is_string_type {
        return Ok(String::new());
    }
    let units = units_from_le_bytes(bytes);
    match decode_until_nul(units.as_slice()) {
        Some(s) => Ok(s),
        None => Err(DeviceError::InvalidString),
    }
}

/// The instance id: an error when its size is unknown or the read failed.
pub fn instance_id_from(required_size: u32, read_ok: bool, last_error: u32, buffer: &[u16]) -> (r: Result<String, DeviceError>)
    ensures
        required_size == 0 ==> (r matches Err(DeviceError::Win32 { api, last_error: e }) && api@
            == "SetupDiGetDeviceInstanceIdW"@ && e == 0),
        required_size != 0 && !read_ok ==> (r matches Err(DeviceError::Win32 { api, last_error: e })
            && api@ == "SetupDiGetDeviceInstanceIdW"@ && e == last_error),
        required_size != 0 && read_ok ==> match wide_text(buffer@) {
            Some(t) => r matches Ok(s) && s@ == t,
            None => r matches Err(DeviceError::InvalidString),
        },
{
    if required_size == 0 {
        return Err(DeviceError::Win32 { api: "SetupDiGetDeviceInstanceIdW", last_error: 0 });
    }
    if !read_ok {
        return Err(DeviceError::Win32 { api: "SetupDiGetDeviceInstanceIdW", last_error });
    }
    match decode_until_nul(buffer) {
        Some(s) => Ok(s),
        None => Err(DeviceError::InvalidString),
    }
}

// ---------------------------------------------------------------------------
// ConfigFlags
// ---------------------------------------------------------------------------

/// `flags` marks the device disabled.
pub open spec fn flags_disabled(flags: u32) -> bool {
    flags & CONFIGFLAG_DISABLED != 0
}

/// The state `flags` records.
pub open spec fn state_of_flags(flags: u32) -> KeyboardState {
    if flags_disabled(flags) {
        KeyboardState::Disabled
    } else {
        KeyboardState::Enabled
    }
}

/// `flags` with `CONFIGFLAG_DISABLED` set (`disabled`) or cleared, every
/// other bit kept.
pub open spec fn flags_after(flags: u32, disabled: bool) -> u32 {
    if disabled {
        flags | CONFIGFLAG_DISABLED
    } else {
        flags & !CONFIGFLAG_DISABLED
    }
}

/// What the flags said before a write.
pub open spec fn outcome_of_flags(flags: u32) -> EnableOutcome {
    if flags_disabled(flags) {
        EnableOutcome::WasDisabled
    } else {
        EnableOutcome::WasAlreadyEnabled
    }
}

/// The registry write that sets the device's disabled bit.
pub struct ConfigFlagsUpdate {
    /// The value to store.
    pub new_flags: u32,
    /// Whether the value changes, so that it has to be written.
    pub write_needed: bool,
    /// What the value said before.
    pub outcome: EnableOutcome,
}

/// The `ConfigFlags` state of a device.
pub fn state_from_flags(flags: u32) -> (s: KeyboardState)
    ensures
        s == state_of_flags(flags),
{
    if flags & CONFIGFLAG_DISABLED != 0 {
        KeyboardState::Disabled
    } else {
        KeyboardState::Enabled
    }
}

/// The registry path (under `HKLM`) of a device's `ConfigFlags` value.
pub fn config_registry_path(instance_id: &str) -> (path: String)
    ensures
        path@ == ENUM_REGISTRY_ROOT@ + instance_id@,
{
    let mut path = String::from_str(ENUM_REGISTRY_ROOT);
    path.append(instance_id);
    path
}

/// Check the status of a registry call.
pub fn registry_status(api: &'static str, status: u32) -> (r: Result<(), DeviceError>)
    ensures
        status == 0 ==> r is Ok,
        status != 0 ==> (r matches Err(DeviceError::Win32 { api: a, last_error }) && a == api
            && last_error == status),
{
    if status == 0 {
        Ok(())
    } else {
        Err(DeviceError::Win32 { api, last_error: status })
    }
}

/// Decide the `ConfigFlags` write from the query of the old value: the query
/// may fail only by finding no value (then `old_flags` is the default 0);
/// the disabled bit is set or cleared and every other bit kept; nothing is
/// written when the value already says so.
pub fn plan_config_flags(query_status: u32, old_flags: u32, disabled: bool) -> (r: Result<ConfigFlagsUpdate, DeviceError>)
    ensures
        query_status != 0 && query_status != ERROR_FILE_NOT_FOUND ==> (r matches Err(
            DeviceError::Win32 { api, last_error },
        ) && api@ == "RegQueryValueExW"@ && last_error == query_status),
        query_status == 0 || query_status == ERROR_FILE_NOT_FOUND ==> (r matches Ok(u)
            && u.new_flags == flags_after(old_flags, disabled) && u.write_needed == (u.new_flags
            != old_flags) && u.outcome == outcome_of_flags(old_flags)),
{
    if query_status != 0 && query_status != ERROR_FILE_NOT_FOUND {
        return Err(DeviceError::Win32 { api: "RegQueryValueExW", last_error: query_status });
    }
    let was_disabled = (old_flags & CONFIGFLAG_DISABLED) != 0;
    let new_flags = if disabled {
        old_flags | CONFIGFLAG_DISABLED
    } else {
        old_flags & !CONFIGFLAG_DISABLED
    };
    let outcome = if was_disabled {
        EnableOutcome::WasDisabled
    } else {
        EnableOutcome::WasAlreadyEnabled
    };
    Ok(ConfigFlagsUpdate { new_flags, write_needed: new_flags != old_flags, outcome })
}

/// The state read back from `SPDRP_CONFIGFLAGS`: a missing value
/// (insufficient buffer or zero size) means the default, enabled.
pub fn state_from_config_query(read_ok: bool, last_error: u32, required_size: u32, flags: u32) -> (r: Result<KeyboardState, DeviceError>)
    ensures
        read_ok ==> r == Ok::<KeyboardState, DeviceError>(state_of_flags(flags)),
        !read_ok && (last_error == ERROR_INSUFFICIENT_BUFFER || required_size == 0) ==> r
            == Ok::<KeyboardState, DeviceError>(KeyboardState::Enabled),
        !read_ok && !(last_error == ERROR_INSUFFICIENT_BUFFER || required_size == 0) ==> (r matches Err(
            DeviceError::Win32 { api, last_error: e },
        ) && api@ == "SetupDiGetDeviceRegistryPropertyW"@ && e == last_error),
{
    if !read_ok {
        if last_error == ERROR_INSUFFICIENT_BUFFER || required_size == 0 {
            return Ok(KeyboardState::Enabled);
        }
        return Err(DeviceError::Win32 { api: "SetupDiGetDeviceRegistryPropertyW", last_error });
    }
    Ok(state_from_flags(flags))
}

/// A disable write leaves the flags reading disabled, an enable write leaves
/// them reading enabled, and no other bit changes.
pub proof fn lemma_flags_after(flags: u32, disabled: bool)
    ensures
        state_of_flags(flags_after(flags, disabled)) == (if disabled {
            KeyboardState::Disabled
        } else {
            KeyboardState::Enabled
        }),
        flags_after(flags, disabled) & !CONFIGFLAG_DISABLED == flags & !CONFIGFLAG_DISABLED,
{
    assert((flags | 1u32) & 1u32 != 0) by (bit_vector);
    assert((flags & !1u32) & 1u32 == 0) by (bit_vector);
    assert((flags | 1u32) & !1u32 == flags & !1u32) by (bit_vector);
    assert((flags & !1u32) & !1u32 == flags & !1u32) by (bit_vector);
}

/// Writing the same bit twice changes nothing the second time.
pub proof fn lemma_flags_after_idempotent(flags: u32, disabled: bool)
    ensures
        flags_after(flags_after(flags, disabled), disabled) == flags_after(flags, disabled),
{
    assert((flags | 1u32) | 1u32 == flags | 1u32) by (bit_vector);
    assert((flags & !1u32) & !1u32 == flags & !1u32) by (bit_vector);
}

/// A write is needed exactly when the flags do not already say the state
/// asked for.
pub proof fn lemma_write_needed(flags: u32, disabled: bool)
    ensures
        (flags_after(flags, disabled) != flags) == (flags_disabled(flags) != disabled),
{
    assert(((flags | 1u32) != flags) == (flags & 1u32 == 0)) by (bit_vector);
    assert(((flags & !1u32) != flags) == (flags & 1u32 != 0)) by (bit_vector);
}

// ---------------------------------------------------------------------------
// PnP re-evaluation
// ---------------------------------------------------------------------------

/// The steps of asking PnP to re-evaluate a device: `DICS_PROPCHANGE`
/// through the class installer first, `CM_Reenumerate_DevNode` as the fallback.
#[derive(Debug, Clone, Copy, PartialEq, Eq, Structural)]
pub enum ReevalStep {
    /// `SetupDiSetClassInstallParamsW` with `DICS_PROPCHANGE`.
    SetClassInstallParams,
    /// `SetupDiCallClassInstaller(DIF_PROPERTYCHANGE)`.
    CallClassInstaller,
    /// `CM_Locate_DevNodeW` on the instance id.
    LocateDevNode,
    /// `CM_Reenumerate_DevNode`, synchronous.
    ReenumerateDevNode,
}

/// What to do after a re-evaluation step.
#[derive(Debug)]
pub enum ReevalNext {
    /// Perform this step next.
    Run(ReevalStep),
    /// Re-evaluation is over with this result.
    Finished(Result<(), DeviceError>),
}

/// The next re-evaluation step after `step` ended with `status` (0 is
/// success; for the `CM_` calls it is the `CONFIGRET`).
pub fn reeval_next(step: ReevalStep, status: u32) -> (next: ReevalNext)
    ensures
        step == ReevalStep::SetClassInstallParams ==> (if status == 0 {
            next matches ReevalNext::Run(ReevalStep::CallClassInstaller)
        } else {
            next matches ReevalNext::Run(ReevalStep::LocateDevNode)
        }),
        step == ReevalStep::CallClassInstaller ==> (if status == 0 {
            next matches ReevalNext::Finished(Ok(()))
        } else {
            next matches ReevalNext::Run(ReevalStep::LocateDevNode)
        }),
        step == ReevalStep::LocateDevNode ==> (if status == 0 {
            next matches ReevalNext::Run(ReevalStep::ReenumerateDevNode)
        } else {
            next matches ReevalNext::Finished(Err(DeviceError::Win32 { api, last_error }))
                && api@ == "CM_Locate_DevNodeW"@ && last_error == status
        }),
        step == ReevalStep::ReenumerateDevNode ==> (if status == 0 {
            next matches ReevalNext::Finished(Ok(()))
        } else {
            next matches ReevalNext::Finished(Err(DeviceError::Win32 { api, last_error }))
                && api@ == "CM_Reenumerate_DevNode"@ && last_error == status
        }),
{
    match step {
        ReevalStep::SetClassInstallParams => {
            if status == 0 {
                ReevalNext::Run(ReevalStep::CallClassInstaller)
            } else {
                ReevalNext::Run(ReevalStep::LocateDevNode)
            }
        },
        ReevalStep::CallClassInstaller => {
            if status == 0 {
                ReevalNext::Finished(Ok(()))
            } else {
                ReevalNext::Run(ReevalStep::LocateDevNode)
            }
        },
        ReevalStep::LocateDevNode => {
            if status == 0 {
                ReevalNext::Run(ReevalStep::ReenumerateDevNode)
            } else {
                ReevalNext::Finished(Err(DeviceError::Win32 { api: "CM_Locate_DevNodeW", last_error: status }))
            }
        },
        ReevalStep::ReenumerateDevNode => {
            if status == 0 {
                ReevalNext::Finished(Ok(()))
            } else {
                ReevalNext::Finished(
                    Err(DeviceError::Win32 { api: "CM_Reenumerate_DevNode", last_error: status }),
                )
            }
        },
    }
}

// ---------------------------------------------------------------------------
// Disable and verify
// ---------------------------------------------------------------------------

/// Disable the target, then read its state back: the worker's one disable
/// operation, whose two results travel together to the message loop.
/// `disable` and `current_state` perform the device operations.
pub fn disable_and_verify<D, S>(target: &Target, disable: D, current_state: S) -> (r: (
    Result<(), DeviceError>,
    Result<KeyboardState, DeviceError>,
))
    where
        D: FnOnce(&Target) -> Result<(), DeviceError>,
        S: FnOnce(&Target) -> Result<KeyboardState, DeviceError>,
    requires
        call_requires(disable, (target,)),
        call_requires(current_state, (target,)),
    ensures
        call_ensures(disable, (target,), r.0),
        call_ensures(current_state, (target,), r.1),
{
    let disable_result = disable(target);
    let verify_result = current_state(target);
    (disable_result, verify_result)
}

} // verus!
