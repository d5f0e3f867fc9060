//! Status records of the observatory's devices and Ekos modules as the
//! frontend keeps them, each with the view its contracts speak of and the
//! change that an Ekos Live status message makes to it.
//!
//! Status messages carry partial payloads: a member that is absent leaves
//! the field as it was. Measurements (coordinates, temperatures, brightness,
//! signal-to-noise) are kept as the JSON numbers that arrived; turning them
//! into display units is the renderer's business.

use vstd::prelude::*;

use crate::indi::{
    indi_number, indi_number_at, number_at, number_of, DustCapParkState, FilterWheelStatusData, SchedulerStatusData};
use crate::json::{Json, JsonNumber};
use crate::text::{chars_of, contains_chars, has_infix, lowercase, to_lowercase};

verus! {

// ── Reading optional members ─────────────────────────────────────────────────

/// `if let Some(x) = o { field = x }`.
pub open spec fn or_keep<T>(o: Option<T>, old: T) -> T {
    match o {
        Some(x) => x,
        None => old,
    }
}

/// `if let Some(x) = o { field = Some(x) }`.
pub open spec fn or_keep_some<T>(o: Option<T>, old: Option<T>) -> Option<T> {
    match o {
        Some(x) => Some(x),
        None => old,
    }
}

/// The member `k` of `v` when it is a non-empty string.
pub open spec fn nonempty_str_at(v: Json, k: Seq<char>) -> Option<Seq<char>> {
    match v.at(k).str_of() {
        Some(s) => if s.len() > 0 {
            Some(s)
        } else {
            None
        },
        None => None,
    }
}

/// The member `k` of `v` when it is an integer, truncated to 32 bits.
pub open spec fn i32_at(v: Json, k: Seq<char>) -> Option<i32> {
    match v.at(k).i64_of() {
        Some(i) => Some(i as i32),
        None => None,
    }
}

/// The characters of each string.
pub open spec fn strings_view(v: Seq<String>) -> Seq<Seq<char>> {
    Seq::new(v.len(), |i: int| v[i]@)
}

/// The number `0.0` (its bit pattern is all zeros).
pub open spec fn zero_number() -> JsonNumber {
    JsonNumber::Float(0)
}

/// A number member, `0.0` when absent.
pub open spec fn number_or_zero(v: Json, k: Seq<char>) -> JsonNumber {
    match number_of(v.at(k)) {
        Some(n) => n,
        None => zero_number(),
    }
}

fn set_str(dst: &mut String, v: &Json, k: &str)
    ensures
        final(dst)@ == or_keep(v.at(k@).str_of(), old(dst)@),
{
    if let Some(s) = v.str_at(k) {
        *dst = String::from_str(s);
    }
}

pub(crate) fn set_nonempty_str(dst: &mut String, v: &Json, k: &str)
    ensures
        final(dst)@ == or_keep(nonempty_str_at(*v, k@), old(dst)@),
{
    if let Some(s) = v.str_at(k) {
        if !s.is_empty() {
            *dst = String::from_str(s);
        }
    }
}

fn set_number(dst: &mut Option<JsonNumber>, v: &Json, k: &str)
    ensures
        *final(dst) == or_keep_some(number_of(v.at(k@)), *old(dst)),
{
    if let Some(n) = number_at(v, k) {
        *dst = Some(n);
    }
}

fn set_bool(dst: &mut bool, v: &Json, k: &str)
    ensures
        *final(dst) == or_keep(v.at(k@).bool_of(), *old(dst)),
{
    if let Some(b) = v.bool_at(k) {
        *dst = b;
    }
}

fn set_bool_some(dst: &mut Option<bool>, v: &Json, k: &str)
    ensures
        *final(dst) == or_keep_some(v.at(k@).bool_of(), *old(dst)),
{
    if let Some(b) = v.bool_at(k) {
        *dst = Some(b);
    }
}

fn set_i64_some(dst: &mut Option<i64>, v: &Json, k: &str)
    ensures
        *final(dst) == or_keep_some(v.at(k@).i64_of(), *old(dst)),
{
    if let Some(i) = v.i64_at(k) {
        *dst = Some(i);
    }
}

fn set_i32_some(dst: &mut Option<i32>, v: &Json, k: &str)
    ensures
        *final(dst) == or_keep_some(i32_at(*v, k@), *old(dst)),
{
    if let Some(i) = v.i64_at(k) {
        *dst = Some(#[verifier::truncate] (i as i32));
    }
}

fn str_contains(s: &str, needle: &str) -> (r: bool)
    ensures
        r == has_infix(s@, needle@),
{
    let a = chars_of(s);
    let b = chars_of(needle);
    contains_chars(&a, &b)
}

// ── Mount ────────────────────────────────────────────────────────────────────

/// A right ascension as it arrived, with its unit: degrees in KStars' mount
/// state, hours in the INDI coordinate property.
#[derive(Clone, Copy, Debug, PartialEq, Eq)]
pub enum RightAscension {
    Degrees(JsonNumber),
    Hours(JsonNumber),
}

/// Mount state. Coordinates are in degrees as sent, except the right
/// ascension, which keeps the unit it came in.
#[derive(Clone, Debug)]
pub struct MountStatus {
    pub device: String,
    pub connected: bool,
    pub slewing: bool,
    pub tracking: bool,
    pub parked: bool,
    pub ra: Option<RightAscension>,
    pub dec_deg: Option<JsonNumber>,
    pub ha_deg: Option<JsonNumber>,
    /// -1, 0 or 1 as the mount reports its pier side.
    pub pier_side: Option<i32>,
    pub az_deg: Option<JsonNumber>,
    pub alt_deg: Option<JsonNumber>,
    pub ra0_deg: Option<JsonNumber>,
    pub dec0_deg: Option<JsonNumber>,
    pub slew_rate: Option<i32>,
    pub target: String,
    pub status_str: String,
    pub meridian_flip_status: String,
    pub auto_park_countdown: String,
    pub meridian_flip_enabled: Option<bool>,
    pub meridian_flip_offset_deg: Option<JsonNumber>,
}

/// The contents of a [`MountStatus`].
pub struct MountView {
    pub device: Seq<char>,
    pub connected: bool,
    pub slewing: bool,
    pub tracking: bool,
    pub parked: bool,
    pub ra: Option<RightAscension>,
    pub dec_deg: Option<JsonNumber>,
    pub ha_deg: Option<JsonNumber>,
    pub pier_side: Option<i32>,
    pub az_deg: Option<JsonNumber>,
    pub alt_deg: Option<JsonNumber>,
    pub ra0_deg: Option<JsonNumber>,
    pub dec0_deg: Option<JsonNumber>,
    pub slew_rate: Option<i32>,
    pub target: Seq<char>,
    pub status_str: Seq<char>,
    pub meridian_flip_status: Seq<char>,
    pub auto_park_countdown: Seq<char>,
    pub meridian_flip_enabled: Option<bool>,
    pub meridian_flip_offset_deg: Option<JsonNumber>,
}

impl View for MountStatus {
    type V = MountView;

    open spec fn view(&self) -> MountView {
        MountView {
            device: self.device@,
            connected: self.connected,
            slewing: self.slewing,
            tracking: self.tracking,
            parked: self.parked,
            ra: self.ra,
            dec_deg: self.dec_deg,
            ha_deg: self.ha_deg,
            pier_side: self.pier_side,
            az_deg: self.az_deg,
            alt_deg: self.alt_deg,
            ra0_deg: self.ra0_deg,
            dec0_deg: self.dec0_deg,
            slew_rate: self.slew_rate,
            target: self.target@,
            status_str: self.status_str@,
            meridian_flip_status: self.meridian_flip_status@,
            auto_park_countdown: self.auto_park_countdown@,
            meridian_flip_enabled: self.meridian_flip_enabled,
            meridian_flip_offset_deg: self.meridian_flip_offset_deg,
        }
    }
}

/// A mount nothing has been heard of.
pub open spec fn mount_default() -> MountView {
    MountView {
        device: seq![],
        connected: false,
        slewing: false,
        tracking: false,
        parked: false,
        ra: None,
        dec_deg: None,
        ha_deg: None,
        pier_side: None,
        az_deg: None,
        alt_deg: None,
        ra0_deg: None,
        dec0_deg: None,
        slew_rate: None,
        target: seq![],
        status_str: seq![],
        meridian_flip_status: seq![],
        auto_park_countdown: seq![],
        meridian_flip_enabled: None,
        meridian_flip_offset_deg: None,
    }
}

/// A `new_mount_state` message: the status text sets the motion flags (from
/// its lowercase form) and marks the mount connected; every other member
/// present replaces its field.
pub open spec fn mount_after_state(m: MountView, p: Json) -> MountView {
    let status = p.at("status"@).str_of();
    let sl = match status {
        Some(s) => lowercase(s),
        None => seq![],
    };
    MountView {
        device: or_keep(nonempty_str_at(p, "device"@), m.device),
        connected: if status is Some {
            true
        } else {
            m.connected
        },
        slewing: if status is Some {
            has_infix(sl, "slewing"@)
        } else {
            m.slewing
        },
        tracking: if status is Some {
            has_infix(sl, "tracking"@)
        } else {
            m.tracking
        },
        parked: if status is Some {
            has_infix(sl, "park"@)
        } else {
            m.parked
        },
        ra: match number_of(p.at("ra"@)) {
            Some(n) => Some(RightAscension::Degrees(n)),
            None => m.ra,
        },
        dec_deg: or_keep_some(number_of(p.at("de"@)), m.dec_deg),
        ha_deg: or_keep_some(number_of(p.at("ha"@)), m.ha_deg),
        pier_side: or_keep_some(i32_at(p, "pierSide"@), m.pier_side),
        az_deg: or_keep_some(number_of(p.at("az"@)), m.az_deg),
        alt_deg: or_keep_some(number_of(p.at("at"@)), m.alt_deg),
        ra0_deg: or_keep_some(number_of(p.at("ra0"@)), m.ra0_deg),
        dec0_deg: or_keep_some(number_of(p.at("de0"@)), m.dec0_deg),
        slew_rate: or_keep_some(i32_at(p, "slewRate"@), m.slew_rate),
        target: or_keep(nonempty_str_at(p, "target"@), m.target),
        status_str: or_keep(status, m.status_str),
        meridian_flip_status: or_keep(p.at("meridianFlipStatus"@).str_of(), m.meridian_flip_status),
        auto_park_countdown: or_keep(p.at("autoParkCountdown"@).str_of(), m.auto_park_countdown),
        ..m
    }
}

/// An `EQUATORIAL_EOD_COORD` property: its `RA` (hours) and `DEC` (degrees)
/// elements; when either is there, a non-empty `device` names the mount.
pub open spec fn mount_after_coord(m: MountView, p: Json) -> MountView {
    let ra = indi_number(p, "RA"@);
    let de = indi_number(p, "DEC"@);
    if ra is Some || de is Some {
        MountView {
            device: or_keep(nonempty_str_at(p, "device"@), m.device),
            ra: match ra {
                Some(n) => Some(RightAscension::Hours(n)),
                None => m.ra,
            },
            dec_deg: or_keep_some(de, m.dec_deg),
            ..m
        }
    } else {
        m
    }
}

/// A `mount_get_all_settings` reply: only the meridian-flip pair is read.
pub open spec fn mount_after_settings(m: MountView, p: Json) -> MountView {
    MountView {
        meridian_flip_enabled: or_keep_some(
            p.at("executeMeridianFlip"@).bool_of(),
            m.meridian_flip_enabled,
        ),
        meridian_flip_offset_deg: or_keep_some(
            number_of(p.at("meridianFlipOffsetDegrees"@)),
            m.meridian_flip_offset_deg,
        ),
        ..m
    }
}

impl MountStatus {
    /// A mount nothing has been heard of.
    pub fn new() -> (r: MountStatus)
        ensures
            r@ == mount_default(),
    {
        MountStatus {
            device: String::new(),
            connected: false,
            slewing: false,
            tracking: false,
            parked: false,
            ra: None,
            dec_deg: None,
            ha_deg: None,
            pier_side: None,
            az_deg: None,
            alt_deg: None,
            ra0_deg: None,
            dec0_deg: None,
            slew_rate: None,
            target: String::new(),
            status_str: String::new(),
            meridian_flip_status: String::new(),
            auto_park_countdown: String::new(),
            meridian_flip_enabled: None,
            meridian_flip_offset_deg: None,
        }
    }

    /// Applies a `new_mount_state` payload.
    pub fn apply_state(&mut self, p: &Json)
        ensures
            final(self)@ == mount_after_state(old(self)@, *p),
    {
        set_nonempty_str(&mut self.device, p, "device");
        if let Some(status) = p.str_at("status") {
            let sl = to_lowercase(status);
            self.slewing = str_contains(sl.as_str(), "slewing");
            self.tracking = str_contains(sl.as_str(), "tracking");
            self.parked = str_contains(sl.as_str(), "park");
            self.connected = true;
        }
        if let Some(n) = number_at(p, "ra") {
            self.ra = Some(RightAscension::Degrees(n));
        }
        set_number(&mut self.dec_deg, p, "de");
        set_number(&mut self.ha_deg, p, "ha");
        set_i32_some(&mut self.pier_side, p, "pierSide");
        set_number(&mut self.az_deg, p, "az");
        set_number(&mut self.alt_deg, p, "at");
        set_number(&mut self.ra0_deg, p, "ra0");
        set_number(&mut self.dec0_deg, p, "de0");
        set_i32_some(&mut self.slew_rate, p, "slewRate");
        set_nonempty_str(&mut self.target, p, "target");
        set_str(&mut self.meridian_flip_status, p, "meridianFlipStatus");
        set_str(&mut self.auto_park_countdown, p, "autoParkCountdown");
        set_str(&mut self.status_str, p, "status");
    }

    /// Applies an `EQUATORIAL_EOD_COORD` property payload.
    pub fn apply_coord(&mut self, p: &Json)
        ensures
            final(self)@ == mount_after_coord(old(self)@, *p),
    {
        let ra = indi_number_at(p, "RA");
        let de = indi_number_at(p, "DEC");
        if ra.is_some() || de.is_some() {
            set_nonempty_str(&mut self.device, p, "device");
            if let Some(n) = ra {
                self.ra = Some(RightAscension::Hours(n));
            }
            if de.is_some() {
                self.dec_deg = de;
            }
        }
    }

    /// Applies a `mount_get_all_settings` payload.
    pub fn apply_settings(&mut self, p: &Json)
        ensures
            final(self)@ == mount_after_settings(old(self)@, *p),
    {
        set_bool_some(&mut self.meridian_flip_enabled, p, "executeMeridianFlip");
        set_number(&mut self.meridian_flip_offset_deg, p, "meridianFlipOffsetDegrees");
    }
}

// ── Camera ───────────────────────────────────────────────────────────────────

/// Camera state: its sensor (pixel size in µm, width and height in pixels),
/// temperature, cooler and the option lists of its switch properties.
#[derive(Clone, Debug)]
pub struct CameraStatus {
    pub device: String,
    pub pixel_size_um: Option<JsonNumber>,
    pub sensor_width: Option<JsonNumber>,
    pub sensor_height: Option<JsonNumber>,
    pub temperature: Option<JsonNumber>,
    /// The cooler's set point; no message sets it.
    pub target_temperature: Option<JsonNumber>,
    pub cooler_on: Option<bool>,
    /// Labels of `CCD_CAPTURE_FORMAT`.
    pub capture_format_options: Vec<String>,
    /// Labels of `CCD_TRANSFER_FORMAT`.
    pub transfer_format_options: Vec<String>,
    /// Labels of `CCD_ISO` (DSLRs only).
    pub iso_options: Vec<String>,
    /// Labels of `CCD_FRAME_TYPE`.
    pub frame_type_options: Vec<String>,
}

/// The contents of a [`CameraStatus`].
pub struct CameraView {
    pub device: Seq<char>,
    pub pixel_size_um: Option<JsonNumber>,
    pub sensor_width: Option<JsonNumber>,
    pub sensor_height: Option<JsonNumber>,
    pub temperature: Option<JsonNumber>,
    pub target_temperature: Option<JsonNumber>,
    pub cooler_on: Option<bool>,
    pub capture_format_options: Seq<Seq<char>>,
    pub transfer_format_options: Seq<Seq<char>>,
    pub iso_options: Seq<Seq<char>>,
    pub frame_type_options: Seq<Seq<char>>,
}

impl View for CameraStatus {
    type V = CameraView;

    open spec fn view(&self) -> CameraView {
        CameraView {
            device: self.device@,
            pixel_size_um: self.pixel_size_um,
            sensor_width: self.sensor_width,
            sensor_height: self.sensor_height,
            temperature: self.temperature,
            target_temperature: self.target_temperature,
            cooler_on: self.cooler_on,
            capture_format_options: strings_view(self.capture_format_options@),
            transfer_format_options: strings_view(self.transfer_format_options@),
            iso_options: strings_view(self.iso_options@),
            frame_type_options: strings_view(self.frame_type_options@),
        }
    }
}

/// A camera nothing has been heard of.
pub open spec fn camera_default() -> CameraView {
    CameraView {
        device: seq![],
        pixel_size_um: None,
        sensor_width: None,
        sensor_height: None,
        temperature: None,
        target_temperature: None,
        cooler_on: None,
        capture_format_options: seq![],
        transfer_format_options: seq![],
        iso_options: seq![],
        frame_type_options: seq![],
    }
}

/// A `new_camera_state` message: `{name, temperature}`.
pub open spec fn camera_after_state(c: CameraView, p: Json) -> CameraView {
    CameraView {
        device: or_keep(nonempty_str_at(p, "name"@), c.device),
        temperature: or_keep_some(number_of(p.at("temperature"@)), c.temperature),
        ..c
    }
}

/// A `CCD_INFO` property: the pixel size (`CCD_PIXEL_SIZE_X`, else
/// `CCD_PIXEL_SIZE_Y`, else `CCD_PIXEL_SIZE`) and the sensor size
/// (`CCD_MAX_X`, `CCD_MAX_Y`); each one present replaces its field.
pub open spec fn camera_after_info(c: CameraView, p: Json) -> CameraView {
    let pix = match indi_number(p, "CCD_PIXEL_SIZE_X"@) {
        Some(n) => Some(n),
        None => match indi_number(p, "CCD_PIXEL_SIZE_Y"@) {
            Some(n) => Some(n),
            None => indi_number(p, "CCD_PIXEL_SIZE"@),
        },
    };
    CameraView {
        pixel_size_um: or_keep_some(pix, c.pixel_size_um),
        sensor_width: or_keep_some(indi_number(p, "CCD_MAX_X"@), c.sensor_width),
        sensor_height: or_keep_some(indi_number(p, "CCD_MAX_Y"@), c.sensor_height),
        ..c
    }
}

/// Whether a `CCD_INFO` property carries any of the values the camera keeps.
pub open spec fn info_has_values(p: Json) -> bool {
    ||| indi_number(p, "CCD_PIXEL_SIZE_X"@) is Some
    ||| indi_number(p, "CCD_PIXEL_SIZE_Y"@) is Some
    ||| indi_number(p, "CCD_PIXEL_SIZE"@) is Some
    ||| indi_number(p, "CCD_MAX_X"@) is Some
    ||| indi_number(p, "CCD_MAX_Y"@) is Some
}

/// A `CCD_TEMPERATURE` property: its `CCD_TEMPERATURE_VALUE`; a non-empty
/// `device` names the camera.
pub open spec fn camera_after_temperature(c: CameraView, p: Json) -> CameraView {
    match indi_number(p, "CCD_TEMPERATURE_VALUE"@) {
        Some(t) => CameraView {
            device: or_keep(nonempty_str_at(p, "device"@), c.device),
            temperature: Some(t),
            ..c
        },
        None => c,
    }
}

/// The switch properties whose element labels are a camera option list.
pub open spec fn is_option_property(prop: Seq<char>) -> bool {
    prop == "CCD_CAPTURE_FORMAT"@ || prop == "CCD_TRANSFER_FORMAT"@ || prop == "CCD_ISO"@ || prop
        == "CCD_FRAME_TYPE"@
}

/// A camera whose option list for `prop` is now `labels`.
pub open spec fn camera_with_options(c: CameraView, prop: Seq<char>, labels: Seq<Seq<char>>) -> CameraView {
    if prop == "CCD_CAPTURE_FORMAT"@ {
        CameraView { capture_format_options: labels, ..c }
    } else if prop == "CCD_TRANSFER_FORMAT"@ {
        CameraView { transfer_format_options: labels, ..c }
    } else if prop == "CCD_ISO"@ {
        CameraView { iso_options: labels, ..c }
    } else if prop == "CCD_FRAME_TYPE"@ {
        CameraView { frame_type_options: labels, ..c }
    } else {
        c
    }
}

impl CameraStatus {
    /// A camera nothing has been heard of.
    pub fn new() -> (r: CameraStatus)
        ensures
            r@ == camera_default(),
    {
        let r = CameraStatus {
            device: String::new(),
            pixel_size_um: None,
            sensor_width: None,
            sensor_height: None,
            temperature: None,
            target_temperature: None,
            cooler_on: None,
            capture_format_options: Vec::new(),
            transfer_format_options: Vec::new(),
            iso_options: Vec::new(),
            frame_type_options: Vec::new(),
        };
        assert(strings_view(r.capture_format_options@) =~= seq![]);
        assert(strings_view(r.transfer_format_options@) =~= seq![]);
        assert(strings_view(r.iso_options@) =~= seq![]);
        assert(strings_view(r.frame_type_options@) =~= seq![]);
        r
    }

    /// Applies a `CCD_INFO` property payload.
    pub fn apply_info(&mut self, p: &Json)
        ensures
            final(self)@ == camera_after_info(old(self)@, *p),
    {
        let pix = match indi_number_at(p, "CCD_PIXEL_SIZE_X") {
            Some(n) => Some(n),
            None => match indi_number_at(p, "CCD_PIXEL_SIZE_Y") {
                Some(n) => Some(n),
                None => indi_number_at(p, "CCD_PIXEL_SIZE"),
            },
        };
        if pix.is_some() {
            self.pixel_size_um = pix;
        }
        let w = indi_number_at(p, "CCD_MAX_X");
        if w.is_some() {
            self.sensor_width = w;
        }
        let h = indi_number_at(p, "CCD_MAX_Y");
        if h.is_some() {
            self.sensor_height = h;
        }
    }

    /// Applies a `CCD_TEMPERATURE` property payload.
    pub fn apply_temperature(&mut self, p: &Json)
        ensures
            final(self)@ == camera_after_temperature(old(self)@, *p),
    {
        if let Some(t) = indi_number_at(p, "CCD_TEMPERATURE_VALUE") {
            set_nonempty_str(&mut self.device, p, "device");
            self.temperature = Some(t);
        }
    }

    /// Applies a `new_camera_state` payload.
    pub fn apply_state(&mut self, p: &Json)
        ensures
            final(self)@ == camera_after_state(old(self)@, *p),
    {
        set_nonempty_str(&mut self.device, p, "name");
        set_number(&mut self.temperature, p, "temperature");
    }

    /// Replaces the option list of the switch property `prop`.
    pub fn set_options(&mut self, prop: &str, labels: Vec<String>)
        ensures
            final(self)@ == camera_with_options(old(self)@, prop@, strings_view(labels@)),
    {
        if str_is(prop, "CCD_CAPTURE_FORMAT") {
            self.capture_format_options = labels;
        } else if str_is(prop, "CCD_TRANSFER_FORMAT") {
            self.transfer_format_options = labels;
        } else if str_is(prop, "CCD_ISO") {
            self.iso_options = labels;
        } else if str_is(prop, "CCD_FRAME_TYPE") {
            self.frame_type_options = labels;
        }
    }
}

/// Whether two strings are equal.
pub fn str_is(a: &str, b: &str) -> (r: bool)
    ensures
        r == (a@ == b@),
{
    let av = chars_of(a);
    crate::text::chars_eq_str(&av, b)
}

// ── Filter wheel ─────────────────────────────────────────────────────────────

/// The contents of a [`FilterWheelStatusData`].
pub struct FilterWheelView {
    pub device: Seq<char>,
    pub filter_names: Seq<Seq<char>>,
    pub current_slot: Option<JsonNumber>,
}

impl View for FilterWheelStatusData {
    type V = FilterWheelView;

    open spec fn view(&self) -> FilterWheelView {
        FilterWheelView {
            device: self.device@,
            filter_names: strings_view(self.filter_names@),
            current_slot: self.current_slot,
        }
    }
}

/// A filter wheel nothing has been heard of.
pub open spec fn filter_wheel_default() -> FilterWheelView {
    FilterWheelView { device: seq![], filter_names: seq![], current_slot: None }
}

impl FilterWheelStatusData {
    /// A filter wheel nothing has been heard of.
    pub fn new() -> (r: FilterWheelStatusData)
        ensures
            r@ == filter_wheel_default(),
    {
        let r = FilterWheelStatusData {
            device: String::new(),
            filter_names: Vec::new(),
            current_slot: None,
        };
        assert(strings_view(r.filter_names@) =~= seq![]);
        r
    }

    /// Applies a `FILTER_SLOT` property payload.
    pub fn apply_slot(&mut self, p: &Json)
        ensures
            final(self)@ == filter_wheel_after_slot(old(self)@, *p),
    {
        let slot = indi_number_at(p, "FILTER_SLOT_VALUE");
        if slot.is_some() {
            set_nonempty_str(&mut self.device, p, "device");
            self.current_slot = slot;
        }
    }
}

/// A `FILTER_SLOT` property: its `FILTER_SLOT_VALUE` is the current slot; a
/// non-empty `device` names the wheel.
pub open spec fn filter_wheel_after_slot(f: FilterWheelView, p: Json) -> FilterWheelView {
    match indi_number(p, "FILTER_SLOT_VALUE"@) {
        Some(n) => FilterWheelView {
            device: or_keep(nonempty_str_at(p, "device"@), f.device),
            current_slot: Some(n),
            ..f
        },
        None => f,
    }
}

// ── Focuser ──────────────────────────────────────────────────────────────────

/// Focus module state.
#[derive(Clone, Debug)]
pub struct FocusStatus {
    pub device: String,
    pub connected: bool,
    pub status: String,
    /// Half-flux radius of the last frame.
    pub hfr: Option<JsonNumber>,
    /// Focuser position as sent.
    pub position: Option<JsonNumber>,
    /// Focuser temperature as sent.
    pub temperature: Option<JsonNumber>,
    pub log: String,
}

/// The contents of a [`FocusStatus`].
pub struct FocusView {
    pub device: Seq<char>,
    pub connected: bool,
    pub status: Seq<char>,
    pub hfr: Option<JsonNumber>,
    pub position: Option<JsonNumber>,
    pub temperature: Option<JsonNumber>,
    pub log: Seq<char>,
}

impl View for FocusStatus {
    type V = FocusView;

    open spec fn view(&self) -> FocusView {
        FocusView {
            device: self.device@,
            connected: self.connected,
            status: self.status@,
            hfr: self.hfr,
            position: self.position,
            temperature: self.temperature,
            log: self.log@,
        }
    }
}

/// A focuser nothing has been heard of.
pub open spec fn focus_default() -> FocusView {
    FocusView {
        device: seq![],
        connected: false,
        status: seq![],
        hfr: None,
        position: None,
        temperature: None,
        log: seq![],
    }
}

/// A `new_focus_state` message: marks the module connected and takes any of
/// `status`, `hfr`, `pos` and a non-empty `log`.
pub open spec fn focus_after_state(f: FocusView, p: Json) -> FocusView {
    FocusView {
        connected: true,
        status: or_keep(p.at("status"@).str_of(), f.status),
        hfr: or_keep_some(number_of(p.at("hfr"@)), f.hfr),
        position: or_keep_some(number_of(p.at("pos"@)), f.position),
        log: or_keep(nonempty_str_at(p, "log"@), f.log),
        ..f
    }
}

/// An `ABS_FOCUS_POSITION` property: its `FOCUS_ABSOLUTE_POSITION` is the
/// position; a non-empty `device` names the focuser.
pub open spec fn focus_after_position(f: FocusView, p: Json) -> FocusView {
    match indi_number(p, "FOCUS_ABSOLUTE_POSITION"@) {
        Some(n) => FocusView {
            device: or_keep(nonempty_str_at(p, "device"@), f.device),
            position: Some(n),
            ..f
        },
        None => f,
    }
}

/// A `FOCUS_TEMPERATURE` property: its `TEMPERATURE` element; a non-empty
/// `device` names the focuser.
pub open spec fn focus_after_temperature(f: FocusView, p: Json) -> FocusView {
    match indi_number(p, "TEMPERATURE"@) {
        Some(n) => FocusView {
            device: or_keep(nonempty_str_at(p, "device"@), f.device),
            temperature: Some(n),
            ..f
        },
        None => f,
    }
}

impl FocusStatus {
    /// A focuser nothing has been heard of.
    pub fn new() -> (r: FocusStatus)
        ensures
            r@ == focus_default(),
    {
        FocusStatus {
            device: String::new(),
            connected: false,
            status: String::new(),
            hfr: None,
            position: None,
            temperature: None,
            log: String::new(),
        }
    }

    /// Applies an `ABS_FOCUS_POSITION` property payload.
    pub fn apply_position(&mut self, p: &Json)
        ensures
            final(self)@ == focus_after_position(old(self)@, *p),
    {
        if let Some(n) = indi_number_at(p, "FOCUS_ABSOLUTE_POSITION") {
            set_nonempty_str(&mut self.device, p, "device");
            self.position = Some(n);
        }
    }

    /// Applies a `FOCUS_TEMPERATURE` property payload.
    pub fn apply_temperature(&mut self, p: &Json)
        ensures
            final(self)@ == focus_after_temperature(old(self)@, *p),
    {
        if let Some(n) = indi_number_at(p, "TEMPERATURE") {
            set_nonempty_str(&mut self.device, p, "device");
            self.temperature = Some(n);
        }
    }

    /// Applies a `new_focus_state` payload.
    pub fn apply_state(&mut self, p: &Json)
        ensures
            final(self)@ == focus_after_state(old(self)@, *p),
    {
        self.connected = true;
        set_str(&mut self.status, p, "status");
        set_number(&mut self.hfr, p, "hfr");
        set_number(&mut self.position, p, "pos");
        set_nonempty_str(&mut self.log, p, "log");
    }
}

// ── Capture ──────────────────────────────────────────────────────────────────

/// Capture module progress.
#[derive(Clone, Debug)]
pub struct CaptureStatus {
    pub status: String,
    pub target: String,
    pub seq_total: Option<i64>,
    pub seq_current: Option<i64>,
    pub progress: Option<JsonNumber>,
    pub seq_remaining_time: String,
    pub overall_remaining_time: String,
    pub exposure_left: Option<JsonNumber>,
    pub exposure_total: Option<JsonNumber>,
    pub log: String,
}

/// The contents of a [`CaptureStatus`].
pub struct CaptureView {
    pub status: Seq<char>,
    pub target: Seq<char>,
    pub seq_total: Option<i64>,
    pub seq_current: Option<i64>,
    pub progress: Option<JsonNumber>,
    pub seq_remaining_time: Seq<char>,
    pub overall_remaining_time: Seq<char>,
    pub exposure_left: Option<JsonNumber>,
    pub exposure_total: Option<JsonNumber>,
    pub log: Seq<char>,
}

impl View for CaptureStatus {
    type V = CaptureView;

    open spec fn view(&self) -> CaptureView {
        CaptureView {
            status: self.status@,
            target: self.target@,
            seq_total: self.seq_total,
            seq_current: self.seq_current,
            progress: self.progress,
            seq_remaining_time: self.seq_remaining_time@,
            overall_remaining_time: self.overall_remaining_time@,
            exposure_left: self.exposure_left,
            exposure_total: self.exposure_total,
            log: self.log@,
        }
    }
}

/// No capture progress heard of.
pub open spec fn capture_default() -> CaptureView {
    CaptureView {
        status: seq![],
        target: seq![],
        seq_total: None,
        seq_current: None,
        progress: None,
        seq_remaining_time: seq![],
        overall_remaining_time: seq![],
        exposure_left: None,
        exposure_total: None,
        log: seq![],
    }
}

/// A `new_capture_state` message (members `status`, `target`, `seqr`,
/// `seqv`, `ovp`, `seqt`, `ovt`, `expv`, `expr`, `log`).
pub open spec fn capture_after_state(c: CaptureView, p: Json) -> CaptureView {
    CaptureView {
        status: or_keep(p.at("status"@).str_of(), c.status),
        target: or_keep(p.at("target"@).str_of(), c.target),
        seq_total: or_keep_some(p.at("seqr"@).i64_of(), c.seq_total),
        seq_current: or_keep_some(p.at("seqv"@).i64_of(), c.seq_current),
        progress: or_keep_some(number_of(p.at("ovp"@)), c.progress),
        seq_remaining_time: or_keep(p.at("seqt"@).str_of(), c.seq_remaining_time),
        overall_remaining_time: or_keep(p.at("ovt"@).str_of(), c.overall_remaining_time),
        exposure_left: or_keep_some(number_of(p.at("expv"@)), c.exposure_left),
        exposure_total: or_keep_some(number_of(p.at("expr"@)), c.exposure_total),
        log: or_keep(nonempty_str_at(p, "log"@), c.log),
    }
}

impl CaptureStatus {
    /// No capture progress heard of.
    pub fn new() -> (r: CaptureStatus)
        ensures
            r@ == capture_default(),
    {
        CaptureStatus {
            status: String::new(),
            target: String::new(),
            seq_total: None,
            seq_current: None,
            progress: None,
            seq_remaining_time: String::new(),
            overall_remaining_time: String::new(),
            exposure_left: None,
            exposure_total: None,
            log: String::new(),
        }
    }

    /// Applies a `new_capture_state` payload.
    pub fn apply_state(&mut self, p: &Json)
        ensures
            final(self)@ == capture_after_state(old(self)@, *p),
    {
        set_str(&mut self.status, p, "status");
        set_str(&mut self.target, p, "target");
        set_i64_some(&mut self.seq_total, p, "seqr");
        set_i64_some(&mut self.seq_current, p, "seqv");
        set_number(&mut self.progress, p, "ovp");
        set_str(&mut self.seq_remaining_time, p, "seqt");
        set_str(&mut self.overall_remaining_time, p, "ovt");
        set_number(&mut self.exposure_left, p, "expv");
        set_number(&mut self.exposure_total, p, "expr");
        set_nonempty_str(&mut self.log, p, "log");
    }
}

// ── Polar alignment ──────────────────────────────────────────────────────────

/// The polar-alignment correction vector; a missing member reads as `0.0`.
#[derive(Clone, Copy, Debug, PartialEq, Eq)]
pub struct PolarVector {
    pub center_x: JsonNumber,
    pub center_y: JsonNumber,
    pub mag: JsonNumber,
    pub pa: JsonNumber,
    pub error: JsonNumber,
    pub az_error: JsonNumber,
    pub alt_error: JsonNumber,
}

/// Polar alignment assistant state.
#[derive(Clone, Debug)]
pub struct PolarState {
    pub enabled: bool,
    pub stage: String,
    pub message: String,
    pub vector: Option<PolarVector>,
    pub updated_error: Option<JsonNumber>,
    pub updated_az_error: Option<JsonNumber>,
    pub updated_alt_error: Option<JsonNumber>,
}

/// The contents of a [`PolarState`].
pub struct PolarView {
    pub enabled: bool,
    pub stage: Seq<char>,
    pub message: Seq<char>,
    pub vector: Option<PolarVector>,
    pub updated_error: Option<JsonNumber>,
    pub updated_az_error: Option<JsonNumber>,
    pub updated_alt_error: Option<JsonNumber>,
}

impl View for PolarState {
    type V = PolarView;

    open spec fn view(&self) -> PolarView {
        PolarView {
            enabled: self.enabled,
            stage: self.stage@,
            message: self.message@,
            vector: self.vector,
            updated_error: self.updated_error,
            updated_az_error: self.updated_az_error,
            updated_alt_error: self.updated_alt_error,
        }
    }
}

/// No polar alignment in progress.
pub open spec fn polar_default() -> PolarView {
    PolarView {
        enabled: false,
        stage: seq![],
        message: seq![],
        vector: None,
        updated_error: None,
        updated_az_error: None,
        updated_alt_error: None,
    }
}

/// The correction vector read from an object.
pub open spec fn polar_vector_of(o: Json) -> PolarVector {
    PolarVector {
        center_x: number_or_zero(o, "center_x"@),
        center_y: number_or_zero(o, "center_y"@),
        mag: number_or_zero(o, "mag"@),
        pa: number_or_zero(o, "pa"@),
        error: number_or_zero(o, "error"@),
        az_error: number_or_zero(o, "azError"@),
        alt_error: number_or_zero(o, "altError"@),
    }
}

/// A `new_polar_state` message (members `stage`, `message`, `enabled`, an
/// object `vector`, `updatedError`, `updatedAZError`, `updatedALTError`).
pub open spec fn polar_after_state(s: PolarView, p: Json) -> PolarView {
    PolarView {
        stage: or_keep(p.at("stage"@).str_of(), s.stage),
        message: or_keep(p.at("message"@).str_of(), s.message),
        enabled: or_keep(p.at("enabled"@).bool_of(), s.enabled),
        vector: if p.at("vector"@) is Object {
            Some(polar_vector_of(p.at("vector"@)))
        } else {
            s.vector
        },
        updated_error: or_keep_some(number_of(p.at("updatedError"@)), s.updated_error),
        updated_az_error: or_keep_some(number_of(p.at("updatedAZError"@)), s.updated_az_error),
        updated_alt_error: or_keep_some(number_of(p.at("updatedALTError"@)), s.updated_alt_error),
    }
}

fn number_or_zero_at(o: &Json, k: &str) -> (r: JsonNumber)
    ensures
        r == number_or_zero(*o, k@),
{
    match number_at(o, k) {
        Some(n) => n,
        None => JsonNumber::Float(0),
    }
}

impl PolarState {
    /// No polar alignment in progress.
    pub fn new() -> (r: PolarState)
        ensures
            r@ == polar_default(),
    {
        PolarState {
            enabled: false,
            stage: String::new(),
            message: String::new(),
            vector: None,
            updated_error: None,
            updated_az_error: None,
            updated_alt_error: None,
        }
    }

    /// Applies a `new_polar_state` payload.
    pub fn apply_state(&mut self, p: &Json)
        ensures
            final(self)@ == polar_after_state(old(self)@, *p),
    {
        set_str(&mut self.stage, p, "stage");
        set_str(&mut self.message, p, "message");
        set_bool(&mut self.enabled, p, "enabled");
        if let Some(o) = p.get("vector") {
            if let Json::Object(_) = o {
                self.vector = Some(
                    PolarVector {
                        center_x: number_or_zero_at(o, "center_x"),
                        center_y: number_or_zero_at(o, "center_y"),
                        mag: number_or_zero_at(o, "mag"),
                        pa: number_or_zero_at(o, "pa"),
                        error: number_or_zero_at(o, "error"),
                        az_error: number_or_zero_at(o, "azError"),
                        alt_error: number_or_zero_at(o, "altError"),
                    },
                );
            }
        }
        set_number(&mut self.updated_error, p, "updatedError");
        set_number(&mut self.updated_az_error, p, "updatedAZError");
        set_number(&mut self.updated_alt_error, p, "updatedALTError");
    }
}

// ── Live stacker ─────────────────────────────────────────────────────────────

/// Live stacking progress.
#[derive(Clone, Debug)]
pub struct LiveStackerState {
    pub state: String,
    pub ok: bool,
    pub frames_stacked: u32,
    pub total_frames: u32,
    pub mean_snr: JsonNumber,
    pub min_snr: JsonNumber,
    pub max_snr: JsonNumber,
    pub message: Option<String>,
}

/// The contents of a [`LiveStackerState`].
pub struct LiveStackerView {
    pub state: Seq<char>,
    pub ok: bool,
    pub frames_stacked: u32,
    pub total_frames: u32,
    pub mean_snr: JsonNumber,
    pub min_snr: JsonNumber,
    pub max_snr: JsonNumber,
    pub message: Option<Seq<char>>,
}

impl View for LiveStackerState {
    type V = LiveStackerView;

    open spec fn view(&self) -> LiveStackerView {
        LiveStackerView {
            state: self.state@,
            ok: self.ok,
            frames_stacked: self.frames_stacked,
            total_frames: self.total_frames,
            mean_snr: self.mean_snr,
            min_snr: self.min_snr,
            max_snr: self.max_snr,
            message: match self.message {
                Some(m) => Some(m@),
                None => None,
            },
        }
    }
}

/// No stacking heard of.
pub open spec fn livestacker_default() -> LiveStackerView {
    LiveStackerView {
        state: seq![],
        ok: false,
        frames_stacked: 0,
        total_frames: 0,
        mean_snr: zero_number(),
        min_snr: zero_number(),
        max_snr: zero_number(),
        message: None,
    }
}

/// The member `k` as a non-negative integer truncated to 32 bits.
pub open spec fn u32_at(v: Json, k: Seq<char>) -> Option<u32> {
    match v.at(k).u64_of() {
        Some(u) => Some(u as u32),
        None => None,
    }
}

/// A `new_livestacker_state` message: the previous statistics stay when only
/// the state changes.
pub open spec fn livestacker_after_state(s: LiveStackerView, p: Json) -> LiveStackerView {
    LiveStackerView {
        state: or_keep(p.at("state"@).str_of(), s.state),
        ok: or_keep(p.at("ok"@).bool_of(), s.ok),
        frames_stacked: or_keep(u32_at(p, "frames_stacked"@), s.frames_stacked),
        total_frames: or_keep(u32_at(p, "total_frames"@), s.total_frames),
        mean_snr: or_keep(number_of(p.at("mean_snr"@)), s.mean_snr),
        min_snr: or_keep(number_of(p.at("min_snr"@)), s.min_snr),
        max_snr: or_keep(number_of(p.at("max_snr"@)), s.max_snr),
        message: or_keep_some(p.at("message"@).str_of(), s.message),
    }
}

impl LiveStackerState {
    /// No stacking heard of.
    pub fn new() -> (r: LiveStackerState)
        ensures
            r@ == livestacker_default(),
    {
        LiveStackerState {
            state: String::new(),
            ok: false,
            frames_stacked: 0,
            total_frames: 0,
            mean_snr: JsonNumber::Float(0),
            min_snr: JsonNumber::Float(0),
            max_snr: JsonNumber::Float(0),
            message: None,
        }
    }

    /// Applies a `new_livestacker_state` payload.
    pub fn apply_state(&mut self, p: &Json)
        ensures
            final(self)@ == livestacker_after_state(old(self)@, *p),
    {
        set_str(&mut self.state, p, "state");
        set_bool(&mut self.ok, p, "ok");
        if let Some(v) = p.u64_at("frames_stacked") {
            self.frames_stacked = #[verifier::truncate] (v as u32);
        }
        if let Some(v) = p.u64_at("total_frames") {
            self.total_frames = #[verifier::truncate] (v as u32);
        }
        if let Some(n) = number_at(p, "mean_snr") {
            self.mean_snr = n;
        }
        if let Some(n) = number_at(p, "min_snr") {
            self.min_snr = n;
        }
        if let Some(n) = number_at(p, "max_snr") {
            self.max_snr = n;
        }
        if let Some(m) = p.str_at("message") {
            self.message = Some(String::from_str(m));
        }
    }
}

// ── Dust cap and flat panel ──────────────────────────────────────────────────

/// Dust cap / flat panel state.
#[derive(Clone, Debug)]
pub struct DustCapStatus {
    pub device: String,
    pub connected: bool,
    /// Whether the device has a light box.
    pub has_light_panel: bool,
    pub park_state: DustCapParkState,
    pub light_on: Option<bool>,
    pub brightness: Option<JsonNumber>,
    pub brightness_min: Option<JsonNumber>,
    pub brightness_max: Option<JsonNumber>,
}

/// The contents of a [`DustCapStatus`].
pub struct DustCapView {
    pub device: Seq<char>,
    pub connected: bool,
    pub has_light_panel: bool,
    pub park_state: DustCapParkState,
    pub light_on: Option<bool>,
    pub brightness: Option<JsonNumber>,
    pub brightness_min: Option<JsonNumber>,
    pub brightness_max: Option<JsonNumber>,
}

impl View for DustCapStatus {
    type V = DustCapView;

    open spec fn view(&self) -> DustCapView {
        DustCapView {
            device: self.device@,
            connected: self.connected,
            has_light_panel: self.has_light_panel,
            park_state: self.park_state,
            light_on: self.light_on,
            brightness: self.brightness,
            brightness_min: self.brightness_min,
            brightness_max: self.brightness_max,
        }
    }
}

/// A dust cap nothing has been heard of.
pub open spec fn dustcap_default() -> DustCapView {
    DustCapView {
        device: seq![],
        connected: false,
        has_light_panel: false,
        park_state: DustCapParkState::Unknown,
        light_on: None,
        brightness: None,
        brightness_min: None,
        brightness_max: None,
    }
}

/// The park state a `parkStatus` code stands for.
pub open spec fn park_state_of(code: i64) -> DustCapParkState {
    if code == 0 {
        DustCapParkState::Parked
    } else if code == 1 {
        DustCapParkState::Unparked
    } else {
        DustCapParkState::Unknown
    }
}

/// A `new_cap_state` message (members `device`, `connected`, `lightOn`,
/// `brightness`, `parkStatus`).
pub open spec fn dustcap_after_state(d: DustCapView, p: Json) -> DustCapView {
    DustCapView {
        device: or_keep(nonempty_str_at(p, "device"@), d.device),
        connected: or_keep(p.at("connected"@).bool_of(), d.connected),
        light_on: or_keep_some(p.at("lightOn"@).bool_of(), d.light_on),
        brightness: or_keep_some(number_of(p.at("brightness"@)), d.brightness),
        park_state: match p.at("parkStatus"@).i64_of() {
            Some(c) => park_state_of(c),
            None => d.park_state,
        },
        ..d
    }
}

impl DustCapStatus {
    /// A dust cap nothing has been heard of.
    pub fn new() -> (r: DustCapStatus)
        ensures
            r@ == dustcap_default(),
    {
        DustCapStatus {
            device: String::new(),
            connected: false,
            has_light_panel: false,
            park_state: DustCapParkState::Unknown,
            light_on: None,
            brightness: None,
            brightness_min: None,
            brightness_max: None,
        }
    }

    /// Applies a `new_cap_state` payload.
    pub fn apply_state(&mut self, p: &Json)
        ensures
            final(self)@ == dustcap_after_state(old(self)@, *p),
    {
        set_nonempty_str(&mut self.device, p, "device");
        set_bool(&mut self.connected, p, "connected");
        set_bool_some(&mut self.light_on, p, "lightOn");
        set_number(&mut self.brightness, p, "brightness");
        if let Some(c) = p.i64_at("parkStatus") {
            self.park_state = if c == 0 {
                DustCapParkState::Parked
            } else if c == 1 {
                DustCapParkState::Unparked
            } else {
                DustCapParkState::Unknown
            };
        }
    }
}

// ── Scheduler ────────────────────────────────────────────────────────────────

/// The contents of a [`SchedulerStatusData`].
pub struct SchedulerView {
    pub status: i64,
    pub log: Seq<char>,
}

impl View for SchedulerStatusData {
    type V = SchedulerView;

    open spec fn view(&self) -> SchedulerView {
        SchedulerView { status: self.status, log: self.log@ }
    }
}

/// An idle scheduler.
pub open spec fn scheduler_default() -> SchedulerView {
    SchedulerView { status: 0, log: seq![] }
}

/// A `new_scheduler_state` message: `{status}` or `{log}`.
pub open spec fn scheduler_after_state(s: SchedulerView, p: Json) -> SchedulerView {
    SchedulerView {
        status: or_keep(p.at("status"@).i64_of(), s.status),
        log: or_keep(nonempty_str_at(p, "log"@), s.log),
    }
}

impl SchedulerStatusData {
    /// An idle scheduler.
    pub fn new() -> (r: SchedulerStatusData)
        ensures
            r@ == scheduler_default(),
    {
        SchedulerStatusData { status: 0, log: String::new() }
    }

    /// Applies a `new_scheduler_state` payload.
    pub fn apply_state(&mut self, p: &Json)
        ensures
            final(self)@ == scheduler_after_state(old(self)@, *p),
    {
        if let Some(v) = p.i64_at("status") {
            self.status = v;
        }
        set_nonempty_str(&mut self.log, p, "log");
    }
}


// ── Focus HFR history ────────────────────────────────────────────────────────

/// One focus measurement: when it arrived (ms since the epoch), its HFR and
/// the focuser position reported with it.
#[derive(Clone, Copy, Debug, PartialEq, Eq)]
pub struct HfrSample {
    pub t_ms: u64,
    pub hfr: JsonNumber,
    pub position: Option<JsonNumber>,
}

/// Whether a JSON number, read as an `f64`, is positive and finite: a
/// positive integer, or a float whose bit pattern has a clear sign bit, a
/// non-zero magnitude and an exponent short of all ones.
pub open spec fn positive_finite(n: JsonNumber) -> bool {
    match n {
        JsonNumber::PosInt(u) => u > 0,
        JsonNumber::NegInt(i) => i > 0,
        JsonNumber::Float(b) => 0 < b < 0x7ff0_0000_0000_0000,
    }
}

/// Whether a JSON number, read as an `f64`, is positive and finite.
pub fn is_positive_finite(n: JsonNumber) -> (r: bool)
    ensures
        r == positive_finite(n),
{
    match n {
        JsonNumber::PosInt(u) => u > 0,
        JsonNumber::NegInt(i) => i > 0,
        JsonNumber::Float(b) => 0 < b && b < 0x7ff0_0000_0000_0000,
    }
}

// ── Plate-solve result ───────────────────────────────────────────────────────

/// The last plate-solve solution: RA (hours), Dec (degrees), position angle
/// (degrees) and pixel scale (arcsec), each as the JSON number KStars sent,
/// and when the solution arrived (ms since the epoch).
#[derive(Clone, Copy, Debug, PartialEq, Eq)]
pub struct AlignSolution {
    pub ra_hours: Option<JsonNumber>,
    pub dec_deg: Option<JsonNumber>,
    pub orientation_deg: Option<JsonNumber>,
    pub pixscale_arcsec: Option<JsonNumber>,
    pub solved_at_ms: Option<u64>,
}

/// No solution yet.
pub open spec fn align_solution_default() -> AlignSolution {
    AlignSolution {
        ra_hours: None,
        dec_deg: None,
        orientation_deg: None,
        pixscale_arcsec: None,
        solved_at_ms: None,
    }
}

impl AlignSolution {
    /// No solution yet.
    pub fn new() -> (r: AlignSolution)
        ensures
            r == align_solution_default(),
    {
        AlignSolution {
            ra_hours: None,
            dec_deg: None,
            orientation_deg: None,
            pixscale_arcsec: None,
            solved_at_ms: None,
        }
    }
}

/// The solution after a `new_align_state` message seen at `now`: a
/// `solution` object with any of `ra.Hours`, `de.Degrees`, `PA` or `pix`
/// updates those fields and stamps the time; anything else leaves it.
pub open spec fn align_after_solution(a: AlignSolution, p: Json, now: u64) -> AlignSolution {
    match p.at("solution"@) {
        Json::Object(_) => {
            let sol = p.at("solution"@);
            let ra = number_of(sol.at("ra.Hours"@));
            let de = number_of(sol.at("de.Degrees"@));
            let pa = number_of(sol.at("PA"@));
            let pix = number_of(sol.at("pix"@));
            if ra is Some || de is Some || pa is Some || pix is Some {
                AlignSolution {
                    ra_hours: or_keep_some(ra, a.ra_hours),
                    dec_deg: or_keep_some(de, a.dec_deg),
                    orientation_deg: or_keep_some(pa, a.orientation_deg),
                    pixscale_arcsec: or_keep_some(pix, a.pixscale_arcsec),
                    solved_at_ms: Some(now),
                }
            } else {
                a
            }
        },
        _ => a,
    }
}

impl AlignSolution {
    /// Applies the `solution` of a `new_align_state` payload received at
    /// `now_ms`.
    pub fn apply_solution(&mut self, p: &Json, now_ms: u64)
        ensures
            *final(self) == align_after_solution(*old(self), *p, now_ms),
    {
        match p.get("solution") {
            Some(sol) => {
                if let Json::Object(_) = sol {
                    let ra = number_at(sol, "ra.Hours");
                    let de = number_at(sol, "de.Degrees");
                    let pa = number_at(sol, "PA");
                    let pix = number_at(sol, "pix");
                    if ra.is_some() || de.is_some() || pa.is_some() || pix.is_some() {
                        if ra.is_some() {
                            self.ra_hours = ra;
                        }
                        if de.is_some() {
                            self.dec_deg = de;
                        }
                        if pa.is_some() {
                            self.orientation_deg = pa;
                        }
                        if pix.is_some() {
                            self.pixscale_arcsec = pix;
                        }
                        self.solved_at_ms = Some(now_ms);
                    }
                }
            },
            None => {},
        }
    }
}

// ── Bounded histories ────────────────────────────────────────────────────────

/// The last `n` items of `s` (all of them when there are at most `n`).
pub open spec fn keep_last<A>(s: Seq<A>, n: nat) -> Seq<A> {
    if s.len() > n {
        s.subrange(s.len() - n, s.len() as int)
    } else {
        s
    }
}

/// Drops the oldest items of `v` until at most `cap` are left.
pub(crate) fn drop_oldest<T>(v: &mut Vec<T>, cap: usize)
    ensures
        final(v)@ == keep_last(old(v)@, cap as nat),
{
    let ghost o = v@;
    assert(o.subrange(0, o.len() as int) =~= o);
    while v.len() > cap
        invariant
            v@.len() <= o.len(),
            v@.len() == o.len() || v@.len() >= cap,
            v@ == o.subrange(o.len() - v@.len(), o.len() as int),
        decreases v.len(),
    {
        let ghost before = v@;
        v.remove(0);
        assert(v@ =~= o.subrange(o.len() - v@.len(), o.len() as int));
    }
}

// ── Guiding ──────────────────────────────────────────────────────────────────

/// A guide status change, with the time it was seen (ms since the epoch).
#[derive(Debug)]
pub struct GuideStateSample {
    pub t_ms: u64,
    pub status: String,
}

/// A drift sample: the RA and Dec drift of one guide frame, each when the
/// message carried it.
#[derive(Clone, Copy, Debug, PartialEq, Eq)]
pub struct GuideDriftSample {
    pub t_ms: u64,
    pub ra: Option<JsonNumber>,
    pub de: Option<JsonNumber>,
}

/// Guide module state.
#[derive(Debug)]
pub struct GuideStatus {
    pub device: String,
    pub connected: bool,
    pub status: String,
    /// Status changes, oldest first; the last 256 are kept.
    pub history: Vec<GuideStateSample>,
    /// Drift samples, oldest first; the last 600 are kept.
    pub drift: Vec<GuideDriftSample>,
    pub ra_rms: Option<JsonNumber>,
    pub de_rms: Option<JsonNumber>,
    pub log: String,
}

/// The contents of a [`GuideStatus`].
pub struct GuideView {
    pub device: Seq<char>,
    pub connected: bool,
    pub status: Seq<char>,
    pub history: Seq<(u64, Seq<char>)>,
    pub drift: Seq<GuideDriftSample>,
    pub ra_rms: Option<JsonNumber>,
    pub de_rms: Option<JsonNumber>,
    pub log: Seq<char>,
}

impl View for GuideStatus {
    type V = GuideView;

    open spec fn view(&self) -> GuideView {
        GuideView {
            device: self.device@,
            connected: self.connected,
            status: self.status@,
            history: self.history@.map_values(|h: GuideStateSample| (h.t_ms, h.status@)),
            drift: self.drift@,
            ra_rms: self.ra_rms,
            de_rms: self.de_rms,
            log: self.log@,
        }
    }
}

/// A guider nothing has been heard of.
pub open spec fn guide_default() -> GuideView {
    GuideView {
        device: seq![],
        connected: false,
        status: seq![],
        history: seq![],
        drift: seq![],
        ra_rms: None,
        de_rms: None,
        log: seq![],
    }
}

/// The status part of a `new_guide_state` message seen at `now`: a status
/// that differs from the current one becomes current and is added to the
/// history.
pub open spec fn guide_after_status(g: GuideView, p: Json, now: u64) -> GuideView {
    match p.at("status"@).str_of() {
        Some(st) => if st != g.status {
            GuideView { status: st, history: keep_last(g.history.push((now, st)), 256), ..g }
        } else {
            g
        },
        None => g,
    }
}

/// The drift part of a `new_guide_state` message seen at `now`: a message
/// with `drift_ra` or `drift_de` adds a drift sample.
pub open spec fn guide_after_drift(g: GuideView, p: Json, now: u64) -> GuideView {
    let ra = number_of(p.at("drift_ra"@));
    let de = number_of(p.at("drift_de"@));
    if ra is Some || de is Some {
        GuideView {
            drift: keep_last(g.drift.push(GuideDriftSample { t_ms: now, ra, de }), 600),
            ..g
        }
    } else {
        g
    }
}

/// A `new_guide_state` message seen at `now`: marks the guider connected,
/// records a status change and a drift sample, and takes `rarms`, `derms`
/// and a non-empty `log`. Absent members leave their fields as they were.
pub open spec fn guide_after_state(g: GuideView, p: Json, now: u64) -> GuideView {
    let g2 = guide_after_drift(guide_after_status(g, p, now), p, now);
    GuideView {
        connected: true,
        ra_rms: or_keep_some(number_of(p.at("rarms"@)), g2.ra_rms),
        de_rms: or_keep_some(number_of(p.at("derms"@)), g2.de_rms),
        log: or_keep(nonempty_str_at(p, "log"@), g2.log),
        ..g2
    }
}

impl GuideStatus {
    /// A guider nothing has been heard of.
    pub fn new() -> (r: GuideStatus)
        ensures
            r@ == guide_default(),
    {
        let r = GuideStatus {
            device: String::new(),
            connected: false,
            status: String::new(),
            history: Vec::new(),
            drift: Vec::new(),
            ra_rms: None,
            de_rms: None,
            log: String::new(),
        };
        assert(r@.history =~= seq![]);
        r
    }

    /// Applies a `new_guide_state` payload received at `now_ms`.
    pub fn apply_state(&mut self, p: &Json, now_ms: u64)
        ensures
            final(self)@ == guide_after_state(old(self)@, *p, now_ms),
    {
        self.connected = true;
        let ghost g0 = self@;
        if let Some(st) = p.str_at("status") {
            let a = chars_of(st);
            let b = chars_of(self.status.as_str());
            if !crate::text::chars_eq(&a, &b) {
                let ghost h0 = self.history@;
                self.history.push(GuideStateSample { t_ms: now_ms, status: String::from_str(st) });
                assert(self.history@.map_values(|h: GuideStateSample| (h.t_ms, h.status@))
                    =~= h0.map_values(|h: GuideStateSample| (h.t_ms, h.status@)).push((now_ms, st@)));
                let ghost h1 = self.history@;
                drop_oldest(&mut self.history, 256);
                proof {
                    let f = |h: GuideStateSample| (h.t_ms, h.status@);
                    if h1.len() > 256 {
                        assert(self.history@.map_values(f) =~= h1.map_values(f).subrange(
                            h1.len() - 256,
                            h1.len() as int,
                        ));
                    }
                }
                self.status = String::from_str(st);
            }
        }
        assert(self@ == (GuideView { connected: true, ..guide_after_status(g0, *p, now_ms) }));
        let ghost g1 = self@;
        let ra = number_at(p, "drift_ra");
        let de = number_at(p, "drift_de");
        if ra.is_some() || de.is_some() {
            self.drift.push(GuideDriftSample { t_ms: now_ms, ra, de });
            drop_oldest(&mut self.drift, 600);
        }
        assert(self@ == (GuideView { connected: true, ..guide_after_drift(
            guide_after_status(g0, *p, now_ms),
            *p,
            now_ms,
        ) }));
        set_number(&mut self.ra_rms, p, "rarms");
        set_number(&mut self.de_rms, p, "derms");
        set_nonempty_str(&mut self.log, p, "log");
    }
}

} // verus!
