//! The frontend's device store: what the browser knows of the observatory,
//! and how each Ekos Live message changes it.
//!
//! [`DeviceStore::apply_ekos_event`] takes a message's type and payload and
//! updates the store; [`store_after_event`] states the new contents for
//! every message. The time a message arrives is passed in, so the histories
//! (focus HFR, guide status and drift) and the plate-solve time stamp are
//! stated too. Measurements stay the JSON numbers that arrived; converting
//! them to display units is the renderer's business. A message of a type the
//! store does not follow leaves it unchanged.

use vstd::prelude::*;

use crate::indi::{
    indi_number, indi_number_at, bool_or_false, get_bool, get_string, get_string_or, i64_or_zero, number_at, number_of, str_or,
    str_or_empty, DeviceInfo, DriverInfo, DustCapParkState, FilterWheelStatusData, ProfileInfo,
    SchedulerStatusData,
};
use crate::json::{member, member_from, Json, JsonMember, JsonNumber};
use crate::rig::{
    device_of, driver_of, profile_of, scope_of, train_of, DeviceView, DriverView, OpticalTrain,
    ProfileView, ScopeInfo, ScopeView, TrainView,
};
use crate::status::{
    camera_after_state, camera_default, camera_with_options, capture_after_state, capture_default,
    dustcap_after_state, dustcap_default, filter_wheel_default, focus_after_state, focus_default,
    is_option_property, livestacker_after_state, livestacker_default, mount_after_settings,
    mount_after_state, mount_default, nonempty_str_at, or_keep, or_keep_some, polar_after_state,
    polar_default, scheduler_after_state, scheduler_default, set_nonempty_str, str_is,
    strings_view, align_after_solution, align_solution_default, drop_oldest, guide_after_state,
    guide_default, is_positive_finite, keep_last, positive_finite, camera_after_info,
    camera_after_temperature, filter_wheel_after_slot, focus_after_position,
    focus_after_temperature, info_has_values, mount_after_coord, AlignSolution, GuideStatus,
    GuideView, HfrSample, CameraStatus, CameraView, CaptureStatus, CaptureView, DustCapStatus, DustCapView,
    FilterWheelView, FocusStatus, FocusView, LiveStackerState, LiveStackerView, MountStatus,
    MountView, PolarState, PolarView, SchedulerView,
};
use crate::text::{has_prefix, push_str, str_starts_with, string_of};

verus! {

/// The views of a sequence of records.
pub open spec fn views<T: View>(s: Seq<T>) -> Seq<T::V> {
    Seq::new(s.len(), |i: int| s[i]@)
}

/// The view of an optional record.
pub open spec fn opt_view<T: View>(o: Option<T>) -> Option<T::V> {
    match o {
        Some(x) => Some(x@),
        None => None,
    }
}

/// The characters of an optional string.
pub open spec fn opt_str(o: Option<String>) -> Option<Seq<char>> {
    match o {
        Some(x) => Some(x@),
        None => None,
    }
}

/// The members of an object as (key, value) pairs.
pub open spec fn members_view(m: Seq<JsonMember>) -> Seq<(Seq<char>, Json)> {
    Seq::new(m.len(), |i: int| (m[i].key@, m[i].value))
}

/// Everything the frontend knows of the observatory.
pub struct DeviceStore {
    /// The websocket to the server is up.
    pub connected: bool,
    /// A profile is running in Ekos, so requests that need one are handled.
    pub online: bool,
    /// The server's home directory.
    pub home_dir: String,
    pub mount_status: Option<MountStatus>,
    pub camera_status: Option<CameraStatus>,
    pub filter_wheel_status: Option<FilterWheelStatusData>,
    pub optical_trains: Vec<OpticalTrain>,
    pub scopes: Vec<ScopeInfo>,
    /// Connected INDI devices.
    pub devices: Vec<DeviceInfo>,
    /// The optical train of each Ekos module, by module number.
    pub module_trains: Json,
    pub focus_status: Option<FocusStatus>,
    pub focus_settings: Json,
    pub focus_preview_url: Option<String>,
    /// Positive HFR readings, oldest first; the last 200 are kept.
    pub focus_hfr_history: Vec<HfrSample>,
    pub capture_status: CaptureStatus,
    pub capture_settings: Json,
    pub capture_sequence: Json,
    pub capture_preview_url: Option<String>,
    pub polar_state: PolarState,
    pub align_settings: Json,
    /// The align module's status text.
    pub align_status: Option<String>,
    /// The last plate-solve solution.
    pub align_solution: AlignSolution,
    pub align_preview_url: Option<String>,
    pub guide_status: Option<GuideStatus>,
    pub guide_settings: Json,
    /// The guiding options of KStars (`GuiderType`, `PHD2Host`, …) by name.
    pub guide_options: Vec<JsonMember>,
    pub guide_preview_url: Option<String>,
    pub scheduler_status: SchedulerStatusData,
    pub scheduler_settings: Json,
    pub scheduler_jobs: Vec<Json>,
    pub mosaic_tiles: Option<Json>,
    pub livestacker_state: Option<LiveStackerState>,
    pub livestacker_settings: Json,
    pub dustcap_status: Option<DustCapStatus>,
    pub profiles: Vec<ProfileInfo>,
    pub selected_profile: Option<String>,
    pub drivers: Vec<DriverInfo>,
    /// Whether KStars runs on the server host.
    pub kstars_running: bool,
    /// Whether PHD2 runs on the server host.
    pub phd2_running: bool,
    /// Set by the first `app_state` message.
    pub kstars_state_known: bool,
    /// The modal dialog KStars has open, as it sent it.
    pub active_dialog: Option<Json>,
}

/// The contents of a [`DeviceStore`].
pub struct StoreView {
    pub connected: bool,
    pub online: bool,
    pub home_dir: Seq<char>,
    pub mount_status: Option<MountView>,
    pub camera_status: Option<CameraView>,
    pub filter_wheel_status: Option<FilterWheelView>,
    pub optical_trains: Seq<TrainView>,
    pub scopes: Seq<ScopeView>,
    pub devices: Seq<DeviceView>,
    pub module_trains: Json,
    pub focus_status: Option<FocusView>,
    pub focus_settings: Json,
    pub focus_preview_url: Option<Seq<char>>,
    pub focus_hfr_history: Seq<HfrSample>,
    pub capture_status: CaptureView,
    pub capture_settings: Json,
    pub capture_sequence: Json,
    pub capture_preview_url: Option<Seq<char>>,
    pub polar_state: PolarView,
    pub align_settings: Json,
    pub align_status: Option<Seq<char>>,
    pub align_solution: AlignSolution,
    pub align_preview_url: Option<Seq<char>>,
    pub guide_status: Option<GuideView>,
    pub guide_settings: Json,
    pub guide_options: Seq<(Seq<char>, Json)>,
    pub guide_preview_url: Option<Seq<char>>,
    pub scheduler_status: SchedulerView,
    pub scheduler_settings: Json,
    pub scheduler_jobs: Seq<Json>,
    pub mosaic_tiles: Option<Json>,
    pub livestacker_state: Option<LiveStackerView>,
    pub livestacker_settings: Json,
    pub dustcap_status: Option<DustCapView>,
    pub profiles: Seq<ProfileView>,
    pub selected_profile: Option<Seq<char>>,
    pub drivers: Seq<DriverView>,
    pub kstars_running: bool,
    pub phd2_running: bool,
    pub kstars_state_known: bool,
    pub active_dialog: Option<Json>,
}

impl View for DeviceStore {
    type V = StoreView;

    open spec fn view(&self) -> StoreView {
        StoreView {
            connected: self.connected,
            online: self.online,
            home_dir: self.home_dir@,
            mount_status: opt_view(self.mount_status),
            camera_status: opt_view(self.camera_status),
            filter_wheel_status: opt_view(self.filter_wheel_status),
            optical_trains: views(self.optical_trains@),
            scopes: views(self.scopes@),
            devices: views(self.devices@),
            module_trains: self.module_trains,
            focus_status: opt_view(self.focus_status),
            focus_settings: self.focus_settings,
            focus_preview_url: opt_str(self.focus_preview_url),
            focus_hfr_history: self.focus_hfr_history@,
            capture_status: self.capture_status@,
            capture_settings: self.capture_settings,
            capture_sequence: self.capture_sequence,
            capture_preview_url: opt_str(self.capture_preview_url),
            polar_state: self.polar_state@,
            align_settings: self.align_settings,
            align_status: opt_str(self.align_status),
            align_solution: self.align_solution,
            align_preview_url: opt_str(self.align_preview_url),
            guide_status: opt_view(self.guide_status),
            guide_settings: self.guide_settings,
            guide_options: members_view(self.guide_options@),
            guide_preview_url: opt_str(self.guide_preview_url),
            scheduler_status: self.scheduler_status@,
            scheduler_settings: self.scheduler_settings,
            scheduler_jobs: self.scheduler_jobs@,
            mosaic_tiles: self.mosaic_tiles,
            livestacker_state: opt_view(self.livestacker_state),
            livestacker_settings: self.livestacker_settings,
            dustcap_status: opt_view(self.dustcap_status),
            profiles: views(self.profiles@),
            selected_profile: opt_str(self.selected_profile),
            drivers: views(self.drivers@),
            kstars_running: self.kstars_running,
            phd2_running: self.phd2_running,
            kstars_state_known: self.kstars_state_known,
            active_dialog: self.active_dialog,
        }
    }
}

/// The store before any message.
pub open spec fn store_initial() -> StoreView {
    StoreView {
        connected: false,
        online: false,
        home_dir: seq![],
        mount_status: None,
        camera_status: None,
        filter_wheel_status: None,
        optical_trains: seq![],
        scopes: seq![],
        devices: seq![],
        module_trains: Json::Null,
        focus_status: None,
        focus_settings: Json::Null,
        focus_preview_url: None,
        focus_hfr_history: seq![],
        capture_status: capture_default(),
        capture_settings: Json::Null,
        capture_sequence: Json::Null,
        capture_preview_url: None,
        polar_state: polar_default(),
        align_settings: Json::Null,
        align_status: None,
        align_solution: align_solution_default(),
        align_preview_url: None,
        guide_status: None,
        guide_settings: Json::Null,
        guide_options: seq![],
        guide_preview_url: None,
        scheduler_status: scheduler_default(),
        scheduler_settings: Json::Null,
        scheduler_jobs: seq![],
        mosaic_tiles: None,
        livestacker_state: None,
        livestacker_settings: Json::Null,
        dustcap_status: None,
        profiles: seq![],
        selected_profile: None,
        drivers: seq![],
        kstars_running: false,
        phd2_running: false,
        kstars_state_known: false,
        active_dialog: None,
    }
}

// ── What each message does ──────────────────────────────────────────────────

/// The elements of the array member `k`, none when it is not an array.
pub open spec fn array_at(v: Json, k: Seq<char>) -> Seq<Json> {
    match v.at(k) {
        Json::Array(a) => a@,
        _ => seq![],
    }
}

/// The mount status a message starts from: the current one, or a fresh one.
pub open spec fn mount_base(s: StoreView) -> MountView {
    or_keep(s.mount_status, mount_default())
}

/// The camera status a message starts from.
pub open spec fn camera_base(s: StoreView) -> CameraView {
    or_keep(s.camera_status, camera_default())
}

/// The filter wheel status a message starts from.
pub open spec fn filter_wheel_base(s: StoreView) -> FilterWheelView {
    or_keep(s.filter_wheel_status, filter_wheel_default())
}

/// The focus status a message starts from.
pub open spec fn focus_base(s: StoreView) -> FocusView {
    or_keep(s.focus_status, focus_default())
}

/// The live-stacker state a message starts from.
pub open spec fn livestacker_base(s: StoreView) -> LiveStackerView {
    or_keep(s.livestacker_state, livestacker_default())
}

/// The dust cap status a message starts from.
pub open spec fn dustcap_base(s: StoreView) -> DustCapView {
    or_keep(s.dustcap_status, dustcap_default())
}

/// `file_default_path`: a non-empty string payload is the home directory.
pub open spec fn after_default_path(s: StoreView, p: Json) -> StoreView {
    match p.str_of() {
        Some(h) => if h.len() > 0 {
            StoreView { home_dir: h, ..s }
        } else {
            s
        },
        None => s,
    }
}

/// `new_connection_state`: `{connected, online, home_dir}`. Ekos counts as
/// online only while connected; losing the connection forgets the live
/// device and module state (guide settings and options stay, so the guide
/// page does not flicker on short drops).
pub open spec fn after_connection_state(s: StoreView, p: Json) -> StoreView {
    let c = bool_or_false(p, "connected"@);
    let s1 = StoreView {
        connected: c,
        online: c && bool_or_false(p, "online"@),
        home_dir: or_keep(nonempty_str_at(p, "home_dir"@), s.home_dir),
        ..s
    };
    if c {
        s1
    } else {
        StoreView {
            mount_status: None,
            camera_status: None,
            filter_wheel_status: None,
            focus_status: None,
            focus_preview_url: None,
            focus_hfr_history: seq![],
            polar_state: polar_default(),
            align_settings: Json::Null,
            align_status: None,
            align_solution: align_solution_default(),
            align_preview_url: None,
            guide_status: None,
            guide_preview_url: None,
            scheduler_status: scheduler_default(),
            scheduler_jobs: seq![],
            mosaic_tiles: None,
            livestacker_state: None,
            dustcap_status: None,
            ..s1
        }
    }
}

/// The INDI interface bits of a dust cap and of a light box.
pub open spec fn dustcap_bit() -> i64 {
    512
}

/// The INDI interface bit of a light box.
pub open spec fn lightbox_bit() -> i64 {
    1024
}

/// Whether a device record advertises a dust cap or a light box.
pub open spec fn is_cap_device(d: Json) -> bool {
    i64_or_zero(d, "interface"@) & (dustcap_bit() | lightbox_bit()) != 0
}

/// The first index at or after `j` of a dust cap or light box device.
pub open spec fn first_cap_device(a: Seq<Json>, j: int) -> Option<int>
    decreases a.len() - j,
{
    if j < 0 || j >= a.len() {
        None
    } else if is_cap_device(a[j]) {
        Some(j)
    } else {
        first_cap_device(a, j + 1)
    }
}

/// `get_devices`: an array of `{name, connected, interface}` replaces the
/// device list; the first dust cap or light box among them names the dust
/// cap and says whether it is connected and has a light panel.
pub open spec fn after_devices(s: StoreView, p: Json) -> StoreView {
    match p {
        Json::Array(a) => {
            let s1 = StoreView { devices: a@.map_values(|v: Json| device_of(v)), ..s };
            match first_cap_device(a@, 0) {
                Some(k) => {
                    let d = a@[k];
                    let b = dustcap_base(s);
                    StoreView {
                        dustcap_status: Some(
                            DustCapView {
                                device: or_keep(nonempty_str_at(d, "name"@), b.device),
                                connected: bool_or_false(d, "connected"@),
                                has_light_panel: i64_or_zero(d, "interface"@) & lightbox_bit()
                                    != 0,
                                ..b
                            },
                        ),
                        ..s1
                    }
                },
                None => s1,
            }
        },
        _ => s,
    }
}

/// `get_profiles`: `{selectedProfile, profiles: [..]}`; an empty selected
/// name means none is selected.
pub open spec fn after_profiles(s: StoreView, p: Json) -> StoreView {
    let s1 = match p.at("profiles"@) {
        Json::Array(a) => StoreView { profiles: a@.map_values(|v: Json| profile_of(v)), ..s },
        _ => s,
    };
    match p.at("selectedProfile"@).str_of() {
        Some(x) => StoreView {
            selected_profile: if x.len() == 0 {
                None
            } else {
                Some(x)
            },
            ..s1
        },
        None => s1,
    }
}

/// `get_drivers`: an array of driver records replaces the driver list.
pub open spec fn after_drivers(s: StoreView, p: Json) -> StoreView {
    match p {
        Json::Array(a) => StoreView { drivers: a@.map_values(|v: Json| driver_of(v)), ..s },
        _ => s,
    }
}

/// `get_scopes`: an array of scope records replaces the scope list.
pub open spec fn after_scopes(s: StoreView, p: Json) -> StoreView {
    match p {
        Json::Array(a) => StoreView { scopes: a@.map_values(|v: Json| scope_of(v)), ..s },
        _ => s,
    }
}

/// `train_get_all`: an array of train records replaces the train list.
pub open spec fn after_trains(s: StoreView, p: Json) -> StoreView {
    match p {
        Json::Array(a) => StoreView { optical_trains: a@.map_values(|v: Json| train_of(v)), ..s },
        _ => s,
    }
}

/// A switch element's state: `value` as a boolean, else whether `state` is `"On"`.
pub open spec fn switch_value(el: Json) -> Option<bool> {
    match el.at("value"@).bool_of() {
        Some(b) => Some(b),
        None => match el.at("state"@).str_of() {
            Some(st) => Some(st == "On"@),
            None => None,
        },
    }
}

/// The state of the last switch element named `n` (`None` when there is
/// none, or when that element has no state).
pub open spec fn named_switch(a: Seq<Json>, n: Seq<char>) -> Option<bool>
    decreases a.len(),
{
    if a.len() == 0 {
        None
    } else if str_or_empty(a.last(), "name"@) == n {
        switch_value(a.last())
    } else {
        named_switch(a.drop_last(), n)
    }
}

/// What an option-list element contributes: its label, else its name, when
/// non-empty.
pub open spec fn option_label(el: Json) -> Seq<Seq<char>> {
    match nonempty_str_at(el, "label"@) {
        Some(l) => seq![l],
        None => match nonempty_str_at(el, "name"@) {
            Some(n) => seq![n],
            None => seq![],
        },
    }
}

/// The option labels of a switch property's elements, in order.
pub open spec fn option_labels(a: Seq<Json>) -> Seq<Seq<char>>
    decreases a.len(),
{
    if a.len() == 0 {
        seq![]
    } else {
        option_labels(a.drop_last()) + option_label(a.last())
    }
}

/// The `text` of each text element that has one, in order.
pub open spec fn text_values(a: Seq<Json>) -> Seq<Seq<char>>
    decreases a.len(),
{
    if a.len() == 0 {
        seq![]
    } else {
        text_values(a.drop_last()) + match a.last().at("text"@).str_of() {
            Some(t) => seq![t],
            None => seq![],
        }
    }
}

/// The park state that a `CAP_PARK` property shows.
pub open spec fn cap_park_state(p: Json) -> DustCapParkState {
    let a = array_at(p, "switches"@);
    if p.at("state"@).str_of() == Some("Busy"@) {
        DustCapParkState::Moving
    } else if named_switch(a, "PARK"@) == Some(true) {
        DustCapParkState::Parked
    } else if named_switch(a, "UNPARK"@) == Some(true) {
        DustCapParkState::Unparked
    } else {
        DustCapParkState::Unknown
    }
}

/// Brightness, minimum and maximum of a `FLAT_LIGHT_INTENSITY` property:
/// elements are read in order until one has a value; a later minimum or
/// maximum replaces an earlier one.
pub open spec fn intensity(a: Seq<Json>, j: int, acc: (
    Option<JsonNumber>,
    Option<JsonNumber>,
    Option<JsonNumber>,
)) -> (Option<JsonNumber>, Option<JsonNumber>, Option<JsonNumber>)
    decreases a.len() - j,
{
    if j < 0 || j >= a.len() {
        acc
    } else {
        let el = a[j];
        let b = or_keep_some(number_of(el.at("value"@)), acc.0);
        let mn = or_keep_some(number_of(el.at("min"@)), acc.1);
        let mx = or_keep_some(number_of(el.at("max"@)), acc.2);
        if b is Some {
            (b, mn, mx)
        } else {
            intensity(a, j + 1, (b, mn, mx))
        }
    }
}

/// `CCD_COOLER`: the `COOLER_ON` switch is the cooler state.
pub open spec fn after_cooler(s: StoreView, p: Json) -> StoreView {
    match named_switch(array_at(p, "switches"@), "COOLER_ON"@) {
        Some(on) => StoreView {
            camera_status: Some(CameraView { cooler_on: Some(on), ..camera_base(s) }),
            ..s
        },
        None => s,
    }
}

/// A camera option-list property: a non-empty list of labels replaces it.
pub open spec fn after_option_list(s: StoreView, p: Json, prop: Seq<char>) -> StoreView {
    let labels = option_labels(array_at(p, "switches"@));
    if labels.len() > 0 {
        StoreView { camera_status: Some(camera_with_options(camera_base(s), prop, labels)), ..s }
    } else {
        s
    }
}

/// `FILTER_NAME`: a non-empty list of texts is the filter wheel's labels.
pub open spec fn after_filter_names(s: StoreView, p: Json) -> StoreView {
    let names = text_values(array_at(p, "texts"@));
    let b = filter_wheel_base(s);
    if names.len() > 0 {
        StoreView {
            filter_wheel_status: Some(
                FilterWheelView {
                    device: or_keep(nonempty_str_at(p, "device"@), b.device),
                    filter_names: names,
                    ..b
                },
            ),
            ..s
        }
    } else {
        s
    }
}

/// `CAP_PARK`: the dust cap's park state.
pub open spec fn after_cap_park(s: StoreView, p: Json) -> StoreView {
    let b = dustcap_base(s);
    StoreView {
        dustcap_status: Some(
            DustCapView {
                device: or_keep(nonempty_str_at(p, "device"@), b.device),
                park_state: cap_park_state(p),
                ..b
            },
        ),
        ..s
    }
}

/// `FLAT_LIGHT_CONTROL`: the `FLAT_LIGHT_ON` switch is the panel light.
pub open spec fn after_flat_light(s: StoreView, p: Json) -> StoreView {
    let b = dustcap_base(s);
    match named_switch(array_at(p, "switches"@), "FLAT_LIGHT_ON"@) {
        Some(on) => StoreView {
            dustcap_status: Some(
                DustCapView {
                    device: or_keep(nonempty_str_at(p, "device"@), b.device),
                    has_light_panel: true,
                    light_on: Some(on),
                    ..b
                },
            ),
            ..s
        },
        None => s,
    }
}

/// `FLAT_LIGHT_INTENSITY`: the panel brightness and its range.
pub open spec fn after_intensity(s: StoreView, p: Json) -> StoreView {
    let b = dustcap_base(s);
    let lvl = intensity(array_at(p, "numbers"@), 0, (None, None, None));
    StoreView {
        dustcap_status: Some(
            DustCapView {
                device: or_keep(nonempty_str_at(p, "device"@), b.device),
                has_light_panel: true,
                brightness: or_keep_some(lvl.0, b.brightness),
                brightness_min: or_keep_some(lvl.1, b.brightness_min),
                brightness_max: or_keep_some(lvl.2, b.brightness_max),
                ..b
            },
        ),
        ..s
    }
}

/// `CCD_INFO`: the camera's pixel and sensor size, when it carries any.
pub open spec fn after_ccd_info(s: StoreView, p: Json) -> StoreView {
    if info_has_values(p) {
        StoreView { camera_status: Some(camera_after_info(camera_base(s), p)), ..s }
    } else {
        s
    }
}

/// `CCD_TEMPERATURE`: the camera's temperature, when it carries one.
pub open spec fn after_ccd_temperature(s: StoreView, p: Json) -> StoreView {
    if indi_number(p, "CCD_TEMPERATURE_VALUE"@) is Some {
        StoreView { camera_status: Some(camera_after_temperature(camera_base(s), p)), ..s }
    } else {
        s
    }
}

/// `ABS_FOCUS_POSITION`: the focuser's position, when it carries one.
pub open spec fn after_focus_position(s: StoreView, p: Json) -> StoreView {
    if indi_number(p, "FOCUS_ABSOLUTE_POSITION"@) is Some {
        StoreView { focus_status: Some(focus_after_position(focus_base(s), p)), ..s }
    } else {
        s
    }
}

/// `FOCUS_TEMPERATURE`: the focuser's temperature, when it carries one.
pub open spec fn after_focus_temperature(s: StoreView, p: Json) -> StoreView {
    if indi_number(p, "TEMPERATURE"@) is Some {
        StoreView { focus_status: Some(focus_after_temperature(focus_base(s), p)), ..s }
    } else {
        s
    }
}

/// `FILTER_SLOT`: the filter wheel's current slot, when it carries one.
pub open spec fn after_filter_slot(s: StoreView, p: Json) -> StoreView {
    if indi_number(p, "FILTER_SLOT_VALUE"@) is Some {
        StoreView {
            filter_wheel_status: Some(filter_wheel_after_slot(filter_wheel_base(s), p)),
            ..s
        }
    } else {
        s
    }
}

/// `EQUATORIAL_EOD_COORD`: the mount's RA (hours) and Dec, when it carries
/// either.
pub open spec fn after_eod_coord(s: StoreView, p: Json) -> StoreView {
    if indi_number(p, "RA"@) is Some || indi_number(p, "DEC"@) is Some {
        StoreView { mount_status: Some(mount_after_coord(mount_base(s), p)), ..s }
    } else {
        s
    }
}

/// `device_property_get` / `device_property_set` for the properties the
/// store follows: the number properties `CCD_INFO`, `CCD_TEMPERATURE`,
/// `ABS_FOCUS_POSITION`, `FOCUS_TEMPERATURE`, `FILTER_SLOT` and
/// `EQUATORIAL_EOD_COORD` (the value of a named element of `numbers`), and
/// the switch and text properties `CCD_COOLER`, the camera option lists,
/// `FILTER_NAME`, `CAP_PARK`, `FLAT_LIGHT_CONTROL`, `FLAT_LIGHT_INTENSITY`.
pub open spec fn after_property(s: StoreView, p: Json) -> StoreView {
    let prop = str_or_empty(p, "name"@);
    if prop == "CCD_INFO"@ {
        after_ccd_info(s, p)
    } else if prop == "ABS_FOCUS_POSITION"@ {
        after_focus_position(s, p)
    } else if prop == "FOCUS_TEMPERATURE"@ {
        after_focus_temperature(s, p)
    } else if prop == "CCD_TEMPERATURE"@ {
        after_ccd_temperature(s, p)
    } else if prop == "FILTER_SLOT"@ {
        after_filter_slot(s, p)
    } else if prop == "EQUATORIAL_EOD_COORD"@ {
        after_eod_coord(s, p)
    } else if prop == "CCD_COOLER"@ {
        after_cooler(s, p)
    } else if is_option_property(prop) {
        after_option_list(s, p, prop)
    } else if prop == "FILTER_NAME"@ {
        after_filter_names(s, p)
    } else if prop == "CAP_PARK"@ {
        after_cap_park(s, p)
    } else if prop == "FLAT_LIGHT_CONTROL"@ {
        after_flat_light(s, p)
    } else if prop == "FLAT_LIGHT_INTENSITY"@ {
        after_intensity(s, p)
    } else {
        s
    }
}

/// The KStars options the guide page follows.
pub open spec fn is_guide_option(n: Seq<char>) -> bool {
    n == "GuiderType"@ || n == "PHD2Host"@ || n == "PHD2Port"@ || n == "LinGuiderHost"@ || n
        == "LinGuiderPort"@
}

/// The first index at or after `j` whose key is `k`.
pub open spec fn key_index(m: Seq<(Seq<char>, Json)>, k: Seq<char>, j: int) -> Option<int>
    decreases m.len() - j,
{
    if j < 0 || j >= m.len() {
        None
    } else if m[j].0 == k {
        Some(j)
    } else {
        key_index(m, k, j + 1)
    }
}

/// A map with `k` set to `v`: an existing entry keeps its place.
pub open spec fn map_insert(m: Seq<(Seq<char>, Json)>, k: Seq<char>, v: Json) -> Seq<
    (Seq<char>, Json),
> {
    match key_index(m, k, 0) {
        Some(i) => m.update(i, (k, v)),
        None => m.push((k, v)),
    }
}

/// What one `{name, value}` element of an `option_get` reply does.
pub open spec fn option_entry(m: Seq<(Seq<char>, Json)>, el: Json) -> Seq<(Seq<char>, Json)> {
    match el.at("name"@).str_of() {
        Some(n) => if is_guide_option(n) {
            match el.get_spec("value"@) {
                Some(v) => map_insert(m, n, v),
                None => m,
            }
        } else {
            m
        },
        None => m,
    }
}

/// The guide options after the elements of an `option_get` reply, in order.
pub open spec fn options_after(m: Seq<(Seq<char>, Json)>, a: Seq<Json>) -> Seq<(Seq<char>, Json)>
    decreases a.len(),
{
    if a.len() == 0 {
        m
    } else {
        option_entry(options_after(m, a.drop_last()), a.last())
    }
}

/// `option_get`: an array of `{name, value}`; only guiding options are kept.
pub open spec fn after_options(s: StoreView, p: Json) -> StoreView {
    match p {
        Json::Array(a) => StoreView { guide_options: options_after(s.guide_options, a@), ..s },
        _ => s,
    }
}

/// The `data:` URL of a preview frame.
pub open spec fn preview_url(ext: Seq<char>, b64: Seq<char>) -> Seq<char> {
    "data:"@ + (if ext == "jpg"@ {
        "image/jpeg"@
    } else {
        "image/png"@
    }) + ";base64,"@ + b64
}

/// `new_preview_image`: `{data, metadata: {uuid, ext}}`. The frame's uuid
/// prefix says which module it belongs to: `+F` focus, `+A` align, `+G`
/// guide, anything else capture.
pub open spec fn after_preview(s: StoreView, p: Json) -> StoreView {
    match p.at("data"@).str_of() {
        Some(b64) => {
            let md = p.at("metadata"@);
            let uuid = str_or_empty(md, "uuid"@);
            let url = Some(preview_url(str_or(md, "ext"@, "jpg"@), b64));
            if has_prefix(uuid, "+F"@) {
                StoreView { focus_preview_url: url, ..s }
            } else if has_prefix(uuid, "+A"@) {
                StoreView { align_preview_url: url, ..s }
            } else if has_prefix(uuid, "+G"@) {
                StoreView { guide_preview_url: url, ..s }
            } else {
                StoreView { capture_preview_url: url, ..s }
            }
        },
        None => s,
    }
}

/// Whether a scheduler job is being processed (state 3).
pub open spec fn job_busy(j: Json) -> bool {
    j.at("state"@).i64_of() == Some(3i64)
}

/// `scheduler_get_jobs`: `{jobs: [..]}` replaces the job list. A scheduler
/// still known as idle (0) that has a busy job is running (2): a browser
/// that connects mid-run sees no state change otherwise.
pub open spec fn after_jobs(s: StoreView, p: Json) -> StoreView {
    match p.at("jobs"@) {
        Json::Array(a) => StoreView {
            scheduler_status: if s.scheduler_status.status == 0 && exists|i: int|
                0 <= i < a@.len() && #[trigger] job_busy(a@[i]) {
                SchedulerView { status: 2, ..s.scheduler_status }
            } else {
                s.scheduler_status
            },
            scheduler_jobs: a@,
            ..s
        },
        _ => s,
    }
}

/// `app_state`: `{kstars, phd2}`, each `"running"` or not.
pub open spec fn after_app_state(s: StoreView, p: Json) -> StoreView {
    StoreView {
        kstars_running: match p.at("kstars"@).str_of() {
            Some(x) => x == "running"@,
            None => s.kstars_running,
        },
        phd2_running: match p.at("phd2"@).str_of() {
            Some(x) => x == "running"@,
            None => s.phd2_running,
        },
        kstars_state_known: true,
        ..s
    }
}

/// Whether a `dialog_get_info` payload describes an open dialog (rather than
/// the empty object KStars sends when it closes).
pub open spec fn dialog_open(p: Json) -> bool {
    p is Object && (p.get_spec("buttons"@) is Some || p.get_spec("message"@) is Some)
}

/// `new_cap_state`.
pub open spec fn after_cap_state(s: StoreView, p: Json) -> StoreView {
    StoreView { dustcap_status: Some(dustcap_after_state(dustcap_base(s), p)), ..s }
}

/// `mount_get_all_settings`.
pub open spec fn after_mount_settings(s: StoreView, p: Json) -> StoreView {
    StoreView { mount_status: Some(mount_after_settings(mount_base(s), p)), ..s }
}

/// `new_mount_state`.
pub open spec fn after_mount_state(s: StoreView, p: Json) -> StoreView {
    StoreView { mount_status: Some(mount_after_state(mount_base(s), p)), ..s }
}

/// The HFR history after a `new_focus_state` message seen at `now`: a
/// positive, finite `hfr` is added with the `pos` sent with it.
pub open spec fn hfr_history_after(h: Seq<HfrSample>, p: Json, now: u64) -> Seq<HfrSample> {
    match number_of(p.at("hfr"@)) {
        Some(n) => if positive_finite(n) {
            keep_last(
                h.push(HfrSample { t_ms: now, hfr: n, position: number_of(p.at("pos"@)) }),
                200,
            )
        } else {
            h
        },
        None => h,
    }
}

/// `new_focus_state`, seen at `now`.
pub open spec fn after_focus_state(s: StoreView, p: Json, now: u64) -> StoreView {
    StoreView {
        focus_status: Some(focus_after_state(focus_base(s), p)),
        focus_hfr_history: hfr_history_after(s.focus_hfr_history, p, now),
        ..s
    }
}

/// The guide status a message starts from.
pub open spec fn guide_base(s: StoreView) -> GuideView {
    or_keep(s.guide_status, guide_default())
}

/// `new_guide_state`, seen at `now`.
pub open spec fn after_guide_state(s: StoreView, p: Json, now: u64) -> StoreView {
    StoreView { guide_status: Some(guide_after_state(guide_base(s), p, now)), ..s }
}

/// `new_camera_state`.
pub open spec fn after_camera_state(s: StoreView, p: Json) -> StoreView {
    StoreView { camera_status: Some(camera_after_state(camera_base(s), p)), ..s }
}

/// `new_capture_state`.
pub open spec fn after_capture_state(s: StoreView, p: Json) -> StoreView {
    StoreView { capture_status: capture_after_state(s.capture_status, p), ..s }
}

/// `new_polar_state`.
pub open spec fn after_polar_state(s: StoreView, p: Json) -> StoreView {
    StoreView { polar_state: polar_after_state(s.polar_state, p), ..s }
}

/// `new_align_state`, seen at `now`: its status text and plate-solve solution.
pub open spec fn after_align_state(s: StoreView, p: Json, now: u64) -> StoreView {
    StoreView {
        align_status: or_keep_some(p.at("status"@).str_of(), s.align_status),
        align_solution: align_after_solution(s.align_solution, p, now),
        ..s
    }
}

/// `new_scheduler_state`.
pub open spec fn after_scheduler_state(s: StoreView, p: Json) -> StoreView {
    StoreView { scheduler_status: scheduler_after_state(s.scheduler_status, p), ..s }
}

/// `new_livestacker_state`.
pub open spec fn after_livestacker_state(s: StoreView, p: Json) -> StoreView {
    StoreView { livestacker_state: Some(livestacker_after_state(livestacker_base(s), p)), ..s }
}

/// `dialog_get_info`: the open dialog, or none once it has closed.
pub open spec fn after_dialog(s: StoreView, p: Json) -> StoreView {
    StoreView {
        active_dialog: if dialog_open(p) {
            Some(p)
        } else {
            None
        },
        ..s
    }
}

/// The store after the message of type `t` with payload `p`. Settings
/// snapshots (`*_get_all_settings`, `capture_get_sequences`), the module
/// train map and the mosaic tiles are kept as sent. `now` is when the message
/// arrived, in ms since the epoch.
pub open spec fn store_after_event(s: StoreView, t: Seq<char>, p: Json, now: u64) -> StoreView {
    if t == "file_default_path"@ {
        after_default_path(s, p)
    } else if t == "new_connection_state"@ {
        after_connection_state(s, p)
    } else if t == "get_devices"@ {
        after_devices(s, p)
    } else if t == "new_cap_state"@ {
        after_cap_state(s, p)
    } else if t == "mount_get_all_settings"@ {
        after_mount_settings(s, p)
    } else if t == "new_mount_state"@ {
        after_mount_state(s, p)
    } else if t == "get_profiles"@ {
        after_profiles(s, p)
    } else if t == "get_drivers"@ {
        after_drivers(s, p)
    } else if t == "get_scopes"@ {
        after_scopes(s, p)
    } else if t == "train_get_all"@ {
        after_trains(s, p)
    } else if t == "train_get_profiles"@ {
        StoreView { module_trains: p, ..s }
    } else if t == "device_property_get"@ || t == "device_property_set"@ {
        after_property(s, p)
    } else if t == "new_focus_state"@ {
        after_focus_state(s, p, now)
    } else if t == "focus_get_all_settings"@ {
        StoreView { focus_settings: p, ..s }
    } else if t == "new_camera_state"@ {
        after_camera_state(s, p)
    } else if t == "new_capture_state"@ {
        after_capture_state(s, p)
    } else if t == "capture_get_all_settings"@ {
        StoreView { capture_settings: p, ..s }
    } else if t == "capture_get_sequences"@ {
        StoreView { capture_sequence: p, ..s }
    } else if t == "new_polar_state"@ {
        after_polar_state(s, p)
    } else if t == "align_get_all_settings"@ {
        StoreView { align_settings: p, ..s }
    } else if t == "new_align_state"@ {
        after_align_state(s, p, now)
    } else if t == "new_guide_state"@ {
        after_guide_state(s, p, now)
    } else if t == "guide_get_all_settings"@ {
        StoreView { guide_settings: p, ..s }
    } else if t == "option_get"@ {
        after_options(s, p)
    } else if t == "new_preview_image"@ {
        after_preview(s, p)
    } else if t == "new_scheduler_state"@ {
        after_scheduler_state(s, p)
    } else if t == "scheduler_get_jobs"@ {
        after_jobs(s, p)
    } else if t == "scheduler_get_all_settings"@ {
        StoreView { scheduler_settings: p, ..s }
    } else if t == "new_mosaic_tiles"@ {
        StoreView { mosaic_tiles: Some(p), ..s }
    } else if t == "new_livestacker_state"@ {
        after_livestacker_state(s, p)
    } else if t == "livestacker_get_all_settings"@ {
        StoreView { livestacker_settings: p, ..s }
    } else if t == "app_state"@ {
        after_app_state(s, p)
    } else if t == "dialog_get_info"@ {
        after_dialog(s, p)
    } else {
        s
    }
}

// ── Applying messages ────────────────────────────────────────────────────────

impl DeviceStore {
    /// The store before any message.
    pub fn new() -> (r: DeviceStore)
        ensures
            r@ == store_initial(),
    {
        let r = DeviceStore {
            connected: false,
            online: false,
            home_dir: String::new(),
            mount_status: None,
            camera_status: None,
            filter_wheel_status: None,
            optical_trains: Vec::new(),
            scopes: Vec::new(),
            devices: Vec::new(),
            module_trains: Json::Null,
            focus_status: None,
            focus_settings: Json::Null,
            focus_preview_url: None,
            focus_hfr_history: Vec::new(),
            capture_status: CaptureStatus::new(),
            capture_settings: Json::Null,
            capture_sequence: Json::Null,
            capture_preview_url: None,
            polar_state: PolarState::new(),
            align_settings: Json::Null,
            align_status: None,
            align_solution: AlignSolution::new(),
            align_preview_url: None,
            guide_status: None,
            guide_settings: Json::Null,
            guide_options: Vec::new(),
            guide_preview_url: None,
            scheduler_status: SchedulerStatusData::new(),
            scheduler_settings: Json::Null,
            scheduler_jobs: Vec::new(),
            mosaic_tiles: None,
            livestacker_state: None,
            livestacker_settings: Json::Null,
            dustcap_status: None,
            profiles: Vec::new(),
            selected_profile: None,
            drivers: Vec::new(),
            kstars_running: false,
            phd2_running: false,
            kstars_state_known: false,
            active_dialog: None,
        };
        assert(views(r.optical_trains@) =~= seq![]);
        assert(views(r.scopes@) =~= seq![]);
        assert(views(r.devices@) =~= seq![]);
        assert(members_view(r.guide_options@) =~= seq![]);
        assert(r.scheduler_jobs@ =~= seq![]);
        assert(views(r.profiles@) =~= seq![]);
        assert(views(r.drivers@) =~= seq![]);
        r
    }

    fn on_default_path(&mut self, p: &Json)
        ensures
            final(self)@ == after_default_path(old(self)@, *p),
    {
        if let Some(h) = p.as_str() {
            if !h.is_empty() {
                self.home_dir = String::from_str(h);
            }
        }
    }

    fn on_connection_state(&mut self, p: &Json)
        ensures
            final(self)@ == after_connection_state(old(self)@, *p),
    {
        let connected = match p.bool_at("connected") {
            Some(b) => b,
            None => false,
        };
        let online = match p.bool_at("online") {
            Some(b) => b,
            None => false,
        };
        self.connected = connected;
        self.online = connected && online;
        if let Some(h) = p.str_at("home_dir") {
            if !h.is_empty() {
                self.home_dir = String::from_str(h);
            }
        }
        if !connected {
            self.mount_status = None;
            self.camera_status = None;
            self.filter_wheel_status = None;
            self.focus_status = None;
            self.focus_preview_url = None;
            self.focus_hfr_history = Vec::new();
            self.polar_state = PolarState::new();
            self.align_settings = Json::Null;
            self.align_status = None;
            self.align_solution = AlignSolution::new();
            self.align_preview_url = None;
            self.guide_status = None;
            self.guide_preview_url = None;
            self.scheduler_status = SchedulerStatusData::new();
            self.scheduler_jobs = Vec::new();
            assert(self.scheduler_jobs@ =~= seq![]);
            self.mosaic_tiles = None;
            self.livestacker_state = None;
            self.dustcap_status = None;
        }
    }

    fn on_cap_state(&mut self, p: &Json)
        ensures
            final(self)@ == (StoreView {
                dustcap_status: Some(dustcap_after_state(dustcap_base(old(self)@), *p)),
                ..old(self)@
            }),
    {
        let mut d = match self.dustcap_status.take() {
            Some(d) => d,
            None => DustCapStatus::new(),
        };
        d.apply_state(p);
        self.dustcap_status = Some(d);
    }

    fn on_mount_settings(&mut self, p: &Json)
        ensures
            final(self)@ == (StoreView {
                mount_status: Some(mount_after_settings(mount_base(old(self)@), *p)),
                ..old(self)@
            }),
    {
        let mut m = match self.mount_status.take() {
            Some(m) => m,
            None => MountStatus::new(),
        };
        m.apply_settings(p);
        self.mount_status = Some(m);
    }

    fn on_mount_state(&mut self, p: &Json)
        ensures
            final(self)@ == (StoreView {
                mount_status: Some(mount_after_state(mount_base(old(self)@), *p)),
                ..old(self)@
            }),
    {
        let mut m = match self.mount_status.take() {
            Some(m) => m,
            None => MountStatus::new(),
        };
        m.apply_state(p);
        self.mount_status = Some(m);
    }

    fn on_focus_state(&mut self, p: &Json, now_ms: u64)
        ensures
            final(self)@ == after_focus_state(old(self)@, *p, now_ms),
    {
        let mut f = match self.focus_status.take() {
            Some(f) => f,
            None => FocusStatus::new(),
        };
        f.apply_state(p);
        self.focus_status = Some(f);
        if let Some(n) = number_at(p, "hfr") {
            if is_positive_finite(n) {
                let position = number_at(p, "pos");
                self.focus_hfr_history.push(HfrSample { t_ms: now_ms, hfr: n, position });
                drop_oldest(&mut self.focus_hfr_history, 200);
            }
        }
    }

    fn on_guide_state(&mut self, p: &Json, now_ms: u64)
        ensures
            final(self)@ == after_guide_state(old(self)@, *p, now_ms),
    {
        let mut g = match self.guide_status.take() {
            Some(g) => g,
            None => GuideStatus::new(),
        };
        g.apply_state(p, now_ms);
        self.guide_status = Some(g);
    }

    fn on_camera_state(&mut self, p: &Json)
        ensures
            final(self)@ == (StoreView {
                camera_status: Some(camera_after_state(camera_base(old(self)@), *p)),
                ..old(self)@
            }),
    {
        let mut c = match self.camera_status.take() {
            Some(c) => c,
            None => CameraStatus::new(),
        };
        c.apply_state(p);
        self.camera_status = Some(c);
    }

    fn on_livestacker_state(&mut self, p: &Json)
        ensures
            final(self)@ == (StoreView {
                livestacker_state: Some(
                    livestacker_after_state(livestacker_base(old(self)@), *p),
                ),
                ..old(self)@
            }),
    {
        let mut l = match self.livestacker_state.take() {
            Some(l) => l,
            None => LiveStackerState::new(),
        };
        l.apply_state(p);
        self.livestacker_state = Some(l);
    }

    fn on_align_state(&mut self, p: &Json, now_ms: u64)
        ensures
            final(self)@ == after_align_state(old(self)@, *p, now_ms),
    {
        if let Some(st) = p.str_at("status") {
            self.align_status = Some(String::from_str(st));
        }
        self.align_solution.apply_solution(p, now_ms);
    }

    fn on_app_state(&mut self, p: &Json)
        ensures
            final(self)@ == after_app_state(old(self)@, *p),
    {
        if let Some(x) = p.str_at("kstars") {
            self.kstars_running = str_is(x, "running");
        }
        if let Some(x) = p.str_at("phd2") {
            self.phd2_running = str_is(x, "running");
        }
        self.kstars_state_known = true;
    }

    fn on_dialog(&mut self, p: Json)
        ensures
            final(self)@ == (StoreView {
                active_dialog: if dialog_open(p) {
                    Some(p)
                } else {
                    None
                },
                ..old(self)@
            }),
    {
        let open = match &p {
            Json::Object(_) => p.get("buttons").is_some() || p.get("message").is_some(),
            _ => false,
        };
        if open {
            self.active_dialog = Some(p);
        } else {
            self.active_dialog = None;
        }
    }
}

// ── Reading element arrays ───────────────────────────────────────────────────

fn take_from_members(members: Vec<JsonMember>, key: &str) -> (r: Option<Json>)
    ensures
        r == member_from(members@, key@, 0),
{
    let mut m = members;
    let mut i: usize = 0;
    while i < m.len()
        invariant
            i <= m@.len(),
            m@ == members@,
            member_from(members@, key@, 0) == member_from(m@, key@, i as int),
        decreases m.len() - i,
    {
        if str_is(m[i].key.as_str(), key) {
            let ghost mi = m@[i as int];
            assert(member_from(m@, key@, i as int) == Some(mi.value));
            let mem = m.remove(i);
            return Some(mem.value);
        }
        i += 1;
    }
    None
}

/// The member `k` of an object, moved out of it.
pub fn take_member(v: Json, key: &str) -> (r: Option<Json>)
    ensures
        r == v.get_spec(key@),
{
    match v {
        Json::Object(members) => take_from_members(members, key),
        _ => None,
    }
}

fn array_member<'a>(v: &'a Json, k: &str, empty: &'a Vec<Json>) -> (r: &'a Vec<Json>)
    requires
        empty@.len() == 0,
    ensures
        r@ == array_at(*v, k@),
{
    match v.get(k) {
        Some(Json::Array(a)) => a,
        _ => {
            assert(empty@ =~= seq![]);
            empty
        },
    }
}

fn switch_state(el: &Json) -> (r: Option<bool>)
    ensures
        r == switch_value(*el),
{
    match el.bool_at("value") {
        Some(b) => Some(b),
        None => match el.str_at("state") {
            Some(st) => Some(str_is(st, "On")),
            None => None,
        },
    }
}

/// The state of the last switch element named `n`.
pub fn find_switch(a: &Vec<Json>, n: &str) -> (r: Option<bool>)
    ensures
        r == named_switch(a@, n@),
{
    let mut acc: Option<bool> = None;
    let mut i: usize = 0;
    while i < a.len()
        invariant
            i <= a@.len(),
            acc == named_switch(a@.take(i as int), n@),
        decreases a.len() - i,
    {
        assert(a@.take(i as int + 1).drop_last() =~= a@.take(i as int));
        assert(a@.take(i as int + 1).last() == a@[i as int]);
        let name = get_string(&a[i], "name");
        if str_is(name.as_str(), n) {
            acc = switch_state(&a[i]);
        }
        i += 1;
    }
    assert(a@.take(a@.len() as int) =~= a@);
    acc
}

/// The option labels of a switch property's elements.
pub fn collect_option_labels(a: &Vec<Json>) -> (r: Vec<String>)
    ensures
        strings_view(r@) == option_labels(a@),
{
    let mut out: Vec<String> = Vec::new();
    let mut i: usize = 0;
    assert(strings_view(out@) =~= option_labels(a@.take(0)));
    while i < a.len()
        invariant
            i <= a@.len(),
            strings_view(out@) == option_labels(a@.take(i as int)),
        decreases a.len() - i,
    {
        assert(a@.take(i as int + 1).drop_last() =~= a@.take(i as int));
        assert(a@.take(i as int + 1).last() == a@[i as int]);
        let ghost before = out@;
        let el = &a[i];
        let mut pushed = false;
        if let Some(l) = el.str_at("label") {
            if !l.is_empty() {
                out.push(String::from_str(l));
                pushed = true;
            }
        }
        if !pushed {
            if let Some(n) = el.str_at("name") {
                if !n.is_empty() {
                    out.push(String::from_str(n));
                }
            }
        }
        assert(strings_view(out@) =~= strings_view(before) + option_label(a@[i as int]));
        i += 1;
    }
    assert(a@.take(a@.len() as int) =~= a@);
    out
}

/// The `text` of each text element that has one.
pub fn collect_texts(a: &Vec<Json>) -> (r: Vec<String>)
    ensures
        strings_view(r@) == text_values(a@),
{
    let mut out: Vec<String> = Vec::new();
    let mut i: usize = 0;
    assert(strings_view(out@) =~= text_values(a@.take(0)));
    while i < a.len()
        invariant
            i <= a@.len(),
            strings_view(out@) == text_values(a@.take(i as int)),
        decreases a.len() - i,
    {
        assert(a@.take(i as int + 1).drop_last() =~= a@.take(i as int));
        assert(a@.take(i as int + 1).last() == a@[i as int]);
        let ghost before = out@;
        if let Some(t) = a[i].str_at("text") {
            out.push(String::from_str(t));
            assert(strings_view(out@) =~= strings_view(before) + seq![t@]);
        } else {
            assert(strings_view(out@) =~= strings_view(before) + seq![]);
        }
        i += 1;
    }
    assert(a@.take(a@.len() as int) =~= a@);
    out
}

/// Brightness, minimum and maximum of a light box intensity property.
pub fn read_intensity(a: &Vec<Json>) -> (r: (Option<JsonNumber>, Option<JsonNumber>, Option<JsonNumber>))
    ensures
        r == intensity(a@, 0, (None, None, None)),
{
    let mut b: Option<JsonNumber> = None;
    let mut mn: Option<JsonNumber> = None;
    let mut mx: Option<JsonNumber> = None;
    let mut i: usize = 0;
    while i < a.len()
        invariant_except_break
            i <= a@.len(),
            b is None,
            intensity(a@, 0, (None, None, None)) == intensity(a@, i as int, (b, mn, mx)),
        ensures
            intensity(a@, 0, (None, None, None)) == (b, mn, mx),
        decreases a.len() - i,
    {
        let el = &a[i];
        if let Some(x) = number_at(el, "value") {
            b = Some(x);
        }
        if let Some(x) = number_at(el, "min") {
            mn = Some(x);
        }
        if let Some(x) = number_at(el, "max") {
            mx = Some(x);
        }
        if b.is_some() {
            break;
        }
        i += 1;
    }
    (b, mn, mx)
}

/// Sets `k` to `v` in an object's members; an existing member keeps its place.
pub fn insert_member(m: &mut Vec<JsonMember>, k: String, v: Json)
    ensures
        members_view(final(m)@) == map_insert(members_view(old(m)@), k@, v),
{
    let ghost mv = members_view(m@);
    let ghost kv = k@;
    let mut i: usize = 0;
    let mut found = false;
    while i < m.len()
        invariant_except_break
            i <= m@.len(),
            mv == members_view(m@),
            kv == k@,
            !found,
            key_index(mv, kv, 0) == key_index(mv, kv, i as int),
        ensures
            mv == members_view(m@),
            found ==> i < m@.len() && key_index(mv, kv, 0) == Some(i as int),
            !found ==> key_index(mv, kv, 0) is None,
        decreases m.len() - i,
    {
        assert(mv[i as int].0 == m@[i as int].key@);
        if str_is(m[i].key.as_str(), k.as_str()) {
            found = true;
            break;
        }
        i += 1;
    }
    if found {
        m.remove(i);
        m.insert(i, JsonMember { key: k, value: v });
        assert(members_view(m@) =~= mv.update(i as int, (kv, v)));
    } else {
        m.push(JsonMember { key: k, value: v });
        assert(members_view(m@) =~= mv.push((kv, v)));
    }
}

fn is_guide_option_name(n: &str) -> (r: bool)
    ensures
        r == is_guide_option(n@),
{
    str_is(n, "GuiderType") || str_is(n, "PHD2Host") || str_is(n, "PHD2Port") || str_is(
        n,
        "LinGuiderHost",
    ) || str_is(n, "LinGuiderPort")
}

impl DeviceStore {
    fn on_devices(&mut self, p: &Json)
        ensures
            final(self)@ == after_devices(old(self)@, *p),
    {
        if let Json::Array(a) = p {
            let mut devs: Vec<DeviceInfo> = Vec::new();
            let mut i: usize = 0;
            while i < a.len()
                invariant
                    i <= a@.len(),
                    devs@.len() == i,
                    forall|j: int| 0 <= j < i ==> #[trigger] devs@[j]@ == device_of(a@[j]),
                decreases a.len() - i,
            {
                devs.push(DeviceInfo::from_json(&a[i]));
                i += 1;
            }
            assert(views(devs@) =~= a@.map_values(|v: Json| device_of(v)));
            self.devices = devs;
            let mut k: usize = 0;
            let mut found: Option<usize> = None;
            while k < a.len()
                invariant_except_break
                    k <= a@.len(),
                    found is None,
                    first_cap_device(a@, 0) == first_cap_device(a@, k as int),
                ensures
                    found matches Some(f) ==> f < a@.len() && first_cap_device(a@, 0) == Some(
                        f as int,
                    ),
                    found is None ==> first_cap_device(a@, 0) is None,
                decreases a.len() - k,
            {
                let iface = match a[k].i64_at("interface") {
                    Some(x) => x,
                    None => 0,
                };
                if iface & (512i64 | 1024i64) != 0 {
                    assert(first_cap_device(a@, k as int) == Some(k as int));
                    found = Some(k);
                    break;
                }
                k += 1;
            }
            if let Some(k) = found {
                let d = &a[k];
                let iface = match d.i64_at("interface") {
                    Some(x) => x,
                    None => 0,
                };
                let mut dc = match self.dustcap_status.take() {
                    Some(x) => x,
                    None => DustCapStatus::new(),
                };
                if let Some(nm) = d.str_at("name") {
                    if !nm.is_empty() {
                        dc.device = String::from_str(nm);
                    }
                }
                dc.connected = get_bool(d, "connected");
                dc.has_light_panel = iface & 1024i64 != 0;
                self.dustcap_status = Some(dc);
            }
        }
    }

    fn on_profiles(&mut self, p: &Json)
        ensures
            final(self)@ == after_profiles(old(self)@, *p),
    {
        if let Some(Json::Array(a)) = p.get("profiles") {
            let mut out: Vec<ProfileInfo> = Vec::new();
            let mut i: usize = 0;
            while i < a.len()
                invariant
                    i <= a@.len(),
                    out@.len() == i,
                    forall|j: int| 0 <= j < i ==> #[trigger] out@[j]@ == profile_of(a@[j]),
                decreases a.len() - i,
            {
                out.push(ProfileInfo::from_json(&a[i]));
                i += 1;
            }
            assert(views(out@) =~= a@.map_values(|v: Json| profile_of(v)));
            self.profiles = out;
        }
        if let Some(x) = p.str_at("selectedProfile") {
            self.selected_profile = if x.is_empty() {
                None
            } else {
                Some(String::from_str(x))
            };
        }
    }

    fn on_drivers(&mut self, p: &Json)
        ensures
            final(self)@ == after_drivers(old(self)@, *p),
    {
        if let Json::Array(a) = p {
            let mut out: Vec<DriverInfo> = Vec::new();
            let mut i: usize = 0;
            while i < a.len()
                invariant
                    i <= a@.len(),
                    out@.len() == i,
                    forall|j: int| 0 <= j < i ==> #[trigger] out@[j]@ == driver_of(a@[j]),
                decreases a.len() - i,
            {
                out.push(DriverInfo::from_json(&a[i]));
                i += 1;
            }
            assert(views(out@) =~= a@.map_values(|v: Json| driver_of(v)));
            self.drivers = out;
        }
    }

    fn on_scopes(&mut self, p: &Json)
        ensures
            final(self)@ == after_scopes(old(self)@, *p),
    {
        if let Json::Array(a) = p {
            let mut out: Vec<ScopeInfo> = Vec::new();
            let mut i: usize = 0;
            while i < a.len()
                invariant
                    i <= a@.len(),
                    out@.len() == i,
                    forall|j: int| 0 <= j < i ==> #[trigger] out@[j]@ == scope_of(a@[j]),
                decreases a.len() - i,
            {
                out.push(ScopeInfo::from_json(&a[i]));
                i += 1;
            }
            assert(views(out@) =~= a@.map_values(|v: Json| scope_of(v)));
            self.scopes = out;
        }
    }

    fn on_trains(&mut self, p: &Json)
        ensures
            final(self)@ == after_trains(old(self)@, *p),
    {
        if let Json::Array(a) = p {
            let mut out: Vec<OpticalTrain> = Vec::new();
            let mut i: usize = 0;
            while i < a.len()
                invariant
                    i <= a@.len(),
                    out@.len() == i,
                    forall|j: int| 0 <= j < i ==> #[trigger] out@[j]@ == train_of(a@[j]),
                decreases a.len() - i,
            {
                out.push(OpticalTrain::from_json(&a[i]));
                i += 1;
            }
            assert(views(out@) =~= a@.map_values(|v: Json| train_of(v)));
            self.optical_trains = out;
        }
    }

    fn on_options(&mut self, p: Json)
        ensures
            final(self)@ == after_options(old(self)@, p),
    {
        if let Json::Array(arr) = p {
            let n = arr.len();
            let ghost orig = arr@;
            assert(orig.len() == n);
            let ghost m0 = members_view(self.guide_options@);
            let mut rest = arr;
            let mut i: usize = 0;
            while rest.len() > 0
                invariant
                    i <= orig.len(),
                    orig.len() <= usize::MAX,
                    i + rest@.len() == orig.len(),
                    rest@ == orig.subrange(i as int, orig.len() as int),
                    members_view(self.guide_options@) == options_after(m0, orig.take(i as int)),
                    self@ == (StoreView { guide_options: members_view(self.guide_options@), ..old(self)@ }),
                decreases rest.len(),
            {
                assert(orig.take(i as int + 1).drop_last() =~= orig.take(i as int));
                assert(orig.take(i as int + 1).last() == orig[i as int]);
                let el = rest.remove(0);
                assert(el == orig[i as int]);
                assert(rest@ =~= orig.subrange(i as int + 1, orig.len() as int));
                if let Some(n) = el.str_at("name") {
                    if is_guide_option_name(n) {
                        let key = String::from_str(n);
                        if let Some(v) = take_member(el, "value") {
                            insert_member(&mut self.guide_options, key, v);
                        }
                    }
                }
                i += 1;
            }
            assert(orig.take(orig.len() as int) =~= orig);
        }
    }

    fn on_preview(&mut self, p: &Json)
        ensures
            final(self)@ == after_preview(old(self)@, *p),
    {
        if let Some(b64) = p.str_at("data") {
            let null = Json::Null;
            let md = member(p, "metadata", &null);
            let uuid = get_string(md, "uuid");
            let ext = get_string_or(md, "ext", "jpg");
            let mut v: Vec<char> = Vec::new();
            push_str(&mut v, "data:");
            if str_is(ext.as_str(), "jpg") {
                push_str(&mut v, "image/jpeg");
            } else {
                push_str(&mut v, "image/png");
            }
            push_str(&mut v, ";base64,");
            push_str(&mut v, b64);
            assert(v@ =~= preview_url(ext@, b64@));
            let url = string_of(v.as_slice());
            if str_starts_with(uuid.as_str(), "+F") {
                self.focus_preview_url = Some(url);
            } else if str_starts_with(uuid.as_str(), "+A") {
                self.align_preview_url = Some(url);
            } else if str_starts_with(uuid.as_str(), "+G") {
                self.guide_preview_url = Some(url);
            } else {
                self.capture_preview_url = Some(url);
            }
        }
    }

    fn on_jobs(&mut self, p: Json)
        ensures
            final(self)@ == after_jobs(old(self)@, p),
    {
        let mut busy = false;
        if let Some(Json::Array(a)) = p.get("jobs") {
            let mut i: usize = 0;
            while i < a.len()
                invariant_except_break
                    i <= a@.len(),
                    !busy,
                    forall|j: int| 0 <= j < i ==> !#[trigger] job_busy(a@[j]),
                ensures
                    busy <==> exists|j: int| 0 <= j < a@.len() && #[trigger] job_busy(a@[j]),
                decreases a.len() - i,
            {
                if a[i].i64_at("state") == Some(3i64) {
                    assert(job_busy(a@[i as int]));
                    busy = true;
                    break;
                }
                i += 1;
            }
        }
        let promote = self.scheduler_status.status == 0 && busy;
        if let Some(Json::Array(jobs)) = take_member(p, "jobs") {
            if promote {
                self.scheduler_status.status = 2;
            }
            self.scheduler_jobs = jobs;
        }
    }
}

fn is_option_property_name(prop: &str) -> (r: bool)
    ensures
        r == is_option_property(prop@),
{
    str_is(prop, "CCD_CAPTURE_FORMAT") || str_is(prop, "CCD_TRANSFER_FORMAT") || str_is(
        prop,
        "CCD_ISO",
    ) || str_is(prop, "CCD_FRAME_TYPE")
}

impl DeviceStore {
    fn take_camera(&mut self) -> (r: CameraStatus)
        ensures
            r@ == camera_base(old(self)@),
            final(self)@ == (StoreView { camera_status: None, ..old(self)@ }),
    {
        match self.camera_status.take() {
            Some(c) => c,
            None => CameraStatus::new(),
        }
    }

    fn take_dustcap(&mut self) -> (r: DustCapStatus)
        ensures
            r@ == dustcap_base(old(self)@),
            final(self)@ == (StoreView { dustcap_status: None, ..old(self)@ }),
    {
        match self.dustcap_status.take() {
            Some(d) => d,
            None => DustCapStatus::new(),
        }
    }

    fn on_cooler(&mut self, p: &Json)
        ensures
            final(self)@ == after_cooler(old(self)@, *p),
    {
        let empty: Vec<Json> = Vec::new();
        if let Some(on) = find_switch(array_member(p, "switches", &empty), "COOLER_ON") {
            let mut c = self.take_camera();
            c.cooler_on = Some(on);
            self.camera_status = Some(c);
        }
    }

    fn on_option_list(&mut self, p: &Json, prop: &str)
        ensures
            final(self)@ == after_option_list(old(self)@, *p, prop@),
    {
        let empty: Vec<Json> = Vec::new();
        let labels = collect_option_labels(array_member(p, "switches", &empty));
        if labels.len() > 0 {
            let mut c = self.take_camera();
            c.set_options(prop, labels);
            self.camera_status = Some(c);
        }
    }

    fn on_filter_names(&mut self, p: &Json)
        ensures
            final(self)@ == after_filter_names(old(self)@, *p),
    {
        let empty: Vec<Json> = Vec::new();
        let names = collect_texts(array_member(p, "texts", &empty));
        if names.len() > 0 {
            let mut f = match self.filter_wheel_status.take() {
                Some(f) => f,
                None => FilterWheelStatusData::new(),
            };
            set_nonempty_str(&mut f.device, p, "device");
            f.filter_names = names;
            self.filter_wheel_status = Some(f);
        }
    }

    fn on_cap_park(&mut self, p: &Json)
        ensures
            final(self)@ == after_cap_park(old(self)@, *p),
    {
        let empty: Vec<Json> = Vec::new();
        let sw = array_member(p, "switches", &empty);
        let busy = match p.str_at("state") {
            Some(st) => str_is(st, "Busy"),
            None => false,
        };
        let park_state = if busy {
            DustCapParkState::Moving
        } else if find_switch(sw, "PARK") == Some(true) {
            DustCapParkState::Parked
        } else if find_switch(sw, "UNPARK") == Some(true) {
            DustCapParkState::Unparked
        } else {
            DustCapParkState::Unknown
        };
        let mut d = self.take_dustcap();
        set_nonempty_str(&mut d.device, p, "device");
        d.park_state = park_state;
        self.dustcap_status = Some(d);
    }

    fn on_flat_light(&mut self, p: &Json)
        ensures
            final(self)@ == after_flat_light(old(self)@, *p),
    {
        let empty: Vec<Json> = Vec::new();
        if let Some(on) = find_switch(array_member(p, "switches", &empty), "FLAT_LIGHT_ON") {
            let mut d = self.take_dustcap();
            set_nonempty_str(&mut d.device, p, "device");
            d.has_light_panel = true;
            d.light_on = Some(on);
            self.dustcap_status = Some(d);
        }
    }

    fn on_intensity(&mut self, p: &Json)
        ensures
            final(self)@ == after_intensity(old(self)@, *p),
    {
        let empty: Vec<Json> = Vec::new();
        let (b, mn, mx) = read_intensity(array_member(p, "numbers", &empty));
        let mut d = self.take_dustcap();
        set_nonempty_str(&mut d.device, p, "device");
        d.has_light_panel = true;
        if b.is_some() {
            d.brightness = b;
        }
        if mn.is_some() {
            d.brightness_min = mn;
        }
        if mx.is_some() {
            d.brightness_max = mx;
        }
        self.dustcap_status = Some(d);
    }

    fn on_property(&mut self, p: &Json)
        ensures
            final(self)@ == after_property(old(self)@, *p),
    {
        let prop = get_string(p, "name");
        if str_is(prop.as_str(), "CCD_INFO") {
            let has = indi_number_at(p, "CCD_PIXEL_SIZE_X").is_some()
                || indi_number_at(p, "CCD_PIXEL_SIZE_Y").is_some()
                || indi_number_at(p, "CCD_PIXEL_SIZE").is_some()
                || indi_number_at(p, "CCD_MAX_X").is_some()
                || indi_number_at(p, "CCD_MAX_Y").is_some();
            if has {
                let mut c = self.take_camera();
                c.apply_info(p);
                self.camera_status = Some(c);
            }
        } else if str_is(prop.as_str(), "ABS_FOCUS_POSITION") {
            if indi_number_at(p, "FOCUS_ABSOLUTE_POSITION").is_some() {
                let mut f = match self.focus_status.take() {
                    Some(f) => f,
                    None => FocusStatus::new(),
                };
                f.apply_position(p);
                self.focus_status = Some(f);
            }
        } else if str_is(prop.as_str(), "FOCUS_TEMPERATURE") {
            if indi_number_at(p, "TEMPERATURE").is_some() {
                let mut f = match self.focus_status.take() {
                    Some(f) => f,
                    None => FocusStatus::new(),
                };
                f.apply_temperature(p);
                self.focus_status = Some(f);
            }
        } else if str_is(prop.as_str(), "CCD_TEMPERATURE") {
            if indi_number_at(p, "CCD_TEMPERATURE_VALUE").is_some() {
                let mut c = self.take_camera();
                c.apply_temperature(p);
                self.camera_status = Some(c);
            }
        } else if str_is(prop.as_str(), "FILTER_SLOT") {
            if indi_number_at(p, "FILTER_SLOT_VALUE").is_some() {
                let mut f = match self.filter_wheel_status.take() {
                    Some(f) => f,
                    None => FilterWheelStatusData::new(),
                };
                f.apply_slot(p);
                self.filter_wheel_status = Some(f);
            }
        } else if str_is(prop.as_str(), "EQUATORIAL_EOD_COORD") {
            if indi_number_at(p, "RA").is_some() || indi_number_at(p, "DEC").is_some() {
                let mut m = match self.mount_status.take() {
                    Some(m) => m,
                    None => MountStatus::new(),
                };
                m.apply_coord(p);
                self.mount_status = Some(m);
            }
        } else if str_is(prop.as_str(), "CCD_COOLER") {
            self.on_cooler(p);
        } else if is_option_property_name(prop.as_str()) {
            self.on_option_list(p, prop.as_str());
        } else if str_is(prop.as_str(), "FILTER_NAME") {
            self.on_filter_names(p);
        } else if str_is(prop.as_str(), "CAP_PARK") {
            self.on_cap_park(p);
        } else if str_is(prop.as_str(), "FLAT_LIGHT_CONTROL") {
            self.on_flat_light(p);
        } else if str_is(prop.as_str(), "FLAT_LIGHT_INTENSITY") {
            self.on_intensity(p);
        }
    }
}

impl DeviceStore {
    /// Applies one Ekos Live message of type `type_str` to the store (see
    /// [`store_after_event`]), received at `now_ms` (ms since the epoch).
    /// The payload is moved in: settings snapshots, job lists and dialogs are
    /// kept as they arrived.
    pub fn apply_ekos_event(&mut self, type_str: &str, payload: Json, now_ms: u64)
        ensures
            final(self)@ == store_after_event(old(self)@, type_str@, payload, now_ms),
    {
        let t = type_str;
        if str_is(t, "file_default_path") {
            self.on_default_path(&payload);
        } else if str_is(t, "new_connection_state") {
            self.on_connection_state(&payload);
        } else if str_is(t, "get_devices") {
            self.on_devices(&payload);
        } else if str_is(t, "new_cap_state") {
            self.on_cap_state(&payload);
        } else if str_is(t, "mount_get_all_settings") {
            self.on_mount_settings(&payload);
        } else if str_is(t, "new_mount_state") {
            self.on_mount_state(&payload);
        } else if str_is(t, "get_profiles") {
            self.on_profiles(&payload);
        } else if str_is(t, "get_drivers") {
            self.on_drivers(&payload);
        } else if str_is(t, "get_scopes") {
            self.on_scopes(&payload);
        } else if str_is(t, "train_get_all") {
            self.on_trains(&payload);
        } else if str_is(t, "train_get_profiles") {
            self.module_trains = payload;
        } else if str_is(t, "device_property_get") || str_is(t, "device_property_set") {
            self.on_property(&payload);
        } else if str_is(t, "new_focus_state") {
            self.on_focus_state(&payload, now_ms);
        } else if str_is(t, "focus_get_all_settings") {
            self.focus_settings = payload;
        } else if str_is(t, "new_camera_state") {
            self.on_camera_state(&payload);
        } else if str_is(t, "new_capture_state") {
            self.capture_status.apply_state(&payload);
        } else if str_is(t, "capture_get_all_settings") {
            self.capture_settings = payload;
        } else if str_is(t, "capture_get_sequences") {
            self.capture_sequence = payload;
        } else if str_is(t, "new_polar_state") {
            self.polar_state.apply_state(&payload);
        } else if str_is(t, "align_get_all_settings") {
            self.align_settings = payload;
        } else if str_is(t, "new_align_state") {
            self.on_align_state(&payload, now_ms);
        } else if str_is(t, "new_guide_state") {
            self.on_guide_state(&payload, now_ms);
        } else if str_is(t, "guide_get_all_settings") {
            self.guide_settings = payload;
        } else if str_is(t, "option_get") {
            self.on_options(payload);
        } else if str_is(t, "new_preview_image") {
            self.on_preview(&payload);
        } else if str_is(t, "new_scheduler_state") {
            self.scheduler_status.apply_state(&payload);
        } else if str_is(t, "scheduler_get_jobs") {
            self.on_jobs(payload);
        } else if str_is(t, "scheduler_get_all_settings") {
            self.scheduler_settings = payload;
        } else if str_is(t, "new_mosaic_tiles") {
            self.mosaic_tiles = Some(payload);
        } else if str_is(t, "new_livestacker_state") {
            self.on_livestacker_state(&payload);
        } else if str_is(t, "livestacker_get_all_settings") {
            self.livestacker_settings = payload;
        } else if str_is(t, "app_state") {
            self.on_app_state(&payload);
        } else if str_is(t, "dialog_get_info") {
            self.on_dialog(payload);
        }
    }
}

// ── Module trains ────────────────────────────────────────────────────────────

/// The first train at or after `j` whose id is `id`.
pub open spec fn train_with_id(ts: Seq<TrainView>, id: i64, j: int) -> Option<int>
    decreases ts.len() - j,
{
    if j < 0 || j >= ts.len() {
        None
    } else if ts[j].id == id {
        Some(j)
    } else {
        train_with_id(ts, id, j + 1)
    }
}

/// Which train the Ekos module `key` uses: the train whose id the module map
/// gives, else the first train, if there is any.
pub open spec fn module_train_index(s: StoreView, key: Seq<char>) -> Option<int> {
    let first = if s.optical_trains.len() > 0 {
        Some(0int)
    } else {
        None
    };
    match s.module_trains.at(key).i64_of() {
        Some(id) => match train_with_id(s.optical_trains, id, 0) {
            Some(i) => Some(i),
            None => first,
        },
        None => first,
    }
}

proof fn lemma_train_with_id_range(ts: Seq<TrainView>, id: i64, j: int)
    requires
        0 <= j,
    ensures
        train_with_id(ts, id, j) matches Some(i) ==> j <= i < ts.len() && ts[i].id == id,
    decreases ts.len() - j,
{
    if j < ts.len() && ts[j].id != id {
        lemma_train_with_id_range(ts, id, j + 1);
    }
}

impl DeviceStore {
    /// The optical train assigned to the Ekos module `key` (its number as a
    /// string: "1" capture, "2" focus, "3" mount, "4" guide, "5" align),
    /// falling back to the first train while the module has none.
    pub fn module_train_untracked(&self, key: &str) -> (r: Option<OpticalTrain>)
        ensures
            match module_train_index(self@, key@) {
                Some(i) => r matches Some(t) && 0 <= i < self@.optical_trains.len() && t@
                    == self@.optical_trains[i],
                None => r is None,
            },
    {
        let ghost sv = self@;
        let trains = &self.optical_trains;
        let id = match self.module_trains.get(key) {
            Some(v) => v.as_i64(),
            None => None,
        };
        assert(id == sv.module_trains.at(key@).i64_of());
        if let Some(id) = id {
            proof {
                lemma_train_with_id_range(sv.optical_trains, id, 0);
            }
            let mut i: usize = 0;
            while i < trains.len()
                invariant
                    i <= trains@.len(),
                    sv == self@,
                    sv.module_trains.at(key@).i64_of() == Some(id),
                    trains == &self.optical_trains,
                    train_with_id(sv.optical_trains, id, 0) == train_with_id(
                        sv.optical_trains,
                        id,
                        i as int,
                    ),
                decreases trains.len() - i,
            {
                assert(sv.optical_trains[i as int] == trains@[i as int]@);
                if trains[i].id == id {
                    assert(train_with_id(sv.optical_trains, id, i as int) == Some(i as int));
                    return Some(trains[i].duplicate());
                }
                i += 1;
            }
        }
        if trains.len() > 0 {
            assert(sv.optical_trains[0] == trains@[0]@);
            Some(trains[0].duplicate())
        } else {
            None
        }
    }
}

// ── Laws ─────────────────────────────────────────────────────────────────────

/// The message types the store reads.
pub open spec fn handled_type(t: Seq<char>) -> bool {
    ||| t == "file_default_path"@
    ||| t == "new_connection_state"@
    ||| t == "get_devices"@
    ||| t == "new_cap_state"@
    ||| t == "mount_get_all_settings"@
    ||| t == "new_mount_state"@
    ||| t == "get_profiles"@
    ||| t == "get_drivers"@
    ||| t == "get_scopes"@
    ||| t == "train_get_all"@
    ||| t == "train_get_profiles"@
    ||| t == "device_property_get"@
    ||| t == "device_property_set"@
    ||| t == "new_focus_state"@
    ||| t == "focus_get_all_settings"@
    ||| t == "new_camera_state"@
    ||| t == "new_capture_state"@
    ||| t == "capture_get_all_settings"@
    ||| t == "capture_get_sequences"@
    ||| t == "new_polar_state"@
    ||| t == "align_get_all_settings"@
    ||| t == "new_align_state"@
    ||| t == "new_guide_state"@
    ||| t == "guide_get_all_settings"@
    ||| t == "option_get"@
    ||| t == "new_preview_image"@
    ||| t == "new_scheduler_state"@
    ||| t == "scheduler_get_jobs"@
    ||| t == "scheduler_get_all_settings"@
    ||| t == "new_mosaic_tiles"@
    ||| t == "new_livestacker_state"@
    ||| t == "livestacker_get_all_settings"@
    ||| t == "app_state"@
    ||| t == "dialog_get_info"@
}

/// A message of a type the store does not read leaves it unchanged.
pub proof fn law_unknown_message_ignored(s: StoreView, t: Seq<char>, p: Json, now: u64)
    requires
        !handled_type(t),
    ensures
        store_after_event(s, t, p, now) == s,
{
}

/// Losing the connection forgets the live device and module state (the
/// focus HFR history, the guide status and the plate-solve solution too), but
/// keeps what does not need a running Ekos: guide settings and options,
/// profiles, drivers, trains, scopes and the app launcher's state.
pub proof fn law_disconnect_forgets_live_state(s: StoreView, p: Json, now: u64)
    requires
        !bool_or_false(p, "connected"@),
    ensures
        ({
            let r = store_after_event(s, "new_connection_state"@, p, now);
            &&& !r.connected && !r.online
            &&& r.mount_status is None && r.camera_status is None
            &&& r.filter_wheel_status is None && r.focus_status is None
            &&& r.focus_hfr_history.len() == 0 && r.guide_status is None
            &&& r.align_status is None && r.align_solution == align_solution_default()
            &&& r.align_settings == Json::Null
            &&& r.dustcap_status is None && r.livestacker_state is None
            &&& r.mosaic_tiles is None && r.scheduler_jobs.len() == 0
            &&& r.scheduler_status == scheduler_default()
            &&& r.polar_state == polar_default()
            &&& r.guide_settings == s.guide_settings && r.guide_options == s.guide_options
            &&& r.profiles == s.profiles && r.drivers == s.drivers
            &&& r.optical_trains == s.optical_trains && r.scopes == s.scopes
            &&& r.kstars_running == s.kstars_running && r.phd2_running == s.phd2_running
        }),
{
    reveal_strlit("file_default_path");
    reveal_strlit("new_connection_state");
    assert("file_default_path"@.len() == 17);
    assert("new_connection_state"@.len() == 20);
}

/// Ekos counts as online only while the connection is up: every message
/// keeps `online ==> connected`.
pub proof fn law_online_only_while_connected(s: StoreView, t: Seq<char>, p: Json, now: u64)
    requires
        s.online ==> s.connected,
    ensures
        store_after_event(s, t, p, now).online ==> store_after_event(s, t, p, now).connected,
{
}

/// A job list never overrides a scheduler state other than idle: the
/// status after `scheduler_get_jobs` is the old one, or running when the
/// old one was idle.
pub proof fn law_job_list_only_promotes_idle(s: StoreView, p: Json, now: u64)
    ensures
        ({
            let st = store_after_event(s, "scheduler_get_jobs"@, p, now).scheduler_status.status;
            st == s.scheduler_status.status || (s.scheduler_status.status == 0 && st == 2)
        }),
{
    reveal_strlit("align_get_all_settings");
    reveal_strlit("capture_get_all_settings");
    reveal_strlit("capture_get_sequences");
    reveal_strlit("device_property_get");
    reveal_strlit("device_property_set");
    reveal_strlit("file_default_path");
    reveal_strlit("focus_get_all_settings");
    reveal_strlit("get_devices");
    reveal_strlit("get_drivers");
    reveal_strlit("get_profiles");
    reveal_strlit("get_scopes");
    reveal_strlit("guide_get_all_settings");
    reveal_strlit("mount_get_all_settings");
    reveal_strlit("new_align_state");
    reveal_strlit("new_camera_state");
    reveal_strlit("new_cap_state");
    reveal_strlit("new_capture_state");
    reveal_strlit("new_connection_state");
    reveal_strlit("new_focus_state");
    reveal_strlit("new_guide_state");
    reveal_strlit("new_mount_state");
    reveal_strlit("new_polar_state");
    reveal_strlit("new_preview_image");
    reveal_strlit("new_scheduler_state");
    reveal_strlit("option_get");
    reveal_strlit("scheduler_get_jobs");
    reveal_strlit("train_get_all");
    reveal_strlit("train_get_profiles");
    assert("file_default_path"@.len() == 17);
    assert("new_connection_state"@.len() == 20);
    assert("get_devices"@.len() == 11);
    assert("new_cap_state"@.len() == 13);
    assert("mount_get_all_settings"@.len() == 22);
    assert("new_mount_state"@.len() == 15);
    assert("get_profiles"@.len() == 12);
    assert("get_drivers"@.len() == 11);
    assert("get_scopes"@.len() == 10);
    assert("train_get_all"@.len() == 13);
    assert("train_get_profiles"@[0] == 't');
    assert("scheduler_get_jobs"@[0] == 's');
    assert("device_property_get"@.len() == 19);
    assert("device_property_set"@.len() == 19);
    assert("new_focus_state"@.len() == 15);
    assert("focus_get_all_settings"@.len() == 22);
    assert("new_camera_state"@.len() == 16);
    assert("new_capture_state"@.len() == 17);
    assert("capture_get_all_settings"@.len() == 24);
    assert("capture_get_sequences"@.len() == 21);
    assert("new_polar_state"@.len() == 15);
    assert("align_get_all_settings"@.len() == 22);
    assert("new_align_state"@.len() == 15);
    assert("new_guide_state"@.len() == 15);
    assert("guide_get_all_settings"@.len() == 22);
    assert("option_get"@.len() == 10);
    assert("new_preview_image"@.len() == 17);
    assert("new_scheduler_state"@.len() == 19);
    assert("scheduler_get_jobs"@.len() == 18);
}

proof fn lemma_named_switch_last(a: Seq<Json>, n: Seq<char>, k: int)
    requires
        0 <= k < a.len(),
        str_or_empty(a[k], "name"@) == n,
        forall|j: int| k < j < a.len() ==> str_or_empty(#[trigger] a[j], "name"@) != n,
    ensures
        named_switch(a, n) == switch_value(a[k]),
    decreases a.len(),
{
    if a.len() - 1 != k {
        assert(str_or_empty(a[a.len() - 1], "name"@) != n);
        let d = a.drop_last();
        assert forall|j: int| k < j < d.len() implies str_or_empty(#[trigger] d[j], "name"@) != n by {
            assert(d[j] == a[j]);
        }
        lemma_named_switch_last(d, n, k);
    }
}

/// A `CCD_COOLER` property sets the camera's cooler to what its last
/// `COOLER_ON` switch says: the switch's boolean `value`, else whether its
/// `state` is `"On"`. An Off switch leaves the cooler off, an On switch on.
pub proof fn law_cooler_follows_switch(s: StoreView, p: Json, now: u64, k: int)
    requires
        p.at("name"@).str_of() == Some("CCD_COOLER"@),
        0 <= k < array_at(p, "switches"@).len(),
        array_at(p, "switches"@)[k].at("name"@).str_of() == Some("COOLER_ON"@),
        forall|j: int|
            k < j < array_at(p, "switches"@).len() ==> (#[trigger] array_at(p, "switches"@)[j]).at(
                "name"@,
            ).str_of() != Some("COOLER_ON"@),
    ensures
        ({
            let el = array_at(p, "switches"@)[k];
            let r = store_after_event(s, "device_property_get"@, p, now);
            &&& el.at("value"@) matches Json::Bool(b) ==> (r.camera_status matches Some(c)
                && c.cooler_on == Some(b))
            &&& el.at("state"@) matches Json::Str(st) ==> (!(el.at("value"@) is Bool) ==> (
            r.camera_status matches Some(c) && c.cooler_on == Some(st@ == "On"@)))
        }),
{
    reveal_strlit("COOLER_ON");
    reveal_strlit("CCD_COOLER");
    reveal_strlit("CCD_INFO");
    reveal_strlit("ABS_FOCUS_POSITION");
    reveal_strlit("FOCUS_TEMPERATURE");
    reveal_strlit("CCD_TEMPERATURE");
    reveal_strlit("FILTER_SLOT");
    reveal_strlit("EQUATORIAL_EOD_COORD");
    reveal_strlit("file_default_path");
    reveal_strlit("new_connection_state");
    reveal_strlit("get_devices");
    reveal_strlit("new_cap_state");
    reveal_strlit("mount_get_all_settings");
    reveal_strlit("new_mount_state");
    reveal_strlit("get_profiles");
    reveal_strlit("get_drivers");
    reveal_strlit("get_scopes");
    reveal_strlit("train_get_all");
    reveal_strlit("train_get_profiles");
    reveal_strlit("device_property_get");
    let a = array_at(p, "switches"@);
    assert forall|j: int| k < j < a.len() implies str_or_empty(#[trigger] a[j], "name"@)
        != "COOLER_ON"@ by {
        assert(a[j].at("name"@).str_of() != Some("COOLER_ON"@));
        assert("COOLER_ON"@.len() == 9);
    }
    lemma_named_switch_last(a, "COOLER_ON"@, k);
    assert(str_or_empty(p, "name"@) == "CCD_COOLER"@);
    assert("CCD_COOLER"@.len() == 10);
    assert("device_property_get"@.len() == 19);
}

/// The store before any message knows of no device and is offline.
pub proof fn law_initial_store_offline()
    ensures
        !store_initial().online && !store_initial().connected,
        store_initial().online ==> store_initial().connected,
{
}

proof fn lemma_redeliver_default_path(s: StoreView, p: Json)
    ensures
        after_default_path(after_default_path(s, p), p) == after_default_path(s, p),
{
}

proof fn lemma_redeliver_connection_state(s: StoreView, p: Json)
    ensures
        after_connection_state(after_connection_state(s, p), p) == after_connection_state(s, p),
{
}

proof fn lemma_redeliver_devices(s: StoreView, p: Json)
    ensures
        after_devices(after_devices(s, p), p) == after_devices(s, p),
{
}

proof fn lemma_redeliver_cap_state(s: StoreView, p: Json)
    ensures
        after_cap_state(after_cap_state(s, p), p) == after_cap_state(s, p),
{
}

proof fn lemma_redeliver_mount_settings(s: StoreView, p: Json)
    ensures
        after_mount_settings(after_mount_settings(s, p), p) == after_mount_settings(s, p),
{
}

proof fn lemma_redeliver_mount_state(s: StoreView, p: Json)
    ensures
        after_mount_state(after_mount_state(s, p), p) == after_mount_state(s, p),
{
}

proof fn lemma_redeliver_profiles(s: StoreView, p: Json)
    ensures
        after_profiles(after_profiles(s, p), p) == after_profiles(s, p),
{
}

proof fn lemma_redeliver_drivers(s: StoreView, p: Json)
    ensures
        after_drivers(after_drivers(s, p), p) == after_drivers(s, p),
{
}

proof fn lemma_redeliver_scopes(s: StoreView, p: Json)
    ensures
        after_scopes(after_scopes(s, p), p) == after_scopes(s, p),
{
}

proof fn lemma_redeliver_trains(s: StoreView, p: Json)
    ensures
        after_trains(after_trains(s, p), p) == after_trains(s, p),
{
}

#[verifier::rlimit(40)]
proof fn lemma_redeliver_property(s: StoreView, p: Json)
    ensures
        after_property(after_property(s, p), p) == after_property(s, p),
{
}

proof fn lemma_redeliver_focus_state(s: StoreView, p: Json, now: u64)
    requires
        !adds_sample("new_focus_state"@, p),
    ensures
        after_focus_state(after_focus_state(s, p, now), p, now) == after_focus_state(s, p, now),
{
}

proof fn lemma_redeliver_guide_state(s: StoreView, p: Json, now: u64)
    requires
        !adds_sample("new_guide_state"@, p),
    ensures
        after_guide_state(after_guide_state(s, p, now), p, now) == after_guide_state(s, p, now),
{
}

proof fn lemma_redeliver_camera_state(s: StoreView, p: Json)
    ensures
        after_camera_state(after_camera_state(s, p), p) == after_camera_state(s, p),
{
}

proof fn lemma_redeliver_capture_state(s: StoreView, p: Json)
    ensures
        after_capture_state(after_capture_state(s, p), p) == after_capture_state(s, p),
{
}

proof fn lemma_redeliver_polar_state(s: StoreView, p: Json)
    ensures
        after_polar_state(after_polar_state(s, p), p) == after_polar_state(s, p),
{
}

proof fn lemma_redeliver_align_state(s: StoreView, p: Json, now: u64)
    ensures
        after_align_state(after_align_state(s, p, now), p, now) == after_align_state(s, p, now),
{
}

proof fn lemma_redeliver_preview(s: StoreView, p: Json)
    ensures
        after_preview(after_preview(s, p), p) == after_preview(s, p),
{
}

proof fn lemma_redeliver_scheduler_state(s: StoreView, p: Json)
    ensures
        after_scheduler_state(after_scheduler_state(s, p), p) == after_scheduler_state(s, p),
{
}

proof fn lemma_redeliver_jobs(s: StoreView, p: Json)
    ensures
        after_jobs(after_jobs(s, p), p) == after_jobs(s, p),
{
}

proof fn lemma_redeliver_livestacker_state(s: StoreView, p: Json)
    ensures
        after_livestacker_state(after_livestacker_state(s, p), p) == after_livestacker_state(s, p),
{
}

proof fn lemma_redeliver_app_state(s: StoreView, p: Json)
    ensures
        after_app_state(after_app_state(s, p), p) == after_app_state(s, p),
{
}

proof fn lemma_redeliver_dialog(s: StoreView, p: Json)
    ensures
        after_dialog(after_dialog(s, p), p) == after_dialog(s, p),
{
}

// ── Re-delivered option replies ──────────────────────────────────────────────

/// The entry an `option_get` element sets, if any.
pub open spec fn inserted(el: Json) -> Option<(Seq<char>, Json)> {
    match el.at("name"@).str_of() {
        Some(n) => if is_guide_option(n) {
            match el.get_spec("value"@) {
                Some(v) => Some((n, v)),
                None => None,
            }
        } else {
            None
        },
        None => None,
    }
}

/// The last value an `option_get` reply sets for `k`.
pub open spec fn last_value(a: Seq<Json>, k: Seq<char>) -> Option<Json>
    decreases a.len(),
{
    if a.len() == 0 {
        None
    } else {
        match inserted(a.last()) {
            Some((n, v)) => if n == k {
                Some(v)
            } else {
                last_value(a.drop_last(), k)
            },
            None => last_value(a.drop_last(), k),
        }
    }
}

proof fn lemma_key_index_char(m: Seq<(Seq<char>, Json)>, k: Seq<char>, j: int)
    requires
        0 <= j,
    ensures
        key_index(m, k, j) matches Some(i) ==> j <= i < m.len() && m[i].0 == k && forall|l: int|
            j <= l < i ==> m[l].0 != k,
        key_index(m, k, j) is None ==> forall|l: int| j <= l < m.len() ==> m[l].0 != k,
    decreases m.len() - j,
{
    if j < m.len() && m[j].0 != k {
        lemma_key_index_char(m, k, j + 1);
    }
}

proof fn lemma_key_index_same_keys(m1: Seq<(Seq<char>, Json)>, m2: Seq<(Seq<char>, Json)>, k: Seq<char>, j: int)
    requires
        m1.len() == m2.len(),
        forall|i: int| 0 <= i < m1.len() ==> m1[i].0 == m2[i].0,
    ensures
        key_index(m1, k, j) == key_index(m2, k, j),
    decreases m1.len() - j,
{
    if 0 <= j < m1.len() && m1[j].0 != k {
        lemma_key_index_same_keys(m1, m2, k, j + 1);
    }
}

proof fn lemma_key_index_push(m: Seq<(Seq<char>, Json)>, n: Seq<char>, v: Json, k: Seq<char>)
    ensures
        k != n ==> key_index(m.push((n, v)), k, 0) == key_index(m, k, 0),
        key_index(m, n, 0) is None ==> key_index(m.push((n, v)), n, 0) == Some(m.len() as int),
{
    lemma_key_index_char(m, k, 0);
    lemma_key_index_char(m.push((n, v)), k, 0);
    lemma_key_index_char(m, n, 0);
    lemma_key_index_char(m.push((n, v)), n, 0);
    let mp = m.push((n, v));
    if k != n {
        match key_index(m, k, 0) {
            Some(i) => {
                assert(mp[i].0 == k);
                match key_index(mp, k, 0) {
                    Some(i2) => {
                        if i2 < i {
                            assert(mp[i2] == m[i2]);
                        } else if i < i2 {
                            assert(mp[i] == m[i]);
                        }
                    },
                    None => {},
                }
            },
            None => {
                match key_index(mp, k, 0) {
                    Some(i2) => {
                        if i2 < m.len() {
                            assert(mp[i2] == m[i2]);
                        }
                    },
                    None => {},
                }
            },
        }
    }
    if key_index(m, n, 0) is None {
        assert(mp[m.len() as int].0 == n);
        match key_index(mp, n, 0) {
            Some(i2) => {
                if i2 < m.len() {
                    assert(mp[i2] == m[i2]);
                }
            },
            None => {},
        }
    }
}

proof fn lemma_option_entry(m: Seq<(Seq<char>, Json)>, el: Json)
    ensures
        option_entry(m, el) == match inserted(el) {
            Some((n, v)) => map_insert(m, n, v),
            None => m,
        },
{
}

/// Options replies only add keys: those of `m` keep their places, and every
/// key the reply sets is present afterwards.
proof fn lemma_options_keep_keys(m: Seq<(Seq<char>, Json)>, a: Seq<Json>)
    ensures
        options_after(m, a).len() >= m.len(),
        forall|i: int| 0 <= i < m.len() ==> #[trigger] options_after(m, a)[i].0 == m[i].0,
        forall|l: int|
            0 <= l < a.len() ==> (#[trigger] inserted(a[l]) matches Some((n, w)) ==> key_index(
                options_after(m, a),
                n,
                0,
            ) is Some),
    decreases a.len(),
{
    if a.len() > 0 {
        let ap = a.drop_last();
        let x = a.last();
        lemma_options_keep_keys(m, ap);
        let mp = options_after(m, ap);
        lemma_option_entry(mp, x);
        match inserted(x) {
            Some((n, v)) => {
                let r = map_insert(mp, n, v);
                lemma_key_index_char(mp, n, 0);
                match key_index(mp, n, 0) {
                    Some(j) => {
                        assert forall|i: int| 0 <= i < r.len() implies r[i].0 == mp[i].0 by {}
                        assert forall|l: int|
                            0 <= l < a.len() implies (#[trigger] inserted(a[l]) matches Some((n2, w))
                            ==> key_index(r, n2, 0) is Some) by {
                            if let Some((n2, w)) = inserted(a[l]) {
                                lemma_key_index_same_keys(r, mp, n2, 0);
                                if l < ap.len() {
                                    assert(a[l] == ap[l]);
                                }
                            }
                        }
                    },
                    None => {
                        assert forall|l: int|
                            0 <= l < a.len() implies (#[trigger] inserted(a[l]) matches Some((n2, w))
                            ==> key_index(r, n2, 0) is Some) by {
                            if let Some((n2, w)) = inserted(a[l]) {
                                lemma_key_index_push(mp, n, v, n2);
                                if l < ap.len() {
                                    assert(a[l] == ap[l]);
                                }
                            }
                        }
                    },
                }
            },
            None => {
                assert forall|l: int|
                    0 <= l < a.len() implies (#[trigger] inserted(a[l]) matches Some((n2, w))
                    ==> key_index(mp, n2, 0) is Some) by {
                    if l < ap.len() {
                        assert(a[l] == ap[l]);
                    }
                }
            },
        }
    }
}

/// After a reply, the first entry of every key it sets holds the last value
/// it set.
proof fn lemma_options_last_value(m: Seq<(Seq<char>, Json)>, a: Seq<Json>, k: Seq<char>)
    ensures
        last_value(a, k) matches Some(v) ==> (key_index(options_after(m, a), k, 0) matches Some(i)
            && options_after(m, a)[i].1 == v),
    decreases a.len(),
{
    if a.len() > 0 {
        let ap = a.drop_last();
        let x = a.last();
        lemma_options_last_value(m, ap, k);
        let mp = options_after(m, ap);
        lemma_option_entry(mp, x);
        lemma_key_index_char(mp, k, 0);
        if let Some((n, v0)) = inserted(x) {
            let r = map_insert(mp, n, v0);
            lemma_key_index_char(mp, n, 0);
            match key_index(mp, n, 0) {
                Some(j) => {
                    lemma_key_index_same_keys(r, mp, k, 0);
                },
                None => {
                    lemma_key_index_push(mp, n, v0, k);
                },
            }
        }
    }
}

/// A reply whose keys are all present already changes values only: the
/// first entry of each key it sets takes the last value set.
proof fn lemma_options_on_present_keys(m: Seq<(Seq<char>, Json)>, a: Seq<Json>)
    requires
        forall|l: int|
            0 <= l < a.len() ==> (#[trigger] inserted(a[l]) matches Some((n, w)) ==> key_index(m, n, 0) is Some),
    ensures
        options_after(m, a).len() == m.len(),
        forall|i: int|
            0 <= i < m.len() ==> (#[trigger] options_after(m, a)[i]).0 == m[i].0 && options_after(m, a)[i].1
                == (if key_index(m, m[i].0, 0) == Some(i) && last_value(a, m[i].0) is Some {
                last_value(a, m[i].0)->0
            } else {
                m[i].1
            }),
    decreases a.len(),
{
    if a.len() > 0 {
        let ap = a.drop_last();
        let x = a.last();
        assert forall|l: int|
            0 <= l < ap.len() implies (#[trigger] inserted(ap[l]) matches Some((n, w)) ==> key_index(m, n, 0) is Some) by {
            assert(ap[l] == a[l]);
        }
        lemma_options_on_present_keys(m, ap);
        let mp = options_after(m, ap);
        lemma_option_entry(mp, x);
        match inserted(x) {
            Some((n, v)) => {
                assert(inserted(a[a.len() - 1]) == Some((n, v)));
                lemma_key_index_same_keys(mp, m, n, 0);
                lemma_key_index_char(m, n, 0);
                let j = key_index(m, n, 0)->0;
                let r = mp.update(j, (n, v));
                assert(options_after(m, a) == r);
                assert forall|i: int| 0 <= i < m.len() implies (#[trigger] r[i]).0 == m[i].0 && r[i].1 == (
                if key_index(m, m[i].0, 0) == Some(i) && last_value(a, m[i].0) is Some {
                    last_value(a, m[i].0)->0
                } else {
                    m[i].1
                }) by {
                    assert(mp[i].0 == m[i].0);
                    if i == j {
                    } else {
                        assert(r[i] == mp[i]);
                        if m[i].0 == n {
                            assert(key_index(m, m[i].0, 0) != Some(i));
                        }
                    }
                }
            },
            None => {},
        }
    }
}

/// An `option_get` reply delivered twice gives the options it gave once.
proof fn lemma_options_redelivered(m: Seq<(Seq<char>, Json)>, a: Seq<Json>)
    ensures
        options_after(options_after(m, a), a) == options_after(m, a),
{
    let mm = options_after(m, a);
    lemma_options_keep_keys(m, a);
    lemma_options_on_present_keys(mm, a);
    let r = options_after(mm, a);
    assert forall|i: int| 0 <= i < mm.len() implies r[i] == mm[i] by {
        let k = mm[i].0;
        lemma_options_last_value(m, a, k);
        if key_index(mm, k, 0) == Some(i) && last_value(a, k) is Some {
        }
    }
    assert(r =~= mm);
}

proof fn lemma_redeliver_options(s: StoreView, p: Json)
    ensures
        after_options(after_options(s, p), p) == after_options(s, p),
{
    if let Json::Array(a) = p {
        lemma_options_redelivered(s.guide_options, a@);
    }
}

/// Whether a message adds a sample to a history: a focus reading with a
/// positive, finite HFR, or a guide message with a drift member.
pub open spec fn adds_sample(t: Seq<char>, p: Json) -> bool {
    ||| t == "new_focus_state"@ && (number_of(p.at("hfr"@)) matches Some(n) && positive_finite(n))
    ||| t == "new_guide_state"@ && (number_of(p.at("drift_ra"@)) is Some || number_of(
        p.at("drift_de"@),
    ) is Some)
}

/// A message delivered twice at the same moment changes nothing the second
/// time: every member a message carries overwrites its field (an option reply
/// sets each option to the last value it gives, a guide status that did not
/// change is not recorded again), and what it does not carry is left alone.
/// Messages that add a history sample are the exception: each delivery adds
/// one.
pub proof fn law_redelivery_changes_nothing(s: StoreView, t: Seq<char>, p: Json, now: u64)
    requires
        !adds_sample(t, p),
    ensures
        store_after_event(store_after_event(s, t, p, now), t, p, now) == store_after_event(
            s,
            t,
            p,
            now,
        ),
{
    lemma_redeliver_options(s, p);
    lemma_redeliver_default_path(s, p);
    lemma_redeliver_connection_state(s, p);
    lemma_redeliver_devices(s, p);
    lemma_redeliver_cap_state(s, p);
    lemma_redeliver_mount_settings(s, p);
    lemma_redeliver_mount_state(s, p);
    lemma_redeliver_profiles(s, p);
    lemma_redeliver_drivers(s, p);
    lemma_redeliver_scopes(s, p);
    lemma_redeliver_trains(s, p);
    lemma_redeliver_property(s, p);
    if t == "new_focus_state"@ {
        lemma_redeliver_focus_state(s, p, now);
    }
    if t == "new_guide_state"@ {
        lemma_redeliver_guide_state(s, p, now);
    }
    lemma_redeliver_camera_state(s, p);
    lemma_redeliver_capture_state(s, p);
    lemma_redeliver_polar_state(s, p);
    lemma_redeliver_align_state(s, p, now);
    lemma_redeliver_preview(s, p);
    lemma_redeliver_scheduler_state(s, p);
    lemma_redeliver_jobs(s, p);
    lemma_redeliver_livestacker_state(s, p);
    lemma_redeliver_app_state(s, p);
    lemma_redeliver_dialog(s, p);
}

} // verus!
