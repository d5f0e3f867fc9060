//! Data records of the Ekos Live protocol read by the frontend: INDI property
//! state/permission/rule codes, INDI properties with their elements (parsed
//! from full or compact payloads, and compact updates merged into them),
//! devices, drivers, equipment profiles, and a few status records.
//!
//! INDI enumerations arrive as integers, but string forms (`"Busy"`, `"On"`)
//! are accepted too.

use vstd::prelude::*;

use crate::json::{Json, JsonNumber};
use crate::text::{chars_eq, chars_of};

verus! {

/// INDI `IPState`: property (and light element) state.
#[derive(Clone, Copy, Debug, PartialEq, Eq)]
pub enum IndiState {
    Idle,
    Okay,
    Busy,
    Alert,
}

/// How a JSON value reads as an `IPState`: codes 0–3, else the names
/// `"Ok"`, `"Busy"`, `"Alert"`, else idle.
pub open spec fn state_of(v: Json) -> IndiState {
    match v.i64_of() {
        Some(0) => IndiState::Idle,
        Some(1) => IndiState::Okay,
        Some(2) => IndiState::Busy,
        Some(3) => IndiState::Alert,
        _ => if v.str_of() == Some("Ok"@) {
            IndiState::Okay
        } else if v.str_of() == Some("Busy"@) {
            IndiState::Busy
        } else if v.str_of() == Some("Alert"@) {
            IndiState::Alert
        } else {
            IndiState::Idle
        },
    }
}

/// Each INDI state is read from its code or its name, and from nothing
/// else: Alert from 3 or `"Alert"`, Busy from 2 or `"Busy"`, Ok from 1 or
/// `"Ok"`; every other value reads as Idle.
pub proof fn law_state_code_or_name(v: Json)
    ensures
        (state_of(v) == IndiState::Alert) <==> (v.i64_of() == Some(3i64) || v.str_of() == Some(
            "Alert"@,
        )),
        (state_of(v) == IndiState::Busy) <==> (v.i64_of() == Some(2i64) || v.str_of() == Some(
            "Busy"@,
        )),
        (state_of(v) == IndiState::Okay) <==> (v.i64_of() == Some(1i64) || v.str_of() == Some(
            "Ok"@,
        )),
{
    reveal_strlit("Alert");
    reveal_strlit("Busy");
    reveal_strlit("Ok");
    assert("Alert"@ != "Busy"@ && "Alert"@ != "Ok"@ && "Busy"@ != "Ok"@) by {
        assert("Alert"@.len() == 5 && "Busy"@.len() == 4 && "Ok"@.len() == 2);
    }
    if v.str_of() is Some {
        assert(v.i64_of() is None);
    }
}

impl IndiState {
    /// Reads an `IPState` from its JSON form.
    pub fn from_json(v: &Json) -> (r: IndiState)
        ensures
            r == state_of(*v),
    {
        match v.as_i64() {
            Some(0) => IndiState::Idle,
            Some(1) => IndiState::Okay,
            Some(2) => IndiState::Busy,
            Some(3) => IndiState::Alert,
            _ => {
                if v.is_str("Ok") {
                    IndiState::Okay
                } else if v.is_str("Busy") {
                    IndiState::Busy
                } else if v.is_str("Alert") {
                    IndiState::Alert
                } else {
                    IndiState::Idle
                }
            },
        }
    }
}

/// INDI `IPerm`.
#[derive(Clone, Copy, Debug, PartialEq, Eq)]
pub enum IndiPerm {
    Ro,
    Wo,
    Rw,
}

/// How a JSON value reads as an `IPerm`: codes 0–2, else `"ro"`, `"wo"`,
/// else read-write.
pub open spec fn perm_of(v: Json) -> IndiPerm {
    match v.i64_of() {
        Some(0) => IndiPerm::Ro,
        Some(1) => IndiPerm::Wo,
        Some(2) => IndiPerm::Rw,
        _ => if v.str_of() == Some("ro"@) {
            IndiPerm::Ro
        } else if v.str_of() == Some("wo"@) {
            IndiPerm::Wo
        } else {
            IndiPerm::Rw
        },
    }
}

impl IndiPerm {
    /// Reads an `IPerm` from its JSON form.
    pub fn from_json(v: &Json) -> (r: IndiPerm)
        ensures
            r == perm_of(*v),
    {
        match v.as_i64() {
            Some(0) => IndiPerm::Ro,
            Some(1) => IndiPerm::Wo,
            Some(2) => IndiPerm::Rw,
            _ => {
                if v.is_str("ro") {
                    IndiPerm::Ro
                } else if v.is_str("wo") {
                    IndiPerm::Wo
                } else {
                    IndiPerm::Rw
                }
            },
        }
    }

    /// Whether a property with this permission can be written.
    pub fn writable(self) -> (r: bool)
        ensures
            r == (self != IndiPerm::Ro),
    {
        match self {
            IndiPerm::Ro => false,
            _ => true,
        }
    }
}

/// INDI `ISRule`: switch vector semantics.
#[derive(Clone, Copy, Debug, PartialEq, Eq)]
pub enum IndiRule {
    OneOfMany,
    AtMostOne,
    NOfMany,
}

/// How a JSON value reads as an `ISRule`: 1 and 2 by code, anything else
/// one-of-many.
pub open spec fn rule_of(v: Json) -> IndiRule {
    match v.i64_of() {
        Some(1) => IndiRule::AtMostOne,
        Some(2) => IndiRule::NOfMany,
        _ => IndiRule::OneOfMany,
    }
}

impl IndiRule {
    /// Reads an `ISRule` from its JSON form.
    pub fn from_json(v: &Json) -> (r: IndiRule)
        ensures
            r == rule_of(*v),
    {
        match v.as_i64() {
            Some(1) => IndiRule::AtMostOne,
            Some(2) => IndiRule::NOfMany,
            _ => IndiRule::OneOfMany,
        }
    }
}

/// A switch or light element's state: `state` as an integer (1 is on), else
/// `state` as a boolean, else `value` as a boolean, else `state == "On"`,
/// else off.
pub open spec fn switch_on(el: Json) -> bool {
    match el.at("state"@).i64_of() {
        Some(v) => v == 1,
        None => match el.at("state"@).bool_of() {
            Some(b) => b,
            None => match el.at("value"@).bool_of() {
                Some(b) => b,
                None => match el.at("state"@).str_of() {
                    Some(s) => s == "On"@,
                    None => false,
                },
            },
        },
    }
}

/// Reads a switch/light element's on/off state.
pub fn switch_state_from_json(el: &Json) -> (r: bool)
    ensures
        r == switch_on(*el),
{
    match el.i64_at("state") {
        Some(v) => v == 1,
        None => match el.bool_at("state") {
            Some(b) => b,
            None => match el.bool_at("value") {
                Some(b) => b,
                None => match el.get("state") {
                    Some(s) => s.is_str("On"),
                    None => false,
                },
            },
        },
    }
}

// ── Devices, drivers and profiles ────────────────────────────────────────────

/// A string member, `""` when absent.
pub open spec fn str_or_empty(v: Json, k: Seq<char>) -> Seq<char> {
    match v.at(k).str_of() {
        Some(s) => s,
        None => seq![],
    }
}

/// A string member, `fallback` when absent.
pub open spec fn str_or(v: Json, k: Seq<char>, fallback: Seq<char>) -> Seq<char> {
    match v.at(k).str_of() {
        Some(s) => s,
        None => fallback,
    }
}

/// A boolean member, `false` when absent.
pub open spec fn bool_or_false(v: Json, k: Seq<char>) -> bool {
    match v.at(k).bool_of() {
        Some(b) => b,
        None => false,
    }
}

/// An integer member, 0 when absent.
pub open spec fn i64_or_zero(v: Json, k: Seq<char>) -> i64 {
    match v.at(k).i64_of() {
        Some(i) => i,
        None => 0,
    }
}

/// A non-negative integer member, 0 when absent.
pub open spec fn u64_or_zero(v: Json, k: Seq<char>) -> u64 {
    match v.at(k).u64_of() {
        Some(u) => u,
        None => 0,
    }
}

pub(crate) fn get_string(v: &Json, k: &str) -> (r: String)
    ensures
        r@ == str_or_empty(*v, k@),
{
    match v.str_at(k) {
        Some(s) => String::from_str(s),
        None => String::new(),
    }
}

pub(crate) fn get_string_or(v: &Json, k: &str, fallback: &str) -> (r: String)
    ensures
        r@ == str_or(*v, k@, fallback@),
{
    match v.str_at(k) {
        Some(s) => String::from_str(s),
        None => String::from_str(fallback),
    }
}

pub(crate) fn get_bool(v: &Json, k: &str) -> (r: bool)
    ensures
        r == bool_or_false(*v, k@),
{
    match v.bool_at(k) {
        Some(b) => b,
        None => false,
    }
}

/// A connected INDI device. `interface` is the driver-interface bitfield.
#[derive(Clone, Debug)]
pub struct DeviceInfo {
    pub name: String,
    pub connected: bool,
    pub interface: i64,
}

impl DeviceInfo {
    /// Reads a device record (`{name, connected, interface}`).
    pub fn from_json(v: &Json) -> (r: DeviceInfo)
        ensures
            r.name@ == str_or_empty(*v, "name"@),
            r.connected == bool_or_false(*v, "connected"@),
            r.interface == i64_or_zero(*v, "interface"@),
    {
        DeviceInfo {
            name: get_string(v, "name"),
            connected: get_bool(v, "connected"),
            interface: match v.i64_at("interface") {
                Some(i) => i,
                None => 0,
            },
        }
    }
}

/// An INDI driver descriptor. Profile slots refer to drivers by `label`.
#[derive(Clone, Debug)]
pub struct DriverInfo {
    pub name: String,
    pub label: String,
    pub family: String,
}

impl DriverInfo {
    /// Reads a driver record (`{name, label, family}`).
    pub fn from_json(v: &Json) -> (r: DriverInfo)
        ensures
            r.name@ == str_or_empty(*v, "name"@),
            r.label@ == str_or_empty(*v, "label"@),
            r.family@ == str_or_empty(*v, "family"@),
    {
        DriverInfo {
            name: get_string(v, "name"),
            label: get_string(v, "label"),
            family: get_string(v, "family"),
        }
    }
}

/// An equipment profile.
#[derive(Clone, Debug)]
pub struct ProfileInfo {
    pub name: String,
    pub auto_connect: bool,
    pub port_selector: bool,
    /// `"local"` or `"remote"`.
    pub mode: String,
    pub remote_host: String,
    pub remote_port: u16,
    /// 0 internal, 1 PHD2, 2 LinGuider, 3 SEP.
    pub guiding: i32,
    pub remote_guiding_host: String,
    pub remote_guiding_port: u16,
    pub use_web_manager: bool,
    pub mount: String,
    pub ccd: String,
    pub guider: String,
    pub focuser: String,
    pub filter: String,
    pub ao: String,
    pub dome: String,
    pub weather: String,
    pub aux1: String,
    pub aux2: String,
    pub aux3: String,
    pub aux4: String,
    /// Comma-separated remote drivers.
    pub remote: String,
    pub driver_source: String,
}

/// The profile mode: the member `mode` when it is a non-empty string, else `"local"`.
pub open spec fn profile_mode(v: Json) -> Seq<char> {
    let m = str_or(v, "mode"@, "local"@);
    if m.len() == 0 {
        "local"@
    } else {
        m
    }
}

impl ProfileInfo {
    /// Reads a profile record. Missing strings read as `""` (the mode as
    /// `"local"`), missing flags as false, missing numbers as 0; ports are
    /// truncated to 16 bits and the guiding code to 32 bits.
    pub fn from_json(v: &Json) -> (r: ProfileInfo)
        ensures
            r.name@ == str_or_empty(*v, "name"@),
            r.auto_connect == bool_or_false(*v, "auto_connect"@),
            r.port_selector == bool_or_false(*v, "port_selector"@),
            r.mode@ == profile_mode(*v),
            r.remote_host@ == str_or_empty(*v, "remote_host"@),
            r.remote_port == u64_or_zero(*v, "remote_port"@) as u16,
            r.guiding == i64_or_zero(*v, "guiding"@) as i32,
            r.remote_guiding_host@ == str_or_empty(*v, "remote_guiding_host"@),
            r.remote_guiding_port == u64_or_zero(*v, "remote_guiding_port"@) as u16,
            r.use_web_manager == bool_or_false(*v, "use_web_manager"@),
            r.mount@ == str_or_empty(*v, "mount"@),
            r.ccd@ == str_or_empty(*v, "ccd"@),
            r.guider@ == str_or_empty(*v, "guider"@),
            r.focuser@ == str_or_empty(*v, "focuser"@),
            r.filter@ == str_or_empty(*v, "filter"@),
            r.ao@ == str_or_empty(*v, "ao"@),
            r.dome@ == str_or_empty(*v, "dome"@),
            r.weather@ == str_or_empty(*v, "weather"@),
            r.aux1@ == str_or_empty(*v, "aux1"@),
            r.aux2@ == str_or_empty(*v, "aux2"@),
            r.aux3@ == str_or_empty(*v, "aux3"@),
            r.aux4@ == str_or_empty(*v, "aux4"@),
            r.remote@ == str_or_empty(*v, "remote"@),
            r.driver_source@ == str_or_empty(*v, "driver_source"@),
    {
        let mode = get_string_or(v, "mode", "local");
        let mode = if mode.as_str().is_empty() {
            String::from_str("local")
        } else {
            mode
        };
        let rp = match v.u64_at("remote_port") {
            Some(u) => u,
            None => 0,
        };
        let rgp = match v.u64_at("remote_guiding_port") {
            Some(u) => u,
            None => 0,
        };
        let g = match v.i64_at("guiding") {
            Some(i) => i,
            None => 0,
        };
        ProfileInfo {
            name: get_string(v, "name"),
            auto_connect: get_bool(v, "auto_connect"),
            port_selector: get_bool(v, "port_selector"),
            mode,
            remote_host: get_string(v, "remote_host"),
            remote_port: #[verifier::truncate] (rp as u16),
            guiding: #[verifier::truncate] (g as i32),
            remote_guiding_host: get_string(v, "remote_guiding_host"),
            remote_guiding_port: #[verifier::truncate] (rgp as u16),
            use_web_manager: get_bool(v, "use_web_manager"),
            mount: get_string(v, "mount"),
            ccd: get_string(v, "ccd"),
            guider: get_string(v, "guider"),
            focuser: get_string(v, "focuser"),
            filter: get_string(v, "filter"),
            ao: get_string(v, "ao"),
            dome: get_string(v, "dome"),
            weather: get_string(v, "weather"),
            aux1: get_string(v, "aux1"),
            aux2: get_string(v, "aux2"),
            aux3: get_string(v, "aux3"),
            aux4: get_string(v, "aux4"),
            remote: get_string(v, "remote"),
            driver_source: get_string(v, "driver_source"),
        }
    }
}

// ── Small status records ─────────────────────────────────────────────────────

/// Filter wheel state: one label per slot and the 1-based current slot, as
/// the JSON number the driver sent.
#[derive(Clone, Debug)]
pub struct FilterWheelStatusData {
    pub device: String,
    pub filter_names: Vec<String>,
    pub current_slot: Option<JsonNumber>,
}

/// Scheduler module state: `status` is the Ekos scheduler state
/// (0 idle, 1 startup, 2 running, 3 paused, 4 shutdown, 5 aborted, 6 loading).
#[derive(Clone, Debug)]
pub struct SchedulerStatusData {
    pub status: i64,
    pub log: String,
}

/// Dust cap park state, from the `CAP_PARK` switch.
#[derive(Clone, Copy, Debug, PartialEq, Eq)]
pub enum DustCapParkState {
    Unknown,
    Parked,
    Unparked,
    Moving,
}

/// Plate-solve search radius presets.
#[derive(Clone, Copy, Debug, PartialEq, Eq)]
pub enum SolveRadius {
    Large,
    Medium,
    Small,
    Narrow,
    VeryNarrow,
}

// ── INDI properties ──────────────────────────────────────────────────────────

/// The value of an INDI element. A number keeps the JSON number it was read
/// from (`None` where the wire had no number, read as 0).
pub enum IndiElementValue {
    Number {
        value: Option<JsonNumber>,
        min: Option<JsonNumber>,
        max: Option<JsonNumber>,
        step: Option<JsonNumber>,
        format: String,
    },
    Text(String),
    Switch(bool),
    Light(IndiState),
}

/// One element of an INDI property.
pub struct IndiElement {
    pub name: String,
    pub label: String,
    pub value: IndiElementValue,
}

/// An INDI property: its elements and their shared state.
pub struct IndiProperty {
    pub name: String,
    pub label: String,
    pub group: String,
    pub state: IndiState,
    pub perm: IndiPerm,
    /// Only meaningful for switch properties.
    pub rule: IndiRule,
    /// Whether it came from a non-compact payload (labels and number limits real).
    pub full: bool,
    pub elements: Vec<IndiElement>,
}

/// The contents of an element value.
pub enum ValueView {
    Number {
        value: Option<JsonNumber>,
        min: Option<JsonNumber>,
        max: Option<JsonNumber>,
        step: Option<JsonNumber>,
        format: Seq<char>,
    },
    Text(Seq<char>),
    Switch(bool),
    Light(IndiState),
}

/// The contents of an element.
pub struct ElementView {
    pub name: Seq<char>,
    pub label: Seq<char>,
    pub value: ValueView,
}

impl View for IndiElement {
    type V = ElementView;

    open spec fn view(&self) -> ElementView {
        ElementView {
            name: self.name@,
            label: self.label@,
            value: value_view(self.value),
        }
    }
}

/// The contents of an element value.
pub open spec fn value_view(v: IndiElementValue) -> ValueView {
    match v {
        IndiElementValue::Number { value, min, max, step, format } => ValueView::Number {
            value,
            min,
            max,
            step,
            format: format@,
        },
        IndiElementValue::Text(t) => ValueView::Text(t@),
        IndiElementValue::Switch(b) => ValueView::Switch(b),
        IndiElementValue::Light(s) => ValueView::Light(s),
    }
}

/// The contents of a list of elements.
pub open spec fn elements_view(v: Seq<IndiElement>) -> Seq<ElementView> {
    v.map_values(|e: IndiElement| e@)
}

/// A JSON number, if the value is one.
pub open spec fn number_of(v: Json) -> Option<JsonNumber> {
    match v {
        Json::Number(n) => Some(n),
        _ => None,
    }
}

/// The kinds of element arrays a property payload may carry.
pub enum ElementKind {
    Switch,
    Number,
    Text,
    Light,
}

/// The element array of a payload: the first of `switches`, `numbers`,
/// `texts`, `lights` that is an array.
pub open spec fn element_array(p: Json) -> Option<(ElementKind, Seq<Json>)> {
    if p.at("switches"@) is Array {
        Some((ElementKind::Switch, p.at("switches"@)->Array_0@))
    } else if p.at("numbers"@) is Array {
        Some((ElementKind::Number, p.at("numbers"@)->Array_0@))
    } else if p.at("texts"@) is Array {
        Some((ElementKind::Text, p.at("texts"@)->Array_0@))
    } else if p.at("lights"@) is Array {
        Some((ElementKind::Light, p.at("lights"@)->Array_0@))
    } else {
        None
    }
}

/// One element read from its JSON form; a missing label falls back to the name.
pub open spec fn element_of(kind: ElementKind, el: Json) -> ElementView {
    let n = str_or_empty(el, "name"@);
    ElementView {
        name: n,
        label: str_or(el, "label"@, n),
        value: match kind {
            ElementKind::Switch => ValueView::Switch(switch_on(el)),
            ElementKind::Number => ValueView::Number {
                value: number_of(el.at("value"@)),
                min: number_of(el.at("min"@)),
                max: number_of(el.at("max"@)),
                step: number_of(el.at("step"@)),
                format: str_or_empty(el, "format"@),
            },
            ElementKind::Text => ValueView::Text(str_or_empty(el, "text"@)),
            ElementKind::Light => ValueView::Light(state_of(el.at("state"@))),
        },
    }
}

pub(crate) fn number_at(el: &Json, k: &str) -> (r: Option<JsonNumber>)
    ensures
        r == number_of(el.at(k@)),
{
    match el.get(k) {
        Some(Json::Number(n)) => Some(*n),
        _ => None,
    }
}

/// The value of the first element named `name` among `els`, from index `j`
/// on; `None` when there is no such element or its value is not a number.
pub open spec fn named_number_from(els: Seq<Json>, name: Seq<char>, j: int) -> Option<JsonNumber>
    decreases els.len() - j,
{
    if j < 0 || j >= els.len() {
        None
    } else if els[j].at("name"@).str_of() == Some(name) {
        number_of(els[j].at("value"@))
    } else {
        named_number_from(els, name, j + 1)
    }
}

/// The value of the number element `name` of a property payload: the first
/// element of `numbers` with that name.
pub open spec fn indi_number(p: Json, name: Seq<char>) -> Option<JsonNumber> {
    match p.at("numbers"@) {
        Json::Array(a) => named_number_from(a@, name, 0),
        _ => None,
    }
}

/// The value of the number element `name` of a property payload.
pub fn indi_number_at(p: &Json, name: &str) -> (r: Option<JsonNumber>)
    ensures
        r == indi_number(*p, name@),
{
    match p.get("numbers") {
        Some(Json::Array(a)) => {
            let mut i: usize = 0;
            while i < a.len()
                invariant
                    i <= a@.len(),
                    p.at("numbers"@) == Json::Array(*a),
                    indi_number(*p, name@) == named_number_from(a@, name@, i as int),
                decreases a.len() - i,
            {
                let el = &a[i];
                let hit = match el.str_at("name") {
                    Some(n) => {
                        let nv = chars_of(n);
                        let kv = chars_of(name);
                        chars_eq(&nv, &kv)
                    },
                    None => false,
                };
                if hit {
                    return number_at(el, "value");
                }
                i += 1;
            }
            None
        },
        _ => None,
    }
}

fn read_element(kind: &ElementKind, el: &Json) -> (r: IndiElement)
    ensures
        r@ == element_of(*kind, *el),
{
    let n = get_string(el, "name");
    let l = get_string_or(el, "label", n.as_str());
    let value = match kind {
        ElementKind::Switch => IndiElementValue::Switch(switch_state_from_json(el)),
        ElementKind::Number => IndiElementValue::Number {
            value: number_at(el, "value"),
            min: number_at(el, "min"),
            max: number_at(el, "max"),
            step: number_at(el, "step"),
            format: get_string(el, "format"),
        },
        ElementKind::Text => IndiElementValue::Text(get_string(el, "text")),
        ElementKind::Light => {
            let st = match el.get("state") {
                Some(s) => IndiState::from_json(s),
                None => IndiState::from_json(&Json::Null),
            };
            IndiElementValue::Light(st)
        },
    };
    IndiElement { name: n, label: l, value }
}

fn find_element_array(p: &Json) -> (r: Option<(ElementKind, &Vec<Json>)>)
    ensures
        match element_array(*p) {
            Some((k, a)) => r matches Some((k2, a2)) && k2 == k && a2@ == a,
            None => r is None,
        },
{
    if let Some(Json::Array(a)) = p.get("switches") {
        return Some((ElementKind::Switch, a));
    }
    if let Some(Json::Array(a)) = p.get("numbers") {
        return Some((ElementKind::Number, a));
    }
    if let Some(Json::Array(a)) = p.get("texts") {
        return Some((ElementKind::Text, a));
    }
    if let Some(Json::Array(a)) = p.get("lights") {
        return Some((ElementKind::Light, a));
    }
    None
}

/// Whether the member `k` of `p` is a string.
pub open spec fn is_string_at(p: Json, k: Seq<char>) -> bool {
    p.at(k) is Str
}

impl IndiProperty {
    /// Whether the property's first element is a switch.
    pub open spec fn switch_kind(&self) -> bool {
        self.elements@.len() > 0 && self.elements@[0].value is Switch
    }

    /// Whether the property is a switch vector.
    pub fn is_switch(&self) -> (r: bool)
        ensures
            r == self.switch_kind(),
    {
        if self.elements.len() == 0 {
            false
        } else {
            match &self.elements[0].value {
                IndiElementValue::Switch(_) => true,
                _ => false,
            }
        }
    }

    /// Reads a property from a full or compact payload. The element kind is
    /// the first array present among `switches`, `numbers`, `texts`, `lights`
    /// (none: not a supported property). Labels fall back to names, the
    /// group to `"Main Control"`; lights are always read-only.
    pub fn from_json(p: &Json) -> (r: Option<IndiProperty>)
        ensures
            match (p.at("name"@).str_of(), element_array(*p)) {
                (Some(name), Some((kind, arr))) => r matches Some(prop) && {
                    &&& prop.name@ == name
                    &&& prop.label@ == str_or(*p, "label"@, name)
                    &&& prop.group@ == str_or(*p, "group"@, "Main Control"@)
                    &&& prop.state == state_of(p.at("state"@))
                    &&& prop.perm == (if p.at("lights"@) is Array {
                        IndiPerm::Ro
                    } else {
                        perm_of(p.at("perm"@))
                    })
                    &&& prop.rule == rule_of(p.at("rule"@))
                    &&& prop.full == is_string_at(*p, "label"@)
                    &&& elements_view(prop.elements@) == arr.map_values(
                        |el: Json| element_of(kind, el),
                    )
                },
                _ => r is None,
            },
    {
        let name = match p.str_at("name") {
            Some(n) => String::from_str(n),
            None => {
                return None;
            },
        };
        let (kind, arr) = match find_element_array(p) {
            Some(x) => x,
            None => {
                return None;
            },
        };
        let mut elements: Vec<IndiElement> = Vec::new();
        let mut i: usize = 0;
        while i < arr.len()
            invariant
                i <= arr@.len(),
                elements_view(elements@) == arr@.subrange(0, i as int).map_values(
                    |el: Json| element_of(kind, el),
                ),
            decreases arr.len() - i,
        {
            let e = read_element(&kind, &arr[i]);
            let ghost before = elements@;
            elements.push(e);
            proof {
                assert(elements_view(elements@) =~= elements_view(before).push(
                    element_of(kind, arr@[i as int]),
                ));
                assert(arr@.subrange(0, i + 1) =~= arr@.subrange(0, i as int).push(arr@[i as int]));
                assert(arr@.subrange(0, i + 1).map_values(|el: Json| element_of(kind, el))
                    =~= arr@.subrange(0, i as int).map_values(|el: Json| element_of(kind, el)).push(
                    element_of(kind, arr@[i as int]),
                ));
            }
            i += 1;
        }
        assert(arr@.subrange(0, arr@.len() as int) =~= arr@);
        let is_light = match p.get("lights") {
            Some(l) => l.is_array(),
            None => false,
        };
        let null = Json::Null;
        let label = get_string_or(p, "label", name.as_str());
        let group = get_string_or(p, "group", "Main Control");
        let state = match p.get("state") {
            Some(s) => IndiState::from_json(s),
            None => IndiState::from_json(&null),
        };
        let perm = if is_light {
            IndiPerm::Ro
        } else {
            match p.get("perm") {
                Some(s) => IndiPerm::from_json(s),
                None => IndiPerm::from_json(&null),
            }
        };
        let rule = match p.get("rule") {
            Some(s) => IndiRule::from_json(s),
            None => IndiRule::from_json(&null),
        };
        let full = match p.get("label") {
            Some(Json::Str(_)) => true,
            _ => false,
        };
        Some(IndiProperty { name, label, group, state, perm, rule, full, elements })
    }
}

// ── Compact updates ──────────────────────────────────────────────────────────

/// Index of the first element named `n`, from index `j` on.
pub open spec fn element_named(es: Seq<ElementView>, n: Seq<char>, j: int) -> Option<int>
    decreases es.len() - j,
{
    if j < 0 || j >= es.len() {
        None
    } else if es[j].name == n {
        Some(j)
    } else {
        element_named(es, n, j + 1)
    }
}

/// An element's value after a compact update `el`: a number takes `value`
/// when it is a number, a text takes `text` when it is a string, a switch and
/// a light take the update's state.
pub open spec fn updated_value(v: ValueView, el: Json) -> ValueView {
    match v {
        ValueView::Number { value, min, max, step, format } => ValueView::Number {
            value: match number_of(el.at("value"@)) {
                Some(n) => Some(n),
                None => value,
            },
            min,
            max,
            step,
            format,
        },
        ValueView::Text(t) => ValueView::Text(
            match el.at("text"@).str_of() {
                Some(s) => s,
                None => t,
            },
        ),
        ValueView::Switch(_) => ValueView::Switch(switch_on(el)),
        ValueView::Light(_) => ValueView::Light(state_of(el.at("state"@))),
    }
}

/// The elements after one compact update entry: the first element with the
/// entry's name gets the new value; entries without a name, or naming no
/// element, change nothing.
pub open spec fn merge_entry(es: Seq<ElementView>, el: Json) -> Seq<ElementView> {
    match el.at("name"@).str_of() {
        Some(n) => match element_named(es, n, 0) {
            Some(k) => es.update(
                k,
                ElementView { name: es[k].name, label: es[k].label, value: updated_value(es[k].value, el) },
            ),
            None => es,
        },
        None => es,
    }
}

/// The elements after the first `k` entries of a compact update.
pub open spec fn merge_entries(es: Seq<ElementView>, arr: Seq<Json>, k: int) -> Seq<ElementView>
    decreases k,
{
    if k <= 0 {
        es
    } else {
        merge_entry(merge_entries(es, arr, k - 1), arr[k - 1])
    }
}

fn update_value(v: &mut IndiElementValue, el: &Json)
    ensures
        value_view(*final(v)) == updated_value(value_view(*old(v)), *el),
{
    match v {
        IndiElementValue::Number { value, .. } => {
            match el.get("value") {
                Some(Json::Number(n)) => {
                    *value = Some(*n);
                },
                _ => {},
            }
        },
        IndiElementValue::Text(t) => {
            match el.str_at("text") {
                Some(s) => {
                    *t = String::from_str(s);
                },
                None => {},
            }
        },
        IndiElementValue::Switch(on) => {
            *on = switch_state_from_json(el);
        },
        IndiElementValue::Light(st) => {
            *st = match el.get("state") {
                Some(s) => IndiState::from_json(s),
                None => IndiState::from_json(&Json::Null),
            };
        },
    }
}

impl IndiProperty {
    /// Merges a compact update into this record: the property state and the
    /// element values change; names, labels, group, permission, rule and
    /// number limits stay.
    pub fn merge_compact(&mut self, p: &Json)
        ensures
            final(self).state == state_of(p.at("state"@)),
            final(self).name == old(self).name,
            final(self).label == old(self).label,
            final(self).group == old(self).group,
            final(self).perm == old(self).perm,
            final(self).rule == old(self).rule,
            final(self).full == old(self).full,
            elements_view(final(self).elements@) == match element_array(*p) {
                Some((_, arr)) => merge_entries(elements_view(old(self).elements@), arr, arr.len() as int),
                None => elements_view(old(self).elements@),
            },
    {
        self.state = match p.get("state") {
            Some(s) => IndiState::from_json(s),
            None => IndiState::from_json(&Json::Null),
        };
        let arr = match find_element_array(p) {
            Some((_, a)) => a,
            None => {
                return;
            },
        };
        let ghost start = elements_view(self.elements@);
        let mut i: usize = 0;
        while i < arr.len()
            invariant
                i <= arr@.len(),
                element_array(*p) matches Some((_, a)) && a == arr@,
                elements_view(self.elements@) == merge_entries(start, arr@, i as int),
                self.state == state_of(p.at("state"@)),
                self.name == old(self).name,
                self.label == old(self).label,
                self.group == old(self).group,
                self.perm == old(self).perm,
                self.rule == old(self).rule,
                self.full == old(self).full,
                start == elements_view(old(self).elements@),
            decreases arr.len() - i,
        {
            let el = &arr[i];
            let ghost cur = elements_view(self.elements@);
            match el.str_at("name") {
                Some(n) => {
                    let nv = chars_of(n);
                    let mut j: usize = 0;
                    let mut found: Option<usize> = None;
                    while j < self.elements.len() && found.is_none()
                        invariant
                            j <= self.elements@.len(),
                            cur == elements_view(self.elements@),
                            nv@ == n@,
                            found matches Some(k) ==> k < self.elements@.len() && element_named(
                                cur,
                                n@,
                                0,
                            ) == Some(k as int),
                            found is None ==> element_named(cur, n@, 0) == element_named(
                                cur,
                                n@,
                                j as int,
                            ),
                        decreases self.elements@.len() - j + (if found is None {
                            1int
                        } else {
                            0int
                        }),
                    {
                        let en = chars_of(self.elements[j].name.as_str());
                        if chars_eq(&en, &nv) {
                            assert(cur[j as int].name == n@);
                            found = Some(j);
                        } else {
                            j += 1;
                        }
                    }
                    match found {
                        Some(k) => {
                            let ghost old_elems = self.elements@;
                            let mut e = self.elements.remove(k);
                            update_value(&mut e.value, el);
                            self.elements.insert(k, e);
                            assert(elements_view(self.elements@) =~= cur.update(
                                k as int,
                                ElementView {
                                    name: cur[k as int].name,
                                    label: cur[k as int].label,
                                    value: updated_value(cur[k as int].value, *el),
                                },
                            ));
                        },
                        None => {
                            assert(element_named(cur, n@, 0) is None);
                        },
                    }
                },
                None => {},
            }
            i += 1;
        }
    }
}

/// The fixed part of an element value: a number's limits and format, or
/// which kind of value it is.
pub open spec fn value_layout(v: ValueView) -> ValueView {
    match v {
        ValueView::Number { min, max, step, format, .. } => ValueView::Number {
            value: None,
            min,
            max,
            step,
            format,
        },
        ValueView::Text(_) => ValueView::Text(seq![]),
        ValueView::Switch(_) => ValueView::Switch(false),
        ValueView::Light(_) => ValueView::Light(IndiState::Idle),
    }
}

proof fn lemma_element_named_range(es: Seq<ElementView>, n: Seq<char>, j: int)
    requires
        0 <= j,
    ensures
        element_named(es, n, j) matches Some(k) ==> j <= k < es.len(),
    decreases es.len() - j,
{
    if j < es.len() && es[j].name != n {
        lemma_element_named_range(es, n, j + 1);
    }
}

/// A compact update changes element values only: the elements keep their
/// number, order, names, labels, kinds, and a number's limits and format.
pub proof fn law_compact_merge_keeps_layout(es: Seq<ElementView>, arr: Seq<Json>, k: int)
    requires
        0 <= k <= arr.len(),
    ensures
        merge_entries(es, arr, k).len() == es.len(),
        forall|i: int|
            0 <= i < es.len() ==> (#[trigger] merge_entries(es, arr, k)[i]).name == es[i].name
                && merge_entries(es, arr, k)[i].label == es[i].label && value_layout(
                merge_entries(es, arr, k)[i].value,
            ) == value_layout(es[i].value),
    decreases k,
{
    if k > 0 {
        law_compact_merge_keeps_layout(es, arr, k - 1);
        let prev = merge_entries(es, arr, k - 1);
        let el = arr[k - 1];
        if let Some(n) = el.at("name"@).str_of() {
            lemma_element_named_range(prev, n, 0);
        }
        assert forall|i: int| 0 <= i < es.len() implies (#[trigger] merge_entries(
            es,
            arr,
            k,
        )[i]).name == es[i].name && merge_entries(es, arr, k)[i].label == es[i].label
            && value_layout(merge_entries(es, arr, k)[i].value) == value_layout(es[i].value) by {
            assert(prev[i].name == es[i].name);
        }
    }
}

} // verus!
