//! Equipment records the frontend keeps: devices, drivers, profiles, optical
//! trains and telescopes, with their views and their JSON forms.

use vstd::prelude::*;

use crate::indi::{
    bool_or_false, get_string, i64_or_zero, number_at, number_of, profile_mode, str_or_empty,
    u64_or_zero, DeviceInfo, DriverInfo, ProfileInfo,
};
use crate::json::{member_from, Json, JsonMember, JsonNumber};
use crate::text::{push_str, string_of, trim};

verus! {

// ── Devices and drivers ──────────────────────────────────────────────────────

/// The contents of a [`DeviceInfo`].
pub struct DeviceView {
    pub name: Seq<char>,
    pub connected: bool,
    pub interface: i64,
}

impl View for DeviceInfo {
    type V = DeviceView;

    open spec fn view(&self) -> DeviceView {
        DeviceView { name: self.name@, connected: self.connected, interface: self.interface }
    }
}

/// A device record read from `{name, connected, interface}`.
pub open spec fn device_of(v: Json) -> DeviceView {
    DeviceView {
        name: str_or_empty(v, "name"@),
        connected: bool_or_false(v, "connected"@),
        interface: i64_or_zero(v, "interface"@),
    }
}

/// The contents of a [`DriverInfo`].
pub struct DriverView {
    pub name: Seq<char>,
    pub label: Seq<char>,
    pub family: Seq<char>,
}

impl View for DriverInfo {
    type V = DriverView;

    open spec fn view(&self) -> DriverView {
        DriverView { name: self.name@, label: self.label@, family: self.family@ }
    }
}

/// A driver record read from `{name, label, family}`.
pub open spec fn driver_of(v: Json) -> DriverView {
    DriverView {
        name: str_or_empty(v, "name"@),
        label: str_or_empty(v, "label"@),
        family: str_or_empty(v, "family"@),
    }
}

// ── Profiles ─────────────────────────────────────────────────────────────────

/// The contents of a [`ProfileInfo`].
pub struct ProfileView {
    pub name: Seq<char>,
    pub auto_connect: bool,
    pub port_selector: bool,
    pub mode: Seq<char>,
    pub remote_host: Seq<char>,
    pub remote_port: u16,
    pub guiding: i32,
    pub remote_guiding_host: Seq<char>,
    pub remote_guiding_port: u16,
    pub use_web_manager: bool,
    pub mount: Seq<char>,
    pub ccd: Seq<char>,
    pub guider: Seq<char>,
    pub focuser: Seq<char>,
    pub filter: Seq<char>,
    pub ao: Seq<char>,
    pub dome: Seq<char>,
    pub weather: Seq<char>,
    pub aux1: Seq<char>,
    pub aux2: Seq<char>,
    pub aux3: Seq<char>,
    pub aux4: Seq<char>,
    pub remote: Seq<char>,
    pub driver_source: Seq<char>,
}

impl View for ProfileInfo {
    type V = ProfileView;

    open spec fn view(&self) -> ProfileView {
        ProfileView {
            name: self.name@,
            auto_connect: self.auto_connect,
            port_selector: self.port_selector,
            mode: self.mode@,
            remote_host: self.remote_host@,
            remote_port: self.remote_port,
            guiding: self.guiding,
            remote_guiding_host: self.remote_guiding_host@,
            remote_guiding_port: self.remote_guiding_port,
            use_web_manager: self.use_web_manager,
            mount: self.mount@,
            ccd: self.ccd@,
            guider: self.guider@,
            focuser: self.focuser@,
            filter: self.filter@,
            ao: self.ao@,
            dome: self.dome@,
            weather: self.weather@,
            aux1: self.aux1@,
            aux2: self.aux2@,
            aux3: self.aux3@,
            aux4: self.aux4@,
            remote: self.remote@,
            driver_source: self.driver_source@,
        }
    }
}

/// A profile record read from its JSON form (see [`ProfileInfo::from_json`]).
pub open spec fn profile_of(v: Json) -> ProfileView {
    ProfileView {
        name: str_or_empty(v, "name"@),
        auto_connect: bool_or_false(v, "auto_connect"@),
        port_selector: bool_or_false(v, "port_selector"@),
        mode: profile_mode(v),
        remote_host: str_or_empty(v, "remote_host"@),
        remote_port: u64_or_zero(v, "remote_port"@) as u16,
        guiding: i64_or_zero(v, "guiding"@) as i32,
        remote_guiding_host: str_or_empty(v, "remote_guiding_host"@),
        remote_guiding_port: u64_or_zero(v, "remote_guiding_port"@) as u16,
        use_web_manager: bool_or_false(v, "use_web_manager"@),
        mount: str_or_empty(v, "mount"@),
        ccd: str_or_empty(v, "ccd"@),
        guider: str_or_empty(v, "guider"@),
        focuser: str_or_empty(v, "focuser"@),
        filter: str_or_empty(v, "filter"@),
        ao: str_or_empty(v, "ao"@),
        dome: str_or_empty(v, "dome"@),
        weather: str_or_empty(v, "weather"@),
        aux1: str_or_empty(v, "aux1"@),
        aux2: str_or_empty(v, "aux2"@),
        aux3: str_or_empty(v, "aux3"@),
        aux4: str_or_empty(v, "aux4"@),
        remote: str_or_empty(v, "remote"@),
        driver_source: str_or_empty(v, "driver_source"@),
    }
}

// ── Optical trains ───────────────────────────────────────────────────────────

/// An optical train: the devices of one imaging or guiding path.
#[derive(Debug)]
pub struct OpticalTrain {
    pub id: i64,
    pub name: String,
    pub mount: String,
    pub camera: String,
    pub scope: String,
    pub guider: String,
    pub focuser: String,
    pub filterwheel: String,
    pub rotator: String,
    pub dustcap: String,
    pub lightbox: String,
    /// Focal reducer ratio (`1.0` when there is none).
    pub reducer: JsonNumber,
}

/// The contents of an [`OpticalTrain`].
pub struct TrainView {
    pub id: i64,
    pub name: Seq<char>,
    pub mount: Seq<char>,
    pub camera: Seq<char>,
    pub scope: Seq<char>,
    pub guider: Seq<char>,
    pub focuser: Seq<char>,
    pub filterwheel: Seq<char>,
    pub rotator: Seq<char>,
    pub dustcap: Seq<char>,
    pub lightbox: Seq<char>,
    pub reducer: JsonNumber,
}

impl View for OpticalTrain {
    type V = TrainView;

    open spec fn view(&self) -> TrainView {
        TrainView {
            id: self.id,
            name: self.name@,
            mount: self.mount@,
            camera: self.camera@,
            scope: self.scope@,
            guider: self.guider@,
            focuser: self.focuser@,
            filterwheel: self.filterwheel@,
            rotator: self.rotator@,
            dustcap: self.dustcap@,
            lightbox: self.lightbox@,
            reducer: self.reducer,
        }
    }
}

/// The number `1.0` (IEEE-754 bit pattern).
pub open spec fn one_number() -> JsonNumber {
    JsonNumber::Float(0x3FF0_0000_0000_0000)
}

/// Whether a JSON number is greater than zero. A non-integer is held by its
/// IEEE-754 bit pattern: positive (finite or infinite) exactly when the sign
/// bit is clear, the pattern is not zero and it is not a NaN.
pub open spec fn number_positive(n: JsonNumber) -> bool {
    match n {
        JsonNumber::PosInt(u) => u > 0,
        JsonNumber::NegInt(i) => i > 0,
        JsonNumber::Float(b) => 0 < b <= 0x7FF0_0000_0000_0000,
    }
}

/// The reducer of a train record: a positive number, `1.0` otherwise.
pub open spec fn reducer_of(v: Json) -> JsonNumber {
    match number_of(v.at("reducer"@)) {
        Some(n) => if number_positive(n) {
            n
        } else {
            one_number()
        },
        None => one_number(),
    }
}

/// A train record read from its JSON form.
pub open spec fn train_of(v: Json) -> TrainView {
    TrainView {
        id: i64_or_zero(v, "id"@),
        name: str_or_empty(v, "name"@),
        mount: str_or_empty(v, "mount"@),
        camera: str_or_empty(v, "camera"@),
        scope: str_or_empty(v, "scope"@),
        guider: str_or_empty(v, "guider"@),
        focuser: str_or_empty(v, "focuser"@),
        filterwheel: str_or_empty(v, "filterwheel"@),
        rotator: str_or_empty(v, "rotator"@),
        dustcap: str_or_empty(v, "dustcap"@),
        lightbox: str_or_empty(v, "lightbox"@),
        reducer: reducer_of(v),
    }
}

fn positive(n: JsonNumber) -> (r: bool)
    ensures
        r == number_positive(n),
{
    match n {
        JsonNumber::PosInt(u) => u > 0,
        JsonNumber::NegInt(i) => i > 0,
        JsonNumber::Float(b) => 0 < b && b <= 0x7FF0_0000_0000_0000,
    }
}

impl OpticalTrain {
    /// Reads a train record; missing strings read as `""`, a missing id as 0,
    /// a missing or non-positive reducer as `1.0`.
    pub fn from_json(t: &Json) -> (r: OpticalTrain)
        ensures
            r@ == train_of(*t),
    {
        let reducer = match number_at(t, "reducer") {
            Some(n) => if positive(n) {
                n
            } else {
                JsonNumber::Float(0x3FF0_0000_0000_0000)
            },
            None => JsonNumber::Float(0x3FF0_0000_0000_0000),
        };
        OpticalTrain {
            id: match t.i64_at("id") {
                Some(i) => i,
                None => 0,
            },
            name: get_string(t, "name"),
            mount: get_string(t, "mount"),
            camera: get_string(t, "camera"),
            scope: get_string(t, "scope"),
            guider: get_string(t, "guider"),
            focuser: get_string(t, "focuser"),
            filterwheel: get_string(t, "filterwheel"),
            rotator: get_string(t, "rotator"),
            dustcap: get_string(t, "dustcap"),
            lightbox: get_string(t, "lightbox"),
            reducer,
        }
    }

    /// A copy of the train.
    pub fn duplicate(&self) -> (r: OpticalTrain)
        ensures
            r@ == self@,
    {
        OpticalTrain {
            id: self.id,
            name: self.name.clone(),
            mount: self.mount.clone(),
            camera: self.camera.clone(),
            scope: self.scope.clone(),
            guider: self.guider.clone(),
            focuser: self.focuser.clone(),
            filterwheel: self.filterwheel.clone(),
            rotator: self.rotator.clone(),
            dustcap: self.dustcap.clone(),
            lightbox: self.lightbox.clone(),
            reducer: self.reducer,
        }
    }
}

// ── Telescopes ───────────────────────────────────────────────────────────────

/// A telescope of the observatory's optics database.
#[derive(Debug)]
pub struct ScopeInfo {
    /// Database row id; empty for a scope not saved yet.
    pub id: String,
    pub model: String,
    pub vendor: String,
    /// "Refractor", "Reflector", …
    pub type_: String,
    /// Display name, which a train's `scope` refers to.
    pub name: String,
    pub focal_length_mm: JsonNumber,
    pub aperture_mm: JsonNumber,
}

/// The contents of a [`ScopeInfo`].
pub struct ScopeView {
    pub id: Seq<char>,
    pub model: Seq<char>,
    pub vendor: Seq<char>,
    pub type_: Seq<char>,
    pub name: Seq<char>,
    pub focal_length_mm: JsonNumber,
    pub aperture_mm: JsonNumber,
}

impl View for ScopeInfo {
    type V = ScopeView;

    open spec fn view(&self) -> ScopeView {
        ScopeView {
            id: self.id@,
            model: self.model@,
            vendor: self.vendor@,
            type_: self.type_@,
            name: self.name@,
            focal_length_mm: self.focal_length_mm,
            aperture_mm: self.aperture_mm,
        }
    }
}

/// A number member, `0.0` when absent.
pub open spec fn number_or_zero_of(v: Json, k: Seq<char>) -> JsonNumber {
    match number_of(v.at(k)) {
        Some(n) => n,
        None => JsonNumber::Float(0),
    }
}

/// A scope record read from `{id, model, vendor, type, name, focal_length, aperture}`.
pub open spec fn scope_of(v: Json) -> ScopeView {
    ScopeView {
        id: str_or_empty(v, "id"@),
        model: str_or_empty(v, "model"@),
        vendor: str_or_empty(v, "vendor"@),
        type_: str_or_empty(v, "type"@),
        name: str_or_empty(v, "name"@),
        focal_length_mm: number_or_zero_of(v, "focal_length"@),
        aperture_mm: number_or_zero_of(v, "aperture"@),
    }
}

impl ScopeInfo {
    /// Reads a scope record; missing strings read as `""`, missing numbers as `0.0`.
    pub fn from_json(s: &Json) -> (r: ScopeInfo)
        ensures
            r@ == scope_of(*s),
    {
        ScopeInfo {
            id: get_string(s, "id"),
            model: get_string(s, "model"),
            vendor: get_string(s, "vendor"),
            type_: get_string(s, "type"),
            name: get_string(s, "name"),
            focal_length_mm: match number_at(s, "focal_length") {
                Some(n) => n,
                None => JsonNumber::Float(0),
            },
            aperture_mm: match number_at(s, "aperture") {
                Some(n) => n,
                None => JsonNumber::Float(0),
            },
        }
    }
}

// ── JSON forms ───────────────────────────────────────────────────────────────

/// A member `k` whose value is the string `v`.
pub open spec fn str_member(m: JsonMember, k: Seq<char>, v: Seq<char>) -> bool {
    m.key@ == k && (m.value matches Json::Str(x) && x@ == v)
}

/// An integer as a JSON number.
pub open spec fn int_number(i: i64) -> JsonNumber {
    if i >= 0 {
        JsonNumber::PosInt(i as u64)
    } else {
        JsonNumber::NegInt(i)
    }
}

/// An integer as a JSON number.
pub fn number_of_i64(i: i64) -> (r: JsonNumber)
    ensures
        r == int_number(i),
{
    if i >= 0 {
        JsonNumber::PosInt(i as u64)
    } else {
        JsonNumber::NegInt(i)
    }
}

/// The driver source a profile is sent with: `"system"` when it has none.
pub open spec fn sent_driver_source(d: Seq<char>) -> Seq<char> {
    if d.len() == 0 {
        "system"@
    } else {
        d
    }
}

/// The members of a profile as sent to KStars: one per field, in key order.
pub open spec fn profile_members(ms: Seq<JsonMember>, p: ProfileView) -> bool {
    &&& ms.len() == 24
    &&& str_member(ms[0], "ao"@, p.ao)
    &&& ms[1].key@ == "auto_connect"@ && ms[1].value == Json::Bool(p.auto_connect)
    &&& str_member(ms[2], "aux1"@, p.aux1)
    &&& str_member(ms[3], "aux2"@, p.aux2)
    &&& str_member(ms[4], "aux3"@, p.aux3)
    &&& str_member(ms[5], "aux4"@, p.aux4)
    &&& str_member(ms[6], "ccd"@, p.ccd)
    &&& str_member(ms[7], "dome"@, p.dome)
    &&& str_member(ms[8], "driver_source"@, sent_driver_source(p.driver_source))
    &&& str_member(ms[9], "filter"@, p.filter)
    &&& str_member(ms[10], "focuser"@, p.focuser)
    &&& str_member(ms[11], "guider"@, p.guider)
    &&& ms[12].key@ == "guiding"@ && ms[12].value == Json::Number(int_number(p.guiding as i64))
    &&& str_member(ms[13], "mode"@, p.mode)
    &&& str_member(ms[14], "mount"@, p.mount)
    &&& str_member(ms[15], "name"@, p.name)
    &&& ms[16].key@ == "port_selector"@ && ms[16].value == Json::Bool(p.port_selector)
    &&& str_member(ms[17], "remote"@, p.remote)
    &&& str_member(ms[18], "remote_guiding_host"@, p.remote_guiding_host)
    &&& ms[19].key@ == "remote_guiding_port"@ && ms[19].value == Json::Number(
        JsonNumber::PosInt(p.remote_guiding_port as u64),
    )
    &&& str_member(ms[20], "remote_host"@, p.remote_host)
    &&& ms[21].key@ == "remote_port"@ && ms[21].value == Json::Number(
        JsonNumber::PosInt(p.remote_port as u64),
    )
    &&& ms[22].key@ == "use_web_manager"@ && ms[22].value == Json::Bool(p.use_web_manager)
    &&& str_member(ms[23], "weather"@, p.weather)
}

impl ProfileInfo {
    /// The profile as sent with `profile_add` / `profile_update`: one member
    /// per field, in key order; an empty driver source is sent as `"system"`.
    pub fn to_json(&self) -> (r: Json)
        ensures
            r matches Json::Object(ms) && profile_members(ms@, self@),
    {
        let mut ms: Vec<JsonMember> = Vec::new();
        ms.push(JsonMember { key: String::from_str("ao"), value: Json::Str(self.ao.clone()) });
        ms.push(JsonMember { key: String::from_str("auto_connect"), value: Json::Bool(self.auto_connect) });
        ms.push(JsonMember { key: String::from_str("aux1"), value: Json::Str(self.aux1.clone()) });
        ms.push(JsonMember { key: String::from_str("aux2"), value: Json::Str(self.aux2.clone()) });
        ms.push(JsonMember { key: String::from_str("aux3"), value: Json::Str(self.aux3.clone()) });
        ms.push(JsonMember { key: String::from_str("aux4"), value: Json::Str(self.aux4.clone()) });
        ms.push(JsonMember { key: String::from_str("ccd"), value: Json::Str(self.ccd.clone()) });
        ms.push(JsonMember { key: String::from_str("dome"), value: Json::Str(self.dome.clone()) });
        let ds = if self.driver_source.as_str().is_empty() {
            String::from_str("system")
        } else {
            self.driver_source.clone()
        };
        ms.push(JsonMember { key: String::from_str("driver_source"), value: Json::Str(ds) });
        ms.push(JsonMember { key: String::from_str("filter"), value: Json::Str(self.filter.clone()) });
        ms.push(JsonMember { key: String::from_str("focuser"), value: Json::Str(self.focuser.clone()) });
        ms.push(JsonMember { key: String::from_str("guider"), value: Json::Str(self.guider.clone()) });
        ms.push(JsonMember { key: String::from_str("guiding"), value: Json::Number(number_of_i64(self.guiding as i64)) });
        ms.push(JsonMember { key: String::from_str("mode"), value: Json::Str(self.mode.clone()) });
        ms.push(JsonMember { key: String::from_str("mount"), value: Json::Str(self.mount.clone()) });
        ms.push(JsonMember { key: String::from_str("name"), value: Json::Str(self.name.clone()) });
        ms.push(JsonMember { key: String::from_str("port_selector"), value: Json::Bool(self.port_selector) });
        ms.push(JsonMember { key: String::from_str("remote"), value: Json::Str(self.remote.clone()) });
        ms.push(JsonMember { key: String::from_str("remote_guiding_host"), value: Json::Str(self.remote_guiding_host.clone()) });
        ms.push(JsonMember { key: String::from_str("remote_guiding_port"), value: Json::Number(JsonNumber::PosInt(self.remote_guiding_port as u64)) });
        ms.push(JsonMember { key: String::from_str("remote_host"), value: Json::Str(self.remote_host.clone()) });
        ms.push(JsonMember { key: String::from_str("remote_port"), value: Json::Number(JsonNumber::PosInt(self.remote_port as u64)) });
        ms.push(JsonMember { key: String::from_str("use_web_manager"), value: Json::Bool(self.use_web_manager) });
        ms.push(JsonMember { key: String::from_str("weather"), value: Json::Str(self.weather.clone()) });
        Json::Object(ms)
    }
}

/// Strict lexicographic order of character sequences (by code point),
/// comparing from position `i` on.
pub open spec fn lex_less_from(a: Seq<char>, b: Seq<char>, i: int) -> bool
    decreases b.len() - i,
{
    if i < 0 || i >= b.len() {
        false
    } else if i >= a.len() {
        true
    } else if a[i] != b[i] {
        (a[i] as u32) < (b[i] as u32)
    } else {
        lex_less_from(a, b, i + 1)
    }
}

proof fn lemma_lex_irreflexive(a: Seq<char>, i: int)
    requires
        0 <= i,
    ensures
        !lex_less_from(a, a, i),
    decreases a.len() - i,
{
    if i < a.len() {
        lemma_lex_irreflexive(a, i + 1);
    }
}

proof fn lemma_lex_transitive(a: Seq<char>, b: Seq<char>, c: Seq<char>, i: int)
    requires
        0 <= i,
        lex_less_from(a, b, i),
        lex_less_from(b, c, i),
    ensures
        lex_less_from(a, c, i),
    decreases c.len() - i,
{
    if i < a.len() && i < b.len() && i < c.len() && a[i] == b[i] && b[i] == c[i] {
        lemma_lex_transitive(a, b, c, i + 1);
    }
}

/// Keys in strictly increasing order are pairwise distinct.
pub proof fn lemma_sorted_keys_distinct(keys: Seq<Seq<char>>)
    requires
        forall|i: int| 0 <= i < keys.len() - 1 ==> lex_less_from(#[trigger] keys[i], keys[i + 1], 0),
    ensures
        forall|i: int, j: int| 0 <= i < j < keys.len() ==> #[trigger] keys[i] != #[trigger] keys[j],
{
    assert forall|i: int, j: int| 0 <= i < j < keys.len() implies lex_less_from(
        #[trigger] keys[i],
        #[trigger] keys[j],
        0,
    ) by {
        lemma_sorted_chain(keys, i, j);
    }
    assert forall|i: int, j: int| 0 <= i < j < keys.len() implies #[trigger] keys[i] != #[trigger] keys[j] by {
        lemma_lex_irreflexive(keys[i], 0);
    }
}

proof fn lemma_sorted_chain(keys: Seq<Seq<char>>, i: int, j: int)
    requires
        0 <= i < j < keys.len(),
        forall|k: int| 0 <= k < keys.len() - 1 ==> lex_less_from(#[trigger] keys[k], keys[k + 1], 0),
    ensures
        lex_less_from(keys[i], keys[j], 0),
    decreases j - i,
{
    if j > i + 1 {
        lemma_sorted_chain(keys, i, j - 1);
        assert(lex_less_from(keys[j - 1], keys[j], 0));
        lemma_lex_transitive(keys[i], keys[j - 1], keys[j], 0);
    }
}

/// The first member of `ms` at or after `j` with key `key` is the one at `k`
/// when no member between them has that key.
proof fn lemma_first_member(ms: Seq<JsonMember>, key: Seq<char>, j: int, k: int)
    requires
        0 <= j <= k < ms.len(),
        ms[k].key@ == key,
        forall|i: int| j <= i < k ==> (#[trigger] ms[i]).key@ != key,
    ensures
        member_from(ms, key, j) == Some(ms[k].value),
    decreases k - j,
{
    if j < k {
        lemma_first_member(ms, key, j + 1, k);
    }
}

/// The member keys of a profile, in the order they are sent.
pub open spec fn profile_keys() -> Seq<Seq<char>> {
    seq![
        "ao"@,
        "auto_connect"@,
        "aux1"@,
        "aux2"@,
        "aux3"@,
        "aux4"@,
        "ccd"@,
        "dome"@,
        "driver_source"@,
        "filter"@,
        "focuser"@,
        "guider"@,
        "guiding"@,
        "mode"@,
        "mount"@,
        "name"@,
        "port_selector"@,
        "remote"@,
        "remote_guiding_host"@,
        "remote_guiding_port"@,
        "remote_host"@,
        "remote_port"@,
        "use_web_manager"@,
        "weather"@,
    ]
}

/// A profile sent to KStars reads back as itself: every field comes back
/// unchanged, except that an empty driver source comes back as `"system"`.
/// (A profile with an empty mode comes back in `"local"` mode, so the law
/// speaks of profiles with a mode.)
pub proof fn law_profile_round_trip(p: ProfileView, v: Json)
    requires
        p.mode.len() > 0,
        v matches Json::Object(ms) && profile_members(ms@, p),
    ensures
        profile_of(v) == (ProfileView { driver_source: sent_driver_source(p.driver_source), ..p }),
{
    reveal_strlit("ao");
    reveal_strlit("auto_connect");
    reveal_strlit("aux1");
    reveal_strlit("aux2");
    reveal_strlit("aux3");
    reveal_strlit("aux4");
    reveal_strlit("ccd");
    reveal_strlit("dome");
    reveal_strlit("driver_source");
    reveal_strlit("filter");
    reveal_strlit("focuser");
    reveal_strlit("guider");
    reveal_strlit("guiding");
    reveal_strlit("mode");
    reveal_strlit("mount");
    reveal_strlit("name");
    reveal_strlit("port_selector");
    reveal_strlit("remote");
    reveal_strlit("remote_guiding_host");
    reveal_strlit("remote_guiding_port");
    reveal_strlit("remote_host");
    reveal_strlit("remote_port");
    reveal_strlit("use_web_manager");
    reveal_strlit("weather");
    reveal_with_fuel(lex_less_from, 17);
    assert(lex_less_from("ao"@, "auto_connect"@, 0));
    assert(lex_less_from("auto_connect"@, "aux1"@, 0));
    assert(lex_less_from("aux1"@, "aux2"@, 0));
    assert(lex_less_from("aux2"@, "aux3"@, 0));
    assert(lex_less_from("aux3"@, "aux4"@, 0));
    assert(lex_less_from("aux4"@, "ccd"@, 0));
    assert(lex_less_from("ccd"@, "dome"@, 0));
    assert(lex_less_from("dome"@, "driver_source"@, 0));
    assert(lex_less_from("driver_source"@, "filter"@, 0));
    assert(lex_less_from("filter"@, "focuser"@, 0));
    assert(lex_less_from("focuser"@, "guider"@, 0));
    assert(lex_less_from("guider"@, "guiding"@, 0));
    assert(lex_less_from("guiding"@, "mode"@, 0));
    assert(lex_less_from("mode"@, "mount"@, 0));
    assert(lex_less_from("mount"@, "name"@, 0));
    assert(lex_less_from("name"@, "port_selector"@, 0));
    assert(lex_less_from("port_selector"@, "remote"@, 0));
    assert(lex_less_from("remote"@, "remote_guiding_host"@, 0));
    assert(lex_less_from("remote_guiding_host"@, "remote_guiding_port"@, 0));
    assert(lex_less_from("remote_guiding_port"@, "remote_host"@, 0));
    assert(lex_less_from("remote_host"@, "remote_port"@, 0));
    assert(lex_less_from("remote_port"@, "use_web_manager"@, 0));
    assert(lex_less_from("use_web_manager"@, "weather"@, 0));
    let keys = profile_keys();
    lemma_sorted_keys_distinct(keys);
    let ms = match v {
        Json::Object(m) => m@,
        _ => Seq::empty(),
    };
    assert forall|k: int| 0 <= k < 24 implies (#[trigger] ms[k]).key@ == keys[k] by {}
    lemma_first_member(ms, "ao"@, 0, 0);
    lemma_first_member(ms, "auto_connect"@, 0, 1);
    lemma_first_member(ms, "aux1"@, 0, 2);
    lemma_first_member(ms, "aux2"@, 0, 3);
    lemma_first_member(ms, "aux3"@, 0, 4);
    lemma_first_member(ms, "aux4"@, 0, 5);
    lemma_first_member(ms, "ccd"@, 0, 6);
    lemma_first_member(ms, "dome"@, 0, 7);
    lemma_first_member(ms, "driver_source"@, 0, 8);
    lemma_first_member(ms, "filter"@, 0, 9);
    lemma_first_member(ms, "focuser"@, 0, 10);
    lemma_first_member(ms, "guider"@, 0, 11);
    lemma_first_member(ms, "guiding"@, 0, 12);
    lemma_first_member(ms, "mode"@, 0, 13);
    lemma_first_member(ms, "mount"@, 0, 14);
    lemma_first_member(ms, "name"@, 0, 15);
    lemma_first_member(ms, "port_selector"@, 0, 16);
    lemma_first_member(ms, "remote"@, 0, 17);
    lemma_first_member(ms, "remote_guiding_host"@, 0, 18);
    lemma_first_member(ms, "remote_guiding_port"@, 0, 19);
    lemma_first_member(ms, "remote_host"@, 0, 20);
    lemma_first_member(ms, "remote_port"@, 0, 21);
    lemma_first_member(ms, "use_web_manager"@, 0, 22);
    lemma_first_member(ms, "weather"@, 0, 23);
}

/// A device slot as sent to KStars: trimmed, `"--"` when empty.
pub open spec fn slot_text(v: Seq<char>) -> Seq<char> {
    if trim(v).len() == 0 {
        "--"@
    } else {
        trim(v)
    }
}

fn slot_string(v: &str) -> (r: String)
    ensures
        r@ == slot_text(v@),
{
    let t = crate::text::trim_str(v);
    if t.as_str().is_empty() {
        String::from_str("--")
    } else {
        t
    }
}

/// Whether a number can be written as JSON (a non-integer must be finite).
pub open spec fn finite_number(n: JsonNumber) -> bool {
    match n {
        JsonNumber::Float(b) => (b >> 52u64) & 0x7FFu64 != 0x7FFu64,
        _ => true,
    }
}

/// A number as JSON: `null` for a non-finite one.
pub open spec fn number_json(n: JsonNumber) -> Json {
    if finite_number(n) {
        Json::Number(n)
    } else {
        Json::Null
    }
}

/// A member `k` holding the device slot text of `v`.
pub open spec fn slot_member(m: JsonMember, k: Seq<char>, v: Seq<char>) -> bool {
    str_member(m, k, slot_text(v))
}

/// The members of a train's JSON form after its optional `id`.
pub open spec fn train_tail_ok(ms: Seq<JsonMember>, j: int, t: TrainView) -> bool {
    &&& slot_member(ms[j], "lightbox"@, t.lightbox)
    &&& slot_member(ms[j + 1], "mount"@, t.mount)
    &&& str_member(ms[j + 2], "name"@, t.name)
    &&& ms[j + 3].key@ == "reducer"@ && ms[j + 3].value == number_json(t.reducer)
    &&& slot_member(ms[j + 4], "rotator"@, t.rotator)
    &&& str_member(ms[j + 5], "scope"@, t.scope)
}

impl OpticalTrain {
    /// The train as sent with `train_add` (without `id`: KStars assigns it)
    /// or `train_update` (with `id`). Members are in key order; empty device
    /// slots are sent as `"--"`; the scope and name are sent as they are.
    pub fn to_json(&self, include_id: bool) -> (r: Json)
        ensures
            r matches Json::Object(ms) && {
                let j = if include_id {
                    6int
                } else {
                    5int
                };
                &&& ms@.len() == j + 6
                &&& slot_member(ms@[0], "camera"@, self.camera@)
                &&& slot_member(ms@[1], "dustcap"@, self.dustcap@)
                &&& slot_member(ms@[2], "filterwheel"@, self.filterwheel@)
                &&& slot_member(ms@[3], "focuser"@, self.focuser@)
                &&& slot_member(ms@[4], "guider"@, self.guider@)
                &&& include_id ==> ms@[5].key@ == "id"@ && ms@[5].value == Json::Number(
                    int_number(self.id),
                )
                &&& train_tail_ok(ms@, j, self@)
            },
    {
        let mut ms: Vec<JsonMember> = Vec::new();
        ms.push(JsonMember { key: String::from_str("camera"), value: Json::Str(slot_string(self.camera.as_str())) });
        ms.push(JsonMember { key: String::from_str("dustcap"), value: Json::Str(slot_string(self.dustcap.as_str())) });
        ms.push(JsonMember { key: String::from_str("filterwheel"), value: Json::Str(slot_string(self.filterwheel.as_str())) });
        ms.push(JsonMember { key: String::from_str("focuser"), value: Json::Str(slot_string(self.focuser.as_str())) });
        ms.push(JsonMember { key: String::from_str("guider"), value: Json::Str(slot_string(self.guider.as_str())) });
        if include_id {
            ms.push(JsonMember { key: String::from_str("id"), value: Json::Number(number_of_i64(self.id)) });
        }
        let j: usize = if include_id { 6 } else { 5 };
        ms.push(JsonMember { key: String::from_str("lightbox"), value: Json::Str(slot_string(self.lightbox.as_str())) });
        ms.push(JsonMember { key: String::from_str("mount"), value: Json::Str(slot_string(self.mount.as_str())) });
        ms.push(JsonMember { key: String::from_str("name"), value: Json::Str(self.name.clone()) });
        let finite = match self.reducer {
            JsonNumber::Float(b) => (b >> 52u64) & 0x7FFu64 != 0x7FFu64,
            _ => true,
        };
        let reducer = if finite {
            Json::Number(self.reducer)
        } else {
            Json::Null
        };
        ms.push(JsonMember { key: String::from_str("reducer"), value: reducer });
        ms.push(JsonMember { key: String::from_str("rotator"), value: Json::Str(slot_string(self.rotator.as_str())) });
        ms.push(JsonMember { key: String::from_str("scope"), value: Json::Str(self.scope.clone()) });
        assert(train_tail_ok(ms@, j as int, self@));
        Json::Object(ms)
    }
}

// ── Summaries ────────────────────────────────────────────────────────────────

/// Whether a trimmed device name is shown: not empty and not the `"--"` placeholder.
pub open spec fn shown(v: Seq<char>) -> bool {
    trim(v).len() > 0 && trim(v) != "--"@
}

/// The shown names among `fs`, trimmed, in order.
pub open spec fn shown_names(fs: Seq<Seq<char>>) -> Seq<Seq<char>>
    decreases fs.len(),
{
    if fs.len() == 0 {
        seq![]
    } else {
        shown_names(fs.drop_last()) + if shown(fs.last()) {
            seq![trim(fs.last())]
        } else {
            seq![]
        }
    }
}

/// The parts joined with `sep` between them.
pub open spec fn join(parts: Seq<Seq<char>>, sep: Seq<char>) -> Seq<char>
    decreases parts.len(),
{
    if parts.len() == 0 {
        seq![]
    } else if parts.len() == 1 {
        parts[0]
    } else {
        join(parts.drop_last(), sep) + sep + parts.last()
    }
}

/// A one-line summary of device names: the shown ones joined by `" · "`,
/// or `"—"` when none is shown.
pub open spec fn summary_text(fs: Seq<Seq<char>>) -> Seq<char> {
    let parts = shown_names(fs);
    if parts.len() == 0 {
        "—"@
    } else {
        join(parts, " · "@)
    }
}

/// The summary of the device names `fs`.
pub fn summary(fs: &Vec<&str>) -> (r: String)
    ensures
        r@ == summary_text(fs@.map_values(|x: &str| x@)),
{
    let ghost names = fs@.map_values(|x: &str| x@);
    let mut out: Vec<char> = Vec::new();
    let mut count: usize = 0;
    let mut i: usize = 0;
    assert(names.take(0) =~= seq![]);
    while i < fs.len()
        invariant
            i <= fs@.len(),
            names == fs@.map_values(|x: &str| x@),
            count == shown_names(names.take(i as int)).len(),
            count <= i,
            out@ == join(shown_names(names.take(i as int)), " · "@),
        decreases fs.len() - i,
    {
        assert(names.take(i as int + 1).drop_last() =~= names.take(i as int));
        assert(names.take(i as int + 1).last() == fs@[i as int]@);
        let t = crate::text::trim_str(fs[i]);
        if !t.as_str().is_empty() && !str_is_dashes(t.as_str()) {
            let ghost before = shown_names(names.take(i as int));
            if count > 0 {
                push_str(&mut out, " · ");
            }
            push_str(&mut out, t.as_str());
            count += 1;
            proof {
                let after = before + seq![t@];
                assert(shown_names(names.take(i as int + 1)) =~= after);
                assert(after.drop_last() =~= before);
                if before.len() == 0 {
                    assert(out@ =~= join(after, " · "@));
                }
            }
        } else {
            assert(shown_names(names.take(i as int + 1)) =~= shown_names(names.take(i as int)));
        }
        i += 1;
    }
    assert(names.take(fs@.len() as int) =~= names);
    if count == 0 {
        String::from_str("—")
    } else {
        string_of(out.as_slice())
    }
}

fn str_is_dashes(s: &str) -> (r: bool)
    ensures
        r == (s@ == "--"@),
{
    crate::status::str_is(s, "--")
}

/// A profile's devices in one line: mount, camera, guider, focuser and
/// filter wheel that are set, joined by `" · "`, or `"—"`.
pub fn device_summary(p: &ProfileInfo) -> (r: String)
    ensures
        r@ == summary_text(seq![p.mount@, p.ccd@, p.guider@, p.focuser@, p.filter@]),
{
    let fs: Vec<&str> = vec![p.mount.as_str(), p.ccd.as_str(), p.guider.as_str(), p.focuser.as_str(), p.filter.as_str()];
    let r = summary(&fs);
    assert(fs@.map_values(|x: &str| x@) =~= seq![p.mount@, p.ccd@, p.guider@, p.focuser@, p.filter@]);
    r
}

/// A train's devices in one line: mount, camera, scope and guider that are
/// set, joined by `" · "`, or `"—"`.
pub fn train_summary(t: &OpticalTrain) -> (r: String)
    ensures
        r@ == summary_text(seq![t.mount@, t.camera@, t.scope@, t.guider@]),
{
    let fs: Vec<&str> = vec![t.mount.as_str(), t.camera.as_str(), t.scope.as_str(), t.guider.as_str()];
    let r = summary(&fs);
    assert(fs@.map_values(|x: &str| x@) =~= seq![t.mount@, t.camera@, t.scope@, t.guider@]);
    r
}

// ── Defaults and copies ──────────────────────────────────────────────────────

impl Default for OpticalTrain {
    /// A train with no devices, id 0 and no reducer (`1.0`).
    fn default() -> (r: OpticalTrain)
        ensures
            r@ == (TrainView {
                id: 0,
                name: seq![],
                mount: seq![],
                camera: seq![],
                scope: seq![],
                guider: seq![],
                focuser: seq![],
                filterwheel: seq![],
                rotator: seq![],
                dustcap: seq![],
                lightbox: seq![],
                reducer: one_number(),
            }),
    {
        OpticalTrain {
            id: 0,
            name: String::new(),
            mount: String::new(),
            camera: String::new(),
            scope: String::new(),
            guider: String::new(),
            focuser: String::new(),
            filterwheel: String::new(),
            rotator: String::new(),
            dustcap: String::new(),
            lightbox: String::new(),
            reducer: JsonNumber::Float(0x3FF0_0000_0000_0000),
        }
    }
}

/// An empty profile: no name or devices, no flags, ports 0.
pub open spec fn profile_empty() -> ProfileView {
    ProfileView {
        name: seq![],
        auto_connect: false,
        port_selector: false,
        mode: seq![],
        remote_host: seq![],
        remote_port: 0,
        guiding: 0,
        remote_guiding_host: seq![],
        remote_guiding_port: 0,
        use_web_manager: false,
        mount: seq![],
        ccd: seq![],
        guider: seq![],
        focuser: seq![],
        filter: seq![],
        ao: seq![],
        dome: seq![],
        weather: seq![],
        aux1: seq![],
        aux2: seq![],
        aux3: seq![],
        aux4: seq![],
        remote: seq![],
        driver_source: seq![],
    }
}

impl Default for ProfileInfo {
    /// An empty profile.
    fn default() -> (r: ProfileInfo)
        ensures
            r@ == profile_empty(),
    {
        ProfileInfo {
            name: String::new(),
            auto_connect: false,
            port_selector: false,
            mode: String::new(),
            remote_host: String::new(),
            remote_port: 0,
            guiding: 0,
            remote_guiding_host: String::new(),
            remote_guiding_port: 0,
            use_web_manager: false,
            mount: String::new(),
            ccd: String::new(),
            guider: String::new(),
            focuser: String::new(),
            filter: String::new(),
            ao: String::new(),
            dome: String::new(),
            weather: String::new(),
            aux1: String::new(),
            aux2: String::new(),
            aux3: String::new(),
            aux4: String::new(),
            remote: String::new(),
            driver_source: String::new(),
        }
    }
}

/// A copy of a profile with the same contents.
pub fn copy_profile(p: &ProfileInfo) -> (r: ProfileInfo)
    ensures
        r@ == p@,
{
    ProfileInfo {
        name: p.name.clone(),
        auto_connect: p.auto_connect,
        port_selector: p.port_selector,
        mode: p.mode.clone(),
        remote_host: p.remote_host.clone(),
        remote_port: p.remote_port,
        guiding: p.guiding,
        remote_guiding_host: p.remote_guiding_host.clone(),
        remote_guiding_port: p.remote_guiding_port,
        use_web_manager: p.use_web_manager,
        mount: p.mount.clone(),
        ccd: p.ccd.clone(),
        guider: p.guider.clone(),
        focuser: p.focuser.clone(),
        filter: p.filter.clone(),
        ao: p.ao.clone(),
        dome: p.dome.clone(),
        weather: p.weather.clone(),
        aux1: p.aux1.clone(),
        aux2: p.aux2.clone(),
        aux3: p.aux3.clone(),
        aux4: p.aux4.clone(),
        remote: p.remote.clone(),
        driver_source: p.driver_source.clone(),
    }
}

/// The profile editor's state: the profile being edited and the name it had
/// (empty when adding a new one).
#[derive(Debug)]
pub struct EditorState {
    pub original_name: String,
    pub profile: ProfileInfo,
}

impl EditorState {
    /// A new profile: local mode, system drivers, everything else empty.
    pub fn new_blank() -> (r: EditorState)
        ensures
            r.original_name@.len() == 0,
            r.profile@ == (ProfileView {
                mode: "local"@,
                driver_source: "system"@,
                ..profile_empty()
            }),
    {
        let mut p = ProfileInfo::default();
        p.mode = String::from_str("local");
        p.driver_source = String::from_str("system");
        EditorState { original_name: String::new(), profile: p }
    }

    /// Editing an existing profile.
    pub fn from_profile(p: &ProfileInfo) -> (r: EditorState)
        ensures
            r.original_name@ == p.name@,
            r.profile@ == p@,
    {
        EditorState { original_name: p.name.clone(), profile: copy_profile(p) }
    }

    /// Whether the editor adds a new profile (rather than changing one).
    pub fn is_new(&self) -> (r: bool)
        ensures
            r == (self.original_name@.len() == 0),
    {
        self.original_name.as_str().is_empty()
    }
}

// ── Observing site ───────────────────────────────────────────────────────────

/// The observer's location as KStars reports it (degrees and metres as sent).
#[derive(Debug)]
pub struct SiteInfo {
    pub name: String,
    pub latitude: JsonNumber,
    pub longitude: JsonNumber,
    pub elevation: JsonNumber,
}

impl SiteInfo {
    /// Reads `{name, latitude, longitude, elevation}`; missing numbers read as `0.0`.
    pub fn from_json(v: &Json) -> (r: SiteInfo)
        ensures
            r.name@ == str_or_empty(*v, "name"@),
            r.latitude == number_or_zero_of(*v, "latitude"@),
            r.longitude == number_or_zero_of(*v, "longitude"@),
            r.elevation == number_or_zero_of(*v, "elevation"@),
    {
        SiteInfo {
            name: get_string(v, "name"),
            latitude: match number_at(v, "latitude") {
                Some(n) => n,
                None => JsonNumber::Float(0),
            },
            longitude: match number_at(v, "longitude") {
                Some(n) => n,
                None => JsonNumber::Float(0),
            },
            elevation: match number_at(v, "elevation") {
                Some(n) => n,
                None => JsonNumber::Float(0),
            },
        }
    }
}

} // verus!
