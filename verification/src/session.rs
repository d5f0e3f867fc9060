//! What the frontend asks KStars for, and when: the requests sent once Ekos
//! is online or the socket connects, the optical train bound to each Ekos
//! module, the periodic refresh, the mount coordinate poll, and the retry of
//! INDI property reads until their data lands. Timers and the socket belong
//! to the caller; these functions decide the messages.

use vstd::prelude::*;

use crate::indi::{get_string, str_or_empty, DustCapParkState, FilterWheelStatusData};
use crate::json::Json;
use crate::status::{
    or_keep, CameraStatus, CameraView, DustCapView, FilterWheelView, FocusStatus, FocusView,
    MountStatus, MountView,
};
use crate::store::{
    camera_base, filter_wheel_base, focus_base, module_train_index, mount_base, store_after_event,
    take_member,
    DeviceStore,
    StoreView,
};
use crate::text::{chars_eq_str, chars_of, json_quote, push_chars, push_json_str, push_str, string_of};

verus! {

// ── The socket ───────────────────────────────────────────────────────────────

/// The address of the hub's WebSocket for a page served with protocol `proto`
/// (such as `https:`) from `host`: `wss:` under HTTPS, `ws:` otherwise.
pub open spec fn socket_url_text(proto: Seq<char>, host: Seq<char>) -> Seq<char> {
    (if proto == "https:"@ {
        "wss:"@
    } else {
        "ws:"@
    }) + "//"@ + host + "/ws"@
}

/// The hub's WebSocket address for the page's protocol and host.
pub fn socket_url(proto: &str, host: &str) -> (r: String)
    ensures
        r@ == socket_url_text(proto@, host@),
{
    let mut out: Vec<char> = Vec::new();
    let pv = chars_of(proto);
    if chars_eq_str(&pv, "https:") {
        push_str(&mut out, "wss:");
    } else {
        push_str(&mut out, "ws:");
    }
    push_str(&mut out, "//");
    let hv = chars_of(host);
    push_chars(&mut out, &hv);
    push_str(&mut out, "/ws");
    string_of(out.as_slice())
}

// ── Message texts ────────────────────────────────────────────────────────────

/// `true` or `false` as JSON.
pub open spec fn json_bool_text(b: bool) -> Seq<char> {
    if b {
        "true"@
    } else {
        "false"@
    }
}

/// A `device_property_get` request (members in key order).
pub open spec fn property_get_text(device: Seq<char>, property: Seq<char>, compact: bool) -> Seq<char> {
    "{\"payload\":{\"compact\":"@ + json_bool_text(compact) + ",\"device\":"@ + json_quote(device)
        + ",\"property\":"@ + json_quote(property) + "},\"type\":\"device_property_get\"}"@
}

/// A `device_property_subscribe` request for one property.
pub open spec fn property_subscribe_text(device: Seq<char>, property: Seq<char>) -> Seq<char> {
    "{\"payload\":{\"device\":"@ + json_quote(device) + ",\"properties\":["@ + json_quote(property)
        + "]},\"type\":\"device_property_subscribe\"}"@
}

/// A `train_set` request binding an Ekos module to a train by name.
pub open spec fn train_set_text(module: Seq<char>, name: Seq<char>) -> Seq<char> {
    "{\"payload\":{\"module\":"@ + json_quote(module) + ",\"name\":"@ + json_quote(name)
        + "},\"type\":\"train_set\"}"@
}

/// Asks a device for one INDI property.
pub fn property_get_msg(device: &str, property: &str, compact: bool) -> (r: String)
    ensures
        r@ == property_get_text(device@, property@, compact),
{
    let mut v: Vec<char> = Vec::new();
    push_str(&mut v, "{\"payload\":{\"compact\":");
    push_str(&mut v, if compact { "true" } else { "false" });
    push_str(&mut v, ",\"device\":");
    push_json_str(&mut v, device);
    push_str(&mut v, ",\"property\":");
    push_json_str(&mut v, property);
    push_str(&mut v, "},\"type\":\"device_property_get\"}");
    assert(v@ =~= property_get_text(device@, property@, compact));
    string_of(v.as_slice())
}

/// Subscribes to pushes of one INDI property.
pub fn property_subscribe_msg(device: &str, property: &str) -> (r: String)
    ensures
        r@ == property_subscribe_text(device@, property@),
{
    let mut v: Vec<char> = Vec::new();
    push_str(&mut v, "{\"payload\":{\"device\":");
    push_json_str(&mut v, device);
    push_str(&mut v, ",\"properties\":[");
    push_json_str(&mut v, property);
    push_str(&mut v, "]},\"type\":\"device_property_subscribe\"}");
    assert(v@ =~= property_subscribe_text(device@, property@));
    string_of(v.as_slice())
}

/// Binds an Ekos module to a train.
pub fn train_set_msg(module: &str, name: &str) -> (r: String)
    ensures
        r@ == train_set_text(module@, name@),
{
    let mut v: Vec<char> = Vec::new();
    push_str(&mut v, "{\"payload\":{\"module\":");
    push_json_str(&mut v, module);
    push_str(&mut v, ",\"name\":");
    push_json_str(&mut v, name);
    push_str(&mut v, "},\"type\":\"train_set\"}");
    assert(v@ =~= train_set_text(module@, name@));
    string_of(v.as_slice())
}

// ── Priming ──────────────────────────────────────────────────────────────────

/// The guiding options of KStars, requested with `option_get`.
pub open spec fn option_get_request() -> Seq<char> {
    "{\"type\":\"option_get\",\"payload\":{\"options\":[{\"name\":\"GuiderType\"},{\"name\":\"PHD2Host\"},{\"name\":\"PHD2Port\"},{\"name\":\"LinGuiderHost\"},{\"name\":\"LinGuiderPort\"}]}}"@
}

/// The requests sent when Ekos comes online: home path, devices, states,
/// scopes, trains and their assignment, every module's settings, scheduler
/// jobs, and the guiding options.
pub open spec fn online_prime_texts() -> Seq<Seq<char>> {
    seq![
        "{\"type\":\"file_default_path\",\"payload\":{\"type\":8}}"@,
        "{\"type\":\"get_devices\",\"payload\":{}}"@,
        "{\"type\":\"get_states\",\"payload\":{}}"@,
        "{\"type\":\"get_scopes\",\"payload\":{}}"@,
        "{\"type\":\"train_get_all\",\"payload\":{}}"@,
        "{\"type\":\"train_get_profiles\",\"payload\":{}}"@,
        "{\"type\":\"focus_get_all_settings\",\"payload\":{}}"@,
        "{\"type\":\"capture_get_all_settings\",\"payload\":{}}"@,
        "{\"type\":\"capture_get_sequences\",\"payload\":{}}"@,
        "{\"type\":\"align_get_all_settings\",\"payload\":{}}"@,
        "{\"type\":\"guide_get_all_settings\",\"payload\":{}}"@,
        "{\"type\":\"mount_get_all_settings\",\"payload\":{}}"@,
        "{\"type\":\"scheduler_get_all_settings\",\"payload\":{}}"@,
        "{\"type\":\"scheduler_get_jobs\",\"payload\":{}}"@,
        "{\"type\":\"livestacker_get_all_settings\",\"payload\":{}}"@,
        option_get_request(),
    ]
}

/// The requests sent whenever the socket connects: profiles and drivers,
/// which KStars serves before Ekos is online.
pub open spec fn connect_prime_texts() -> Seq<Seq<char>> {
    seq!["{\"type\":\"get_profiles\",\"payload\":{}}"@, "{\"type\":\"get_drivers\",\"payload\":{}}"@]
}

/// The texts of a list of strings.
pub open spec fn texts(v: Seq<String>) -> Seq<Seq<char>> {
    Seq::new(v.len(), |i: int| v[i]@)
}

fn push_text(out: &mut Vec<String>, s: &str)
    ensures
        texts(final(out)@) == texts(old(out)@).push(s@),
{
    out.push(String::from_str(s));
    assert(texts(out@) =~= texts(old(out)@).push(s@));
}

/// The requests sent when Ekos comes online.
pub fn online_prime_messages() -> (r: Vec<String>)
    ensures
        texts(r@) == online_prime_texts(),
{
    let mut out: Vec<String> = Vec::new();
    assert(texts(out@) =~= seq![]);
    push_text(&mut out, "{\"type\":\"file_default_path\",\"payload\":{\"type\":8}}");
    push_text(&mut out, "{\"type\":\"get_devices\",\"payload\":{}}");
    push_text(&mut out, "{\"type\":\"get_states\",\"payload\":{}}");
    push_text(&mut out, "{\"type\":\"get_scopes\",\"payload\":{}}");
    push_text(&mut out, "{\"type\":\"train_get_all\",\"payload\":{}}");
    push_text(&mut out, "{\"type\":\"train_get_profiles\",\"payload\":{}}");
    push_text(&mut out, "{\"type\":\"focus_get_all_settings\",\"payload\":{}}");
    push_text(&mut out, "{\"type\":\"capture_get_all_settings\",\"payload\":{}}");
    push_text(&mut out, "{\"type\":\"capture_get_sequences\",\"payload\":{}}");
    push_text(&mut out, "{\"type\":\"align_get_all_settings\",\"payload\":{}}");
    push_text(&mut out, "{\"type\":\"guide_get_all_settings\",\"payload\":{}}");
    push_text(&mut out, "{\"type\":\"mount_get_all_settings\",\"payload\":{}}");
    push_text(&mut out, "{\"type\":\"scheduler_get_all_settings\",\"payload\":{}}");
    push_text(&mut out, "{\"type\":\"scheduler_get_jobs\",\"payload\":{}}");
    push_text(&mut out, "{\"type\":\"livestacker_get_all_settings\",\"payload\":{}}");
    push_text(
        &mut out,
        "{\"type\":\"option_get\",\"payload\":{\"options\":[{\"name\":\"GuiderType\"},{\"name\":\"PHD2Host\"},{\"name\":\"PHD2Port\"},{\"name\":\"LinGuiderHost\"},{\"name\":\"LinGuiderPort\"}]}}",
    );
    assert(texts(out@) =~= online_prime_texts());
    out
}

/// The requests sent whenever the socket connects.
pub fn connect_prime_messages() -> (r: Vec<String>)
    ensures
        texts(r@) == connect_prime_texts(),
{
    let mut out: Vec<String> = Vec::new();
    assert(texts(out@) =~= seq![]);
    push_text(&mut out, "{\"type\":\"get_profiles\",\"payload\":{}}");
    push_text(&mut out, "{\"type\":\"get_drivers\",\"payload\":{}}");
    assert(texts(out@) =~= connect_prime_texts());
    out
}

// ── Binding modules to trains ────────────────────────────────────────────────

/// The name of the train the Ekos module `key` uses (see [`module_train_index`]).
pub open spec fn bound_train_name(s: StoreView, key: Seq<char>) -> Seq<char> {
    match module_train_index(s, key) {
        Some(i) => s.optical_trains[i].name,
        None => seq![],
    }
}

/// Whether the trains and the saved per-module assignment have arrived, so
/// that modules can be bound without overwriting the user's choices.
pub open spec fn bindings_ready(s: StoreView) -> bool {
    &&& s.optical_trains.len() > 0
    &&& s.optical_trains[0].name.len() > 0
    &&& s.module_trains matches crate::json::Json::Object(m) && m@.len() > 0
}

/// The bindings in one line: `capture=<name>;focus=…;mount=…;guide=…;align=…`.
pub open spec fn binding_signature(s: StoreView) -> Seq<char> {
    "capture="@ + bound_train_name(s, "1"@) + ";focus="@ + bound_train_name(s, "2"@) + ";mount="@
        + bound_train_name(s, "3"@) + ";guide="@ + bound_train_name(s, "4"@) + ";align="@
        + bound_train_name(s, "5"@)
}

/// The `train_set` requests for every module, in order capture, focus,
/// mount, guide, align.
pub open spec fn binding_texts(s: StoreView) -> Seq<Seq<char>> {
    seq![
        train_set_text("capture"@, bound_train_name(s, "1"@)),
        train_set_text("focus"@, bound_train_name(s, "2"@)),
        train_set_text("mount"@, bound_train_name(s, "3"@)),
        train_set_text("guide"@, bound_train_name(s, "4"@)),
        train_set_text("align"@, bound_train_name(s, "5"@)),
    ]
}

fn train_name_for(store: &DeviceStore, key: &str) -> (r: String)
    ensures
        r@ == bound_train_name(store@, key@),
{
    match store.module_train_untracked(key) {
        Some(t) => t.name,
        None => String::new(),
    }
}

/// Binds each Ekos module to its saved train, once the trains and the
/// assignment are known, and only when a binding changed since the last
/// signature sent: gives the new signature and the `train_set` requests.
pub fn train_binding_messages(store: &DeviceStore, last_signature: &str) -> (r: Option<(String, Vec<String>)>)
    ensures
        match r {
            Some((sig, msgs)) => bindings_ready(store@) && sig@ == binding_signature(store@)
                && sig@ != last_signature@ && texts(msgs@) == binding_texts(store@),
            None => !bindings_ready(store@) || binding_signature(store@) == last_signature@,
        },
{
    if store.optical_trains.len() == 0 {
        return None;
    }
    assert(store@.optical_trains[0] == store.optical_trains@[0]@);
    if store.optical_trains[0].name.as_str().is_empty() {
        return None;
    }
    let assigned = match &store.module_trains {
        crate::json::Json::Object(m) => m.len() > 0,
        _ => false,
    };
    if !assigned {
        return None;
    }
    let capture = train_name_for(store, "1");
    let focus = train_name_for(store, "2");
    let mount = train_name_for(store, "3");
    let guide = train_name_for(store, "4");
    let align = train_name_for(store, "5");
    let mut v: Vec<char> = Vec::new();
    push_str(&mut v, "capture=");
    push_str(&mut v, capture.as_str());
    push_str(&mut v, ";focus=");
    push_str(&mut v, focus.as_str());
    push_str(&mut v, ";mount=");
    push_str(&mut v, mount.as_str());
    push_str(&mut v, ";guide=");
    push_str(&mut v, guide.as_str());
    push_str(&mut v, ";align=");
    push_str(&mut v, align.as_str());
    assert(v@ =~= binding_signature(store@));
    let sig = string_of(v.as_slice());
    if crate::status::str_is(sig.as_str(), last_signature) {
        return None;
    }
    let mut msgs: Vec<String> = Vec::new();
    assert(texts(msgs@) =~= seq![]);
    msgs.push(train_set_msg("capture", capture.as_str()));
    msgs.push(train_set_msg("focus", focus.as_str()));
    msgs.push(train_set_msg("mount", mount.as_str()));
    msgs.push(train_set_msg("guide", guide.as_str()));
    msgs.push(train_set_msg("align", align.as_str()));
    assert(texts(msgs@) =~= binding_texts(store@));
    Some((sig, msgs))
}

// ── Periodic refresh ─────────────────────────────────────────────────────────

/// Whether a train slot names a device (`"--"` is the empty placeholder).
pub open spec fn slot_set(v: Seq<char>) -> bool {
    v.len() > 0 && v != "--"@
}

/// The module-level requests of every refresh tick.
pub open spec fn module_refresh_texts() -> Seq<Seq<char>> {
    seq![
        "{\"type\":\"get_devices\",\"payload\":{}}"@,
        "{\"type\":\"get_states\",\"payload\":{}}"@,
        "{\"type\":\"get_scopes\",\"payload\":{}}"@,
        "{\"type\":\"train_get_all\",\"payload\":{}}"@,
        "{\"type\":\"train_get_profiles\",\"payload\":{}}"@,
        "{\"type\":\"capture_get_all_settings\",\"payload\":{}}"@,
        "{\"type\":\"capture_get_sequences\",\"payload\":{}}"@,
        "{\"type\":\"focus_get_all_settings\",\"payload\":{}}"@,
        "{\"type\":\"align_get_all_settings\",\"payload\":{}}"@,
        "{\"type\":\"guide_get_all_settings\",\"payload\":{}}"@,
        "{\"type\":\"scheduler_get_all_settings\",\"payload\":{}}"@,
        "{\"type\":\"scheduler_get_jobs\",\"payload\":{}}"@,
        option_get_request(),
    ]
}

/// The camera properties of a refresh tick: status ones compact, option
/// lists with labels.
pub open spec fn camera_refresh_texts(cam: Seq<char>) -> Seq<Seq<char>> {
    seq![
        property_get_text(cam, "CCD_INFO"@, true),
        property_get_text(cam, "CCD_TEMPERATURE"@, true),
        property_get_text(cam, "CCD_COOLER"@, true),
        property_get_text(cam, "CCD_CAPTURE_FORMAT"@, false),
        property_get_text(cam, "CCD_TRANSFER_FORMAT"@, false),
        property_get_text(cam, "CCD_FRAME_TYPE"@, false),
        property_get_text(cam, "CCD_ISO"@, false),
    ]
}

/// The filter wheel properties of a refresh tick.
pub open spec fn filter_refresh_texts(fw: Seq<char>) -> Seq<Seq<char>> {
    seq![property_get_text(fw, "FILTER_NAME"@, false), property_get_text(fw, "FILTER_SLOT"@, true)]
}

/// The focuser properties of a refresh tick.
pub open spec fn focuser_refresh_texts(f: Seq<char>) -> Seq<Seq<char>> {
    seq![
        property_get_text(f, "ABS_FOCUS_POSITION"@, true),
        property_get_text(f, "FOCUS_TEMPERATURE"@, true),
    ]
}

/// The dust cap properties of a refresh tick.
pub open spec fn cap_refresh_texts(cap: Option<DustCapView>) -> Seq<Seq<char>> {
    match cap {
        Some(c) => if c.device.len() > 0 {
            seq![property_get_text(c.device, "CAP_PARK"@, true)] + if c.has_light_panel {
                seq![
                    property_get_text(c.device, "FLAT_LIGHT_CONTROL"@, true),
                    property_get_text(c.device, "FLAT_LIGHT_INTENSITY"@, true),
                ]
            } else {
                seq![]
            }
        } else {
            seq![]
        },
        None => seq![],
    }
}

/// One refresh tick: nothing while Ekos is offline or no train is known;
/// otherwise the module requests, then the first train's camera, filter
/// wheel and focuser properties (for the slots that are set), then the dust
/// cap's. The mount's coordinates have their own poll.
pub open spec fn refresh_texts(s: StoreView) -> Seq<Seq<char>> {
    if !s.online || s.optical_trains.len() == 0 {
        seq![]
    } else {
        let t = s.optical_trains[0];
        module_refresh_texts() + (if slot_set(t.camera) {
            camera_refresh_texts(t.camera)
        } else {
            seq![]
        }) + (if slot_set(t.filterwheel) {
            filter_refresh_texts(t.filterwheel)
        } else {
            seq![]
        }) + (if slot_set(t.focuser) {
            focuser_refresh_texts(t.focuser)
        } else {
            seq![]
        }) + cap_refresh_texts(s.dustcap_status)
    }
}

fn push_msg(out: &mut Vec<String>, m: String)
    ensures
        texts(final(out)@) == texts(old(out)@).push(m@),
{
    let ghost mv = m@;
    out.push(m);
    assert(texts(out@) =~= texts(old(out)@).push(mv));
}

fn is_slot_set(v: &str) -> (r: bool)
    ensures
        r == slot_set(v@),
{
    !v.is_empty() && !crate::status::str_is(v, "--")
}

/// The requests of one refresh tick.
pub fn refresh_requests(store: &DeviceStore) -> (r: Vec<String>)
    ensures
        texts(r@) == refresh_texts(store@),
{
    let mut out: Vec<String> = Vec::new();
    assert(texts(out@) =~= seq![]);
    if !store.online || store.optical_trains.len() == 0 {
        return out;
    }
    let t = &store.optical_trains[0];
    assert(store@.optical_trains[0] == t@);
    push_text(&mut out, "{\"type\":\"get_devices\",\"payload\":{}}");
    push_text(&mut out, "{\"type\":\"get_states\",\"payload\":{}}");
    push_text(&mut out, "{\"type\":\"get_scopes\",\"payload\":{}}");
    push_text(&mut out, "{\"type\":\"train_get_all\",\"payload\":{}}");
    push_text(&mut out, "{\"type\":\"train_get_profiles\",\"payload\":{}}");
    push_text(&mut out, "{\"type\":\"capture_get_all_settings\",\"payload\":{}}");
    push_text(&mut out, "{\"type\":\"capture_get_sequences\",\"payload\":{}}");
    push_text(&mut out, "{\"type\":\"focus_get_all_settings\",\"payload\":{}}");
    push_text(&mut out, "{\"type\":\"align_get_all_settings\",\"payload\":{}}");
    push_text(&mut out, "{\"type\":\"guide_get_all_settings\",\"payload\":{}}");
    push_text(&mut out, "{\"type\":\"scheduler_get_all_settings\",\"payload\":{}}");
    push_text(&mut out, "{\"type\":\"scheduler_get_jobs\",\"payload\":{}}");
    push_text(
        &mut out,
        "{\"type\":\"option_get\",\"payload\":{\"options\":[{\"name\":\"GuiderType\"},{\"name\":\"PHD2Host\"},{\"name\":\"PHD2Port\"},{\"name\":\"LinGuiderHost\"},{\"name\":\"LinGuiderPort\"}]}}",
    );
    let ghost a = texts(out@);
    assert(a =~= module_refresh_texts());
    if is_slot_set(t.camera.as_str()) {
        let c = t.camera.as_str();
        push_msg(&mut out, property_get_msg(c, "CCD_INFO", true));
        push_msg(&mut out, property_get_msg(c, "CCD_TEMPERATURE", true));
        push_msg(&mut out, property_get_msg(c, "CCD_COOLER", true));
        push_msg(&mut out, property_get_msg(c, "CCD_CAPTURE_FORMAT", false));
        push_msg(&mut out, property_get_msg(c, "CCD_TRANSFER_FORMAT", false));
        push_msg(&mut out, property_get_msg(c, "CCD_FRAME_TYPE", false));
        push_msg(&mut out, property_get_msg(c, "CCD_ISO", false));
        assert(texts(out@) =~= a + camera_refresh_texts(t.camera@));
    } else {
        assert(texts(out@) =~= a + Seq::<Seq<char>>::empty());
    }
    let ghost b = texts(out@);
    if is_slot_set(t.filterwheel.as_str()) {
        push_msg(&mut out, property_get_msg(t.filterwheel.as_str(), "FILTER_NAME", false));
        push_msg(&mut out, property_get_msg(t.filterwheel.as_str(), "FILTER_SLOT", true));
        assert(texts(out@) =~= b + filter_refresh_texts(t.filterwheel@));
    } else {
        assert(texts(out@) =~= b + Seq::<Seq<char>>::empty());
    }
    let ghost c0 = texts(out@);
    if is_slot_set(t.focuser.as_str()) {
        push_msg(&mut out, property_get_msg(t.focuser.as_str(), "ABS_FOCUS_POSITION", true));
        push_msg(&mut out, property_get_msg(t.focuser.as_str(), "FOCUS_TEMPERATURE", true));
        assert(texts(out@) =~= c0 + focuser_refresh_texts(t.focuser@));
    } else {
        assert(texts(out@) =~= c0 + Seq::<Seq<char>>::empty());
    }
    let ghost d = texts(out@);
    match &store.dustcap_status {
        Some(cap) => {
            if !cap.device.as_str().is_empty() {
                let dev = cap.device.as_str();
                push_msg(&mut out, property_get_msg(dev, "CAP_PARK", true));
                if cap.has_light_panel {
                    push_msg(&mut out, property_get_msg(dev, "FLAT_LIGHT_CONTROL", true));
                    push_msg(&mut out, property_get_msg(dev, "FLAT_LIGHT_INTENSITY", true));
                }
            }
            assert(texts(out@) =~= d + cap_refresh_texts(store@.dustcap_status));
        },
        None => {
            assert(texts(out@) =~= d + Seq::<Seq<char>>::empty());
        },
    }
    out
}

// ── Mount coordinates ────────────────────────────────────────────────────────

/// The mount whose coordinates are polled: the first train's mount, else
/// the mount device learned from status pushes; either only when set.
pub open spec fn coord_mount(s: StoreView) -> Option<Seq<char>> {
    if s.optical_trains.len() > 0 && slot_set(s.optical_trains[0].mount) {
        Some(s.optical_trains[0].mount)
    } else {
        match s.mount_status {
            Some(m) => if slot_set(m.device) {
                Some(m.device)
            } else {
                None
            },
            None => None,
        }
    }
}

/// One coordinate poll (every 1.5 s): nothing while offline or with no
/// mount; else a read of `EQUATORIAL_EOD_COORD`, with a fresh subscription
/// every eighth tick.
pub open spec fn coord_texts(s: StoreView, tick: u32) -> Seq<Seq<char>> {
    if !s.online {
        seq![]
    } else {
        match coord_mount(s) {
            Some(d) => seq![property_get_text(d, "EQUATORIAL_EOD_COORD"@, true)] + if tick % 8 == 0 {
                seq![property_subscribe_text(d, "EQUATORIAL_EOD_COORD"@)]
            } else {
                seq![]
            },
            None => seq![],
        }
    }
}

/// The requests of one coordinate poll.
pub fn mount_coord_requests(store: &DeviceStore, tick: u32) -> (r: Vec<String>)
    ensures
        texts(r@) == coord_texts(store@, tick),
{
    let mut out: Vec<String> = Vec::new();
    assert(texts(out@) =~= seq![]);
    if !store.online {
        return out;
    }
    let device: Option<&str> = if store.optical_trains.len() > 0 && is_slot_set(
        store.optical_trains[0].mount.as_str(),
    ) {
        assert(store@.optical_trains[0] == store.optical_trains@[0]@);
        Some(store.optical_trains[0].mount.as_str())
    } else {
        proof {
            if store.optical_trains@.len() > 0 {
                assert(store@.optical_trains[0] == store.optical_trains@[0]@);
            }
        }
        match &store.mount_status {
            Some(m) => if is_slot_set(m.device.as_str()) {
                Some(m.device.as_str())
            } else {
                None
            },
            None => None,
        }
    };
    if let Some(d) = device {
        push_msg(&mut out, property_get_msg(d, "EQUATORIAL_EOD_COORD", true));
        if tick % 8 == 0 {
            push_msg(&mut out, property_subscribe_msg(d, "EQUATORIAL_EOD_COORD"));
        }
    }
    out
}

// ── Retrying property reads ──────────────────────────────────────────────────

/// How many one-second retries a property read gets.
pub const RETRY_ATTEMPTS: u32 = 60;

/// What to do after the wait of retry `attempt` (counting from 0).
#[derive(Clone, Copy, Debug, PartialEq, Eq)]
pub enum RetryStep {
    /// The data has landed: stop.
    Done,
    /// Send the subscription and the read again.
    Resend,
    /// The last attempt passed without data: give up.
    GiveUp,
}

/// After each one-second wait: stop once the data has landed; otherwise
/// resend, and give up after the last attempt.
pub fn retry_step(attempt: u32, landed: bool) -> (r: RetryStep)
    ensures
        landed ==> r == RetryStep::Done,
        !landed && attempt + 1 < RETRY_ATTEMPTS ==> r == RetryStep::Resend,
        !landed && attempt + 1 >= RETRY_ATTEMPTS ==> r == RetryStep::GiveUp,
{
    if landed {
        RetryStep::Done
    } else if attempt < RETRY_ATTEMPTS - 1 {
        RetryStep::Resend
    } else {
        RetryStep::GiveUp
    }
}

/// The subscription and the read a retry sends.
pub fn retry_messages(device: &str, property: &str, compact: bool) -> (r: (String, String))
    ensures
        r.0@ == property_subscribe_text(device@, property@),
        r.1@ == property_get_text(device@, property@, compact),
{
    (property_subscribe_msg(device, property), property_get_msg(device, property, compact))
}

/// The properties retried when a dust cap appears (a new device name):
/// `CAP_PARK`, and the light box's two when it has one.
pub open spec fn cap_retry_properties(cap: DustCapView, last: Seq<char>) -> Seq<Seq<char>> {
    if cap.device.len() == 0 || cap.device == last {
        seq![]
    } else if cap.has_light_panel {
        seq!["CAP_PARK"@, "FLAT_LIGHT_CONTROL"@, "FLAT_LIGHT_INTENSITY"@]
    } else {
        seq!["CAP_PARK"@]
    }
}

/// The dust cap properties to start retrying, given the cap device already handled.
pub fn cap_retries(store: &DeviceStore, last: &str) -> (r: Vec<String>)
    ensures
        match store@.dustcap_status {
            Some(c) => texts(r@) == cap_retry_properties(c, last@),
            None => r@.len() == 0,
        },
{
    let mut out: Vec<String> = Vec::new();
    assert(texts(out@) =~= seq![]);
    if let Some(cap) = &store.dustcap_status {
        if !cap.device.as_str().is_empty() && !crate::status::str_is(cap.device.as_str(), last) {
            push_text(&mut out, "CAP_PARK");
            if cap.has_light_panel {
                push_text(&mut out, "FLAT_LIGHT_CONTROL");
                push_text(&mut out, "FLAT_LIGHT_INTENSITY");
            }
        }
    }
    out
}

/// Whether the data of a device property read has landed in the store: the
/// camera's sensor width, temperature, cooler state or option list; the
/// filter wheel's names or current slot; the mount's RA; the focuser's
/// position or temperature. Other properties never land here.
pub open spec fn read_has_landed(s: StoreView, property: Seq<char>) -> bool {
    if property == "CCD_INFO"@ {
        s.camera_status matches Some(c) && c.sensor_width is Some
    } else if property == "CCD_TEMPERATURE"@ {
        s.camera_status matches Some(c) && c.temperature is Some
    } else if property == "CCD_COOLER"@ {
        s.camera_status matches Some(c) && c.cooler_on is Some
    } else if property == "CCD_CAPTURE_FORMAT"@ {
        s.camera_status matches Some(c) && c.capture_format_options.len() > 0
    } else if property == "CCD_TRANSFER_FORMAT"@ {
        s.camera_status matches Some(c) && c.transfer_format_options.len() > 0
    } else if property == "CCD_FRAME_TYPE"@ {
        s.camera_status matches Some(c) && c.frame_type_options.len() > 0
    } else if property == "CCD_ISO"@ {
        s.camera_status matches Some(c) && c.iso_options.len() > 0
    } else if property == "FILTER_NAME"@ {
        s.filter_wheel_status matches Some(f) && f.filter_names.len() > 0
    } else if property == "FILTER_SLOT"@ {
        s.filter_wheel_status matches Some(f) && f.current_slot is Some
    } else if property == "EQUATORIAL_EOD_COORD"@ {
        s.mount_status matches Some(m) && m.ra is Some
    } else if property == "ABS_FOCUS_POSITION"@ {
        s.focus_status matches Some(f) && f.position is Some
    } else if property == "FOCUS_TEMPERATURE"@ {
        s.focus_status matches Some(f) && f.temperature is Some
    } else {
        false
    }
}

/// Whether the data of a device property read has landed in the store.
pub fn read_landed(store: &DeviceStore, property: &str) -> (r: bool)
    ensures
        r == read_has_landed(store@, property@),
{
    let is = |x: &str| -> (b: bool)
        ensures
            b == (property@ == x@),
        { crate::status::str_is(property, x) };
    if is("CCD_INFO") {
        match &store.camera_status {
            Some(c) => c.sensor_width.is_some(),
            None => false,
        }
    } else if is("CCD_TEMPERATURE") {
        match &store.camera_status {
            Some(c) => c.temperature.is_some(),
            None => false,
        }
    } else if is("CCD_COOLER") {
        match &store.camera_status {
            Some(c) => c.cooler_on.is_some(),
            None => false,
        }
    } else if is("CCD_CAPTURE_FORMAT") {
        match &store.camera_status {
            Some(c) => c.capture_format_options.len() > 0,
            None => false,
        }
    } else if is("CCD_TRANSFER_FORMAT") {
        match &store.camera_status {
            Some(c) => c.transfer_format_options.len() > 0,
            None => false,
        }
    } else if is("CCD_FRAME_TYPE") {
        match &store.camera_status {
            Some(c) => c.frame_type_options.len() > 0,
            None => false,
        }
    } else if is("CCD_ISO") {
        match &store.camera_status {
            Some(c) => c.iso_options.len() > 0,
            None => false,
        }
    } else if is("FILTER_NAME") {
        match &store.filter_wheel_status {
            Some(f) => f.filter_names.len() > 0,
            None => false,
        }
    } else if is("FILTER_SLOT") {
        match &store.filter_wheel_status {
            Some(f) => f.current_slot.is_some(),
            None => false,
        }
    } else if is("EQUATORIAL_EOD_COORD") {
        match &store.mount_status {
            Some(m) => m.ra.is_some(),
            None => false,
        }
    } else if is("ABS_FOCUS_POSITION") {
        match &store.focus_status {
            Some(f) => f.position.is_some(),
            None => false,
        }
    } else if is("FOCUS_TEMPERATURE") {
        match &store.focus_status {
            Some(f) => f.temperature.is_some(),
            None => false,
        }
    } else {
        false
    }
}

/// Whether a dust cap property's data has landed: a known park state, a
/// light state, a brightness.
pub fn cap_property_landed(store: &DeviceStore, property: &str) -> (r: bool)
    ensures
        r == (match store@.dustcap_status {
            Some(c) => if property@ == "CAP_PARK"@ {
                c.park_state != DustCapParkState::Unknown
            } else if property@ == "FLAT_LIGHT_CONTROL"@ {
                c.light_on is Some
            } else if property@ == "FLAT_LIGHT_INTENSITY"@ {
                c.brightness is Some
            } else {
                false
            },
            None => false,
        }),
{
    match &store.dustcap_status {
        Some(c) => {
            if crate::status::str_is(property, "CAP_PARK") {
                match c.park_state {
                    DustCapParkState::Unknown => false,
                    _ => true,
                }
            } else if crate::status::str_is(property, "FLAT_LIGHT_CONTROL") {
                c.light_on.is_some()
            } else if crate::status::str_is(property, "FLAT_LIGHT_INTENSITY") {
                c.brightness.is_some()
            } else {
                false
            }
        },
        None => false,
    }
}

// ── Watching the trains' devices ────────────────────────────────────────────

/// The devices whose property reads have been started, by role.
#[derive(Clone, Debug)]
pub struct WatchedDevices {
    pub camera: String,
    pub filterwheel: String,
    pub mount: String,
    pub focuser: String,
    pub guider: String,
}

/// The contents of [`WatchedDevices`].
pub struct WatchView {
    pub camera: Seq<char>,
    pub filterwheel: Seq<char>,
    pub mount: Seq<char>,
    pub focuser: Seq<char>,
    pub guider: Seq<char>,
}

impl View for WatchedDevices {
    type V = WatchView;

    open spec fn view(&self) -> WatchView {
        WatchView {
            camera: self.camera@,
            filterwheel: self.filterwheel@,
            mount: self.mount@,
            focuser: self.focuser@,
            guider: self.guider@,
        }
    }
}

impl WatchedDevices {
    /// Nothing watched yet.
    pub fn new() -> (r: WatchedDevices)
        ensures
            r@.camera.len() == 0 && r@.filterwheel.len() == 0 && r@.mount.len() == 0
                && r@.focuser.len() == 0 && r@.guider.len() == 0,
    {
        WatchedDevices {
            camera: String::new(),
            filterwheel: String::new(),
            mount: String::new(),
            focuser: String::new(),
            guider: String::new(),
        }
    }
}

/// An INDI property read to retry until its data lands.
#[derive(Clone, Debug)]
pub struct PropertyRead {
    pub device: String,
    pub property: String,
    /// `false` asks for element labels too.
    pub compact: bool,
}

/// The contents of a [`PropertyRead`].
pub struct ReadView {
    pub device: Seq<char>,
    pub property: Seq<char>,
    pub compact: bool,
}

impl View for PropertyRead {
    type V = ReadView;

    open spec fn view(&self) -> ReadView {
        ReadView { device: self.device@, property: self.property@, compact: self.compact }
    }
}

/// The views of a list of reads.
pub open spec fn reads_view(v: Seq<PropertyRead>) -> Seq<ReadView> {
    Seq::new(v.len(), |i: int| v[i]@)
}

/// A read of `property` on `device`.
pub open spec fn read(device: Seq<char>, property: Seq<char>, compact: bool) -> ReadView {
    ReadView { device, property, compact }
}

/// The train the Ekos module `key` uses.
pub open spec fn module_train(s: StoreView, key: Seq<char>) -> Option<crate::rig::TrainView> {
    match module_train_index(s, key) {
        Some(i) => Some(s.optical_trains[i]),
        None => None,
    }
}

/// A device slot that is set and differs from the one already watched.
pub open spec fn fresh_device(d: Option<Seq<char>>, last: Seq<char>) -> Option<Seq<char>> {
    match d {
        Some(x) => if slot_set(x) && x != last {
            Some(x)
        } else {
            None
        },
        None => None,
    }
}

/// The camera of the capture train (module 1).
pub open spec fn capture_camera(s: StoreView) -> Option<Seq<char>> {
    match module_train(s, "1"@) {
        Some(t) => Some(t.camera),
        None => None,
    }
}

/// The filter wheel of the capture train (module 1).
pub open spec fn capture_filterwheel(s: StoreView) -> Option<Seq<char>> {
    match module_train(s, "1"@) {
        Some(t) => Some(t.filterwheel),
        None => None,
    }
}

/// The mount of the mount train (module 3).
pub open spec fn mount_device(s: StoreView) -> Option<Seq<char>> {
    match module_train(s, "3"@) {
        Some(t) => Some(t.mount),
        None => None,
    }
}

/// The focuser of the focus train (module 2).
pub open spec fn focuser_device(s: StoreView) -> Option<Seq<char>> {
    match module_train(s, "2"@) {
        Some(t) => Some(t.focuser),
        None => None,
    }
}

/// The guide camera of the guide train (module 4).
pub open spec fn guider_device(s: StoreView) -> Option<Seq<char>> {
    match module_train(s, "4"@) {
        Some(t) => Some(t.guider),
        None => None,
    }
}

/// The camera reads: status properties compact, option lists with labels.
pub open spec fn camera_reads(d: Seq<char>) -> Seq<ReadView> {
    seq![
        read(d, "CCD_INFO"@, true),
        read(d, "CCD_TEMPERATURE"@, true),
        read(d, "CCD_COOLER"@, true),
        read(d, "CCD_CAPTURE_FORMAT"@, false),
        read(d, "CCD_TRANSFER_FORMAT"@, false),
        read(d, "CCD_FRAME_TYPE"@, false),
        read(d, "CCD_ISO"@, false),
    ]
}

/// The reads to start for the devices that are new since `w`: the capture
/// train's camera and filter wheel, the mount train's mount, the focus
/// train's focuser (the guide camera is only named, never read).
pub open spec fn watch_reads(s: StoreView, w: WatchView) -> Seq<ReadView> {
    (match fresh_device(capture_camera(s), w.camera) {
        Some(d) => camera_reads(d),
        None => seq![],
    }) + (match fresh_device(capture_filterwheel(s), w.filterwheel) {
        Some(d) => seq![read(d, "FILTER_NAME"@, false), read(d, "FILTER_SLOT"@, true)],
        None => seq![],
    }) + (match fresh_device(mount_device(s), w.mount) {
        Some(d) => seq![read(d, "EQUATORIAL_EOD_COORD"@, true)],
        None => seq![],
    }) + (match fresh_device(focuser_device(s), w.focuser) {
        Some(d) => seq![read(d, "ABS_FOCUS_POSITION"@, true), read(d, "FOCUS_TEMPERATURE"@, true)],
        None => seq![],
    })
}

/// The watched devices afterwards: each new device replaces its role's entry.
pub open spec fn watch_after(s: StoreView, w: WatchView) -> WatchView {
    WatchView {
        camera: or_keep(fresh_device(capture_camera(s), w.camera), w.camera),
        filterwheel: or_keep(fresh_device(capture_filterwheel(s), w.filterwheel), w.filterwheel),
        mount: or_keep(fresh_device(mount_device(s), w.mount), w.mount),
        focuser: or_keep(fresh_device(focuser_device(s), w.focuser), w.focuser),
        guider: or_keep(fresh_device(guider_device(s), w.guider), w.guider),
    }
}

/// The store with a new camera, filter wheel, mount and focuser (each when
/// there is one) named in their statuses.
pub open spec fn seeded(
    s: StoreView,
    cam: Option<Seq<char>>,
    fw: Option<Seq<char>>,
    mnt: Option<Seq<char>>,
    foc: Option<Seq<char>>,
) -> StoreView {
    let s1 = match cam {
        Some(d) => StoreView {
            camera_status: Some(CameraView { device: d, ..camera_base(s) }),
            ..s
        },
        None => s,
    };
    let s2 = match fw {
        Some(d) => StoreView {
            filter_wheel_status: Some(FilterWheelView { device: d, ..filter_wheel_base(s1) }),
            ..s1
        },
        None => s1,
    };
    let s3 = match mnt {
        Some(d) => StoreView { mount_status: Some(MountView { device: d, ..mount_base(s2) }), ..s2 },
        None => s2,
    };
    match foc {
        Some(d) => StoreView { focus_status: Some(FocusView { device: d, ..focus_base(s3) }), ..s3 },
        None => s3,
    }
}

/// The store afterwards: a new camera, filter wheel, mount or focuser is
/// named in its status before its properties arrive.
pub open spec fn store_after_watch(s: StoreView, w: WatchView) -> StoreView {
    seeded(
        s,
        fresh_device(capture_camera(s), w.camera),
        fresh_device(capture_filterwheel(s), w.filterwheel),
        fresh_device(mount_device(s), w.mount),
        fresh_device(focuser_device(s), w.focuser),
    )
}

fn device_of_train(store: &DeviceStore, key: &str, role: u8) -> (r: Option<String>)
    requires
        role < 5,
    ensures
        match module_train(store@, key@) {
            Some(t) => r matches Some(x) && x@ == (if role == 0 {
                t.camera
            } else if role == 1 {
                t.filterwheel
            } else if role == 2 {
                t.mount
            } else if role == 3 {
                t.focuser
            } else {
                t.guider
            }),
            None => r is None,
        },
{
    match store.module_train_untracked(key) {
        Some(t) => Some(
            if role == 0 {
                t.camera
            } else if role == 1 {
                t.filterwheel
            } else if role == 2 {
                t.mount
            } else if role == 3 {
                t.focuser
            } else {
                t.guider
            },
        ),
        None => None,
    }
}

fn fresh(d: &Option<String>, last: &String) -> (r: Option<String>)
    ensures
        match fresh_device(
            match d {
                Some(x) => Some(x@),
                None => None,
            },
            last@,
        ) {
            Some(x) => r matches Some(y) && y@ == x,
            None => r is None,
        },
{
    match d {
        Some(x) => if is_slot_set(x.as_str()) && !crate::status::str_is(x.as_str(), last.as_str()) {
            Some(x.clone())
        } else {
            None
        },
        None => None,
    }
}

fn push_read(out: &mut Vec<PropertyRead>, device: &str, property: &str, compact: bool)
    ensures
        reads_view(final(out)@) == reads_view(old(out)@).push(read(device@, property@, compact)),
{
    out.push(PropertyRead { device: String::from_str(device), property: String::from_str(property), compact });
    assert(reads_view(out@) =~= reads_view(old(out)@).push(read(device@, property@, compact)));
}

/// The characters of an optional string.
pub open spec fn opt_text(o: Option<String>) -> Option<Seq<char>> {
    match o {
        Some(x) => Some(x@),
        None => None,
    }
}

fn build_reads(
    cam: &Option<String>,
    fw: &Option<String>,
    mnt: &Option<String>,
    foc: &Option<String>,
) -> (r: Vec<PropertyRead>)
    ensures
        reads_view(r@) == (match opt_text(*cam) {
            Some(d) => camera_reads(d),
            None => seq![],
        }) + (match opt_text(*fw) {
            Some(d) => seq![read(d, "FILTER_NAME"@, false), read(d, "FILTER_SLOT"@, true)],
            None => seq![],
        }) + (match opt_text(*mnt) {
            Some(d) => seq![read(d, "EQUATORIAL_EOD_COORD"@, true)],
            None => seq![],
        }) + (match opt_text(*foc) {
            Some(d) => seq![read(d, "ABS_FOCUS_POSITION"@, true), read(d, "FOCUS_TEMPERATURE"@, true)],
            None => seq![],
        }),
{
    let mut out: Vec<PropertyRead> = Vec::new();
    assert(reads_view(out@) =~= seq![]);
    if let Some(d) = cam {
        push_read(&mut out, d.as_str(), "CCD_INFO", true);
        push_read(&mut out, d.as_str(), "CCD_TEMPERATURE", true);
        push_read(&mut out, d.as_str(), "CCD_COOLER", true);
        push_read(&mut out, d.as_str(), "CCD_CAPTURE_FORMAT", false);
        push_read(&mut out, d.as_str(), "CCD_TRANSFER_FORMAT", false);
        push_read(&mut out, d.as_str(), "CCD_FRAME_TYPE", false);
        push_read(&mut out, d.as_str(), "CCD_ISO", false);
    }
    let ghost r1 = reads_view(out@);
    assert(r1 =~= match opt_text(*cam) {
        Some(d) => camera_reads(d),
        None => seq![],
    });
    if let Some(d) = fw {
        push_read(&mut out, d.as_str(), "FILTER_NAME", false);
        push_read(&mut out, d.as_str(), "FILTER_SLOT", true);
    }
    let ghost r2 = reads_view(out@);
    assert(r2 =~= r1 + match opt_text(*fw) {
        Some(d) => seq![read(d, "FILTER_NAME"@, false), read(d, "FILTER_SLOT"@, true)],
        None => seq![],
    });
    if let Some(d) = mnt {
        push_read(&mut out, d.as_str(), "EQUATORIAL_EOD_COORD", true);
    }
    let ghost r3 = reads_view(out@);
    assert(r3 =~= r2 + match opt_text(*mnt) {
        Some(d) => seq![read(d, "EQUATORIAL_EOD_COORD"@, true)],
        None => seq![],
    });
    if let Some(d) = foc {
        push_read(&mut out, d.as_str(), "ABS_FOCUS_POSITION", true);
        push_read(&mut out, d.as_str(), "FOCUS_TEMPERATURE", true);
    }
    assert(reads_view(out@) =~= r3 + match opt_text(*foc) {
        Some(d) => seq![read(d, "ABS_FOCUS_POSITION"@, true), read(d, "FOCUS_TEMPERATURE"@, true)],
        None => seq![],
    });
    out
}

fn set_if(dst: &mut String, v: &Option<String>)
    ensures
        final(dst)@ == or_keep(opt_text(*v), old(dst)@),
{
    if let Some(d) = v {
        *dst = d.clone();
    }
}

impl DeviceStore {
    fn seed_camera(&mut self, cam: &Option<String>)
        ensures
            final(self)@ == (match opt_text(*cam) {
                Some(d) => StoreView {
                    camera_status: Some(CameraView { device: d, ..camera_base(old(self)@) }),
                    ..old(self)@
                },
                None => old(self)@,
            }),
    {
        if let Some(d) = cam {
            let mut c = match self.camera_status.take() {
                Some(c) => c,
                None => CameraStatus::new(),
            };
            c.device = d.clone();
            self.camera_status = Some(c);
        }
    }

    fn seed_filterwheel(&mut self, fw: &Option<String>)
        ensures
            final(self)@ == (match opt_text(*fw) {
                Some(d) => StoreView {
                    filter_wheel_status: Some(
                        FilterWheelView { device: d, ..filter_wheel_base(old(self)@) },
                    ),
                    ..old(self)@
                },
                None => old(self)@,
            }),
    {
        if let Some(d) = fw {
            let mut f = match self.filter_wheel_status.take() {
                Some(f) => f,
                None => FilterWheelStatusData::new(),
            };
            f.device = d.clone();
            self.filter_wheel_status = Some(f);
        }
    }

    fn seed_mount(&mut self, mnt: &Option<String>)
        ensures
            final(self)@ == (match opt_text(*mnt) {
                Some(d) => StoreView {
                    mount_status: Some(MountView { device: d, ..mount_base(old(self)@) }),
                    ..old(self)@
                },
                None => old(self)@,
            }),
    {
        if let Some(d) = mnt {
            let mut m = match self.mount_status.take() {
                Some(m) => m,
                None => MountStatus::new(),
            };
            m.device = d.clone();
            self.mount_status = Some(m);
        }
    }

    fn seed_focuser(&mut self, foc: &Option<String>)
        ensures
            final(self)@ == (match opt_text(*foc) {
                Some(d) => StoreView {
                    focus_status: Some(FocusView { device: d, ..focus_base(old(self)@) }),
                    ..old(self)@
                },
                None => old(self)@,
            }),
    {
        if let Some(d) = foc {
            let mut f = match self.focus_status.take() {
                Some(f) => f,
                None => FocusStatus::new(),
            };
            f.device = d.clone();
            self.focus_status = Some(f);
        }
    }

    fn seed_devices(
        &mut self,
        cam: &Option<String>,
        fw: &Option<String>,
        mnt: &Option<String>,
        foc: &Option<String>,
    )
        ensures
            final(self)@ == seeded(old(self)@, opt_text(*cam), opt_text(*fw), opt_text(*mnt), opt_text(*foc)),
    {
        self.seed_camera(cam);
        self.seed_filterwheel(fw);
        self.seed_mount(mnt);
        self.seed_focuser(foc);
    }

    /// Starts watching the devices of each module's train: names a new
    /// camera, filter wheel, mount or focuser in its status, records what is watched,
    /// and gives the property reads to retry for the new devices.
    #[verifier::rlimit(40)]
    pub fn watch_devices(&mut self, watched: &mut WatchedDevices) -> (r: Vec<PropertyRead>)
        ensures
            reads_view(r@) == watch_reads(old(self)@, old(watched)@),
            final(watched)@ == watch_after(old(self)@, old(watched)@),
            final(self)@ == store_after_watch(old(self)@, old(watched)@),
    {
        let ghost s0 = self@;
        let ghost w0 = watched@;
        let cam = fresh(&device_of_train(self, "1", 0), &watched.camera);
        assert(opt_text(cam) == fresh_device(capture_camera(s0), w0.camera));
        let fw = fresh(&device_of_train(self, "1", 1), &watched.filterwheel);
        assert(opt_text(fw) == fresh_device(capture_filterwheel(s0), w0.filterwheel));
        let mnt = fresh(&device_of_train(self, "3", 2), &watched.mount);
        assert(opt_text(mnt) == fresh_device(mount_device(s0), w0.mount));
        let foc = fresh(&device_of_train(self, "2", 3), &watched.focuser);
        assert(opt_text(foc) == fresh_device(focuser_device(s0), w0.focuser));
        let gd = fresh(&device_of_train(self, "4", 4), &watched.guider);
        assert(opt_text(gd) == fresh_device(guider_device(s0), w0.guider));
        let out = build_reads(&cam, &fw, &mnt, &foc);
        self.seed_devices(&cam, &fw, &mnt, &foc);
        set_if(&mut watched.camera, &cam);
        set_if(&mut watched.filterwheel, &fw);
        set_if(&mut watched.mount, &mnt);
        set_if(&mut watched.focuser, &foc);
        set_if(&mut watched.guider, &gd);
        out
    }

    /// The socket to the server failed: neither connected nor online.
    pub fn socket_lost(&mut self)
        ensures
            final(self)@ == (StoreView { connected: false, online: false, ..old(self)@ }),
    {
        self.connected = false;
        self.online = false;
    }

    /// Applies a whole message `{type, payload}` as read from the socket at
    /// `now_ms`: a missing type reads as `""`, a missing payload as `null`.
    pub fn apply_message(&mut self, msg: Json, now_ms: u64)
        ensures
            final(self)@ == store_after_event(
                old(self)@,
                str_or_empty(msg, "type"@),
                msg.at("payload"@),
                now_ms,
            ),
    {
        let t = get_string(&msg, "type");
        let payload = match take_member(msg, "payload") {
            Some(p) => p,
            None => Json::Null,
        };
        self.apply_ekos_event(t.as_str(), payload, now_ms);
    }
}

} // verus!
