use rekos::indi::DustCapParkState;
use rekos::json::{Json, JsonMember, JsonNumber};
use rekos::session::read_landed;
use rekos::status::RightAscension;
use rekos::store::{take_member, DeviceStore};

fn s(x: &str) -> Json {
    Json::Str(x.to_string())
}

fn num(i: u64) -> Json {
    Json::Number(JsonNumber::PosInt(i))
}

fn obj(members: Vec<(&str, Json)>) -> Json {
    Json::Object(
        members
            .into_iter()
            .map(|(k, v)| JsonMember { key: k.to_string(), value: v })
            .collect(),
    )
}

fn arr(items: Vec<Json>) -> Json {
    Json::Array(items)
}

#[test]
fn new_store_is_offline_and_empty() {
    let st = DeviceStore::new();
    assert!(!st.connected);
    assert!(!st.online);
    assert!(st.mount_status.is_none());
    assert!(st.devices.is_empty());
    assert_eq!(st.scheduler_status.status, 0);
    assert!(!st.kstars_state_known);
}

#[test]
fn connection_state_sets_online_only_when_connected() {
    let mut st = DeviceStore::new();
    st.apply_ekos_event(
        "new_connection_state",
        obj(vec![("connected", Json::Bool(true)), ("online", Json::Bool(true)), ("home_dir", s("/home/astro"))]),
        1_000,
    );
    assert!(st.connected);
    assert!(st.online);
    assert_eq!(st.home_dir, "/home/astro");

    st.apply_ekos_event("new_connection_state", obj(vec![("connected", Json::Bool(false)), ("online", Json::Bool(true))]), 1_000);
    assert!(!st.connected);
    assert!(!st.online);
    // An absent or empty home_dir keeps the known one.
    assert_eq!(st.home_dir, "/home/astro");
}

#[test]
fn disconnect_forgets_live_state_but_keeps_guide_settings() {
    let mut st = DeviceStore::new();
    st.apply_ekos_event("new_mount_state", obj(vec![("status", s("Tracking")), ("device", s("EQMod Mount"))]), 1_000);
    st.apply_ekos_event("guide_get_all_settings", obj(vec![("exposure", num(2))]), 1_000);
    st.apply_ekos_event("scheduler_get_jobs", obj(vec![("jobs", arr(vec![obj(vec![("state", num(3))])]))]), 1_000);
    assert!(st.mount_status.is_some());
    assert_eq!(st.scheduler_jobs.len(), 1);
    st.apply_ekos_event("new_connection_state", obj(vec![("connected", Json::Bool(false))]), 1_000);
    assert!(st.mount_status.is_none());
    assert!(st.scheduler_jobs.is_empty());
    assert_eq!(st.scheduler_status.status, 0);
    assert!(matches!(st.guide_settings, Json::Object(_)));
}

#[test]
fn mount_state_reads_status_flags_from_lowercased_text() {
    let mut st = DeviceStore::new();
    st.apply_ekos_event(
        "new_mount_state",
        obj(vec![
            ("status", s("Slewing")),
            ("ra", num(150)),
            ("pierSide", num(1)),
            ("target", s("M31")),
        ]),
        1_000,
    );
    let m = st.mount_status.as_ref().unwrap();
    assert!(m.slewing);
    assert!(!m.tracking);
    assert!(!m.parked);
    assert!(m.connected);
    assert_eq!(m.status_str, "Slewing");
    assert_eq!(m.ra, Some(RightAscension::Degrees(JsonNumber::PosInt(150))));
    assert_eq!(m.pier_side, Some(1));
    assert_eq!(m.target, "M31");

    // A later partial payload leaves the other fields alone.
    st.apply_ekos_event("new_mount_state", obj(vec![("status", s("Parked"))]), 1_000);
    let m = st.mount_status.as_ref().unwrap();
    assert!(m.parked);
    assert!(!m.slewing);
    assert_eq!(m.target, "M31");
    assert_eq!(m.ra, Some(RightAscension::Degrees(JsonNumber::PosInt(150))));
}

#[test]
fn mount_settings_read_the_meridian_flip_pair() {
    let mut st = DeviceStore::new();
    st.apply_ekos_event(
        "mount_get_all_settings",
        obj(vec![("executeMeridianFlip", Json::Bool(true)), ("meridianFlipOffsetDegrees", num(3))]),
        1_000,
    );
    let m = st.mount_status.as_ref().unwrap();
    assert_eq!(m.meridian_flip_enabled, Some(true));
    assert_eq!(m.meridian_flip_offset_deg, Some(JsonNumber::PosInt(3)));
}

#[test]
fn get_devices_finds_the_first_dust_cap() {
    let mut st = DeviceStore::new();
    let payload = arr(vec![
        obj(vec![("name", s("CCD Simulator")), ("connected", Json::Bool(true)), ("interface", num(2))]),
        obj(vec![("name", s("Flip Flat")), ("connected", Json::Bool(true)), ("interface", num(512 | 1024))]),
        obj(vec![("name", s("Other Cap")), ("connected", Json::Bool(false)), ("interface", num(512))]),
    ]);
    st.apply_ekos_event("get_devices", payload, 1_000);
    assert_eq!(st.devices.len(), 3);
    assert_eq!(st.devices[0].name, "CCD Simulator");
    assert_eq!(st.devices[1].interface, 1536);
    let cap = st.dustcap_status.as_ref().unwrap();
    assert_eq!(cap.device, "Flip Flat");
    assert!(cap.connected);
    assert!(cap.has_light_panel);
}

#[test]
fn cap_park_property_maps_switches_to_park_state() {
    let mut st = DeviceStore::new();
    let sw = |park: &str, unpark: &str| {
        arr(vec![
            obj(vec![("name", s("PARK")), ("state", s(park))]),
            obj(vec![("name", s("UNPARK")), ("state", s(unpark))]),
        ])
    };
    st.apply_ekos_event(
        "device_property_set",
        obj(vec![("name", s("CAP_PARK")), ("device", s("Flip Flat")), ("switches", sw("On", "Off"))]),
        1_000,
    );
    assert_eq!(st.dustcap_status.as_ref().unwrap().park_state, DustCapParkState::Parked);
    assert_eq!(st.dustcap_status.as_ref().unwrap().device, "Flip Flat");
    st.apply_ekos_event("device_property_set", obj(vec![("name", s("CAP_PARK")), ("switches", sw("Off", "On"))]), 1_000);
    assert_eq!(st.dustcap_status.as_ref().unwrap().park_state, DustCapParkState::Unparked);
    st.apply_ekos_event(
        "device_property_set",
        obj(vec![("name", s("CAP_PARK")), ("state", s("Busy")), ("switches", sw("On", "Off"))]),
        1_000,
    );
    assert_eq!(st.dustcap_status.as_ref().unwrap().park_state, DustCapParkState::Moving);
    st.apply_ekos_event("device_property_set", obj(vec![("name", s("CAP_PARK")), ("switches", sw("Off", "Off"))]), 1_000);
    assert_eq!(st.dustcap_status.as_ref().unwrap().park_state, DustCapParkState::Unknown);
}

#[test]
fn flat_light_intensity_takes_the_first_value_and_marks_a_panel() {
    let mut st = DeviceStore::new();
    st.apply_ekos_event(
        "device_property_get",
        obj(vec![
            ("name", s("FLAT_LIGHT_INTENSITY")),
            (
                "numbers",
                arr(vec![
                    obj(vec![("min", num(0)), ("max", num(255))]),
                    obj(vec![("value", num(128)), ("max", num(65535))]),
                    obj(vec![("value", num(7))]),
                ]),
            ),
        ]),
        1_000,
    );
    let cap = st.dustcap_status.as_ref().unwrap();
    assert!(cap.has_light_panel);
    assert_eq!(cap.brightness, Some(JsonNumber::PosInt(128)));
    assert_eq!(cap.brightness_min, Some(JsonNumber::PosInt(0)));
    assert_eq!(cap.brightness_max, Some(JsonNumber::PosInt(65535)));
}

#[test]
fn cooler_and_option_lists_update_the_camera() {
    let mut st = DeviceStore::new();
    st.apply_ekos_event(
        "device_property_get",
        obj(vec![
            ("name", s("CCD_COOLER")),
            ("switches", arr(vec![obj(vec![("name", s("COOLER_ON")), ("value", Json::Bool(true))])])),
        ]),
        1_000,
    );
    assert_eq!(st.camera_status.as_ref().unwrap().cooler_on, Some(true));
    st.apply_ekos_event(
        "device_property_get",
        obj(vec![
            ("name", s("CCD_FRAME_TYPE")),
            (
                "switches",
                arr(vec![
                    obj(vec![("name", s("FRAME_LIGHT")), ("label", s("Light"))]),
                    obj(vec![("name", s("FRAME_DARK")), ("label", s(""))]),
                    obj(vec![("label", s(""))]),
                ]),
            ),
        ]),
        1_000,
    );
    let cam = st.camera_status.as_ref().unwrap();
    assert_eq!(cam.frame_type_options, vec!["Light".to_string(), "FRAME_DARK".to_string()]);
    assert_eq!(cam.cooler_on, Some(true));
}

#[test]
fn filter_names_come_from_texts() {
    let mut st = DeviceStore::new();
    st.apply_ekos_event(
        "device_property_get",
        obj(vec![
            ("name", s("FILTER_NAME")),
            ("device", s("Wheel")),
            ("texts", arr(vec![obj(vec![("text", s("Ha"))]), obj(vec![("text", s("OIII"))]), obj(vec![])])),
        ]),
        1_000,
    );
    let fw = st.filter_wheel_status.as_ref().unwrap();
    assert_eq!(fw.device, "Wheel");
    assert_eq!(fw.filter_names, vec!["Ha".to_string(), "OIII".to_string()]);
}

#[test]
fn preview_frames_are_routed_by_uuid_prefix() {
    let mut st = DeviceStore::new();
    let frame = |uuid: &str, ext: &str| {
        obj(vec![("data", s("AQID")), ("metadata", obj(vec![("uuid", s(uuid)), ("ext", s(ext))]))])
    };
    st.apply_ekos_event("new_preview_image", frame("+F123", "jpg"), 1_000);
    assert_eq!(st.focus_preview_url.as_deref(), Some("data:image/jpeg;base64,AQID"));
    st.apply_ekos_event("new_preview_image", frame("+A1", "png"), 1_000);
    assert_eq!(st.align_preview_url.as_deref(), Some("data:image/png;base64,AQID"));
    st.apply_ekos_event("new_preview_image", frame("+G1", "jpg"), 1_000);
    assert!(st.guide_preview_url.is_some());
    st.apply_ekos_event("new_preview_image", frame("abc", "jpg"), 1_000);
    assert_eq!(st.capture_preview_url.as_deref(), Some("data:image/jpeg;base64,AQID"));
}

#[test]
fn job_list_promotes_only_an_idle_scheduler() {
    let mut st = DeviceStore::new();
    let jobs = || obj(vec![("jobs", arr(vec![obj(vec![("state", num(1))]), obj(vec![("state", num(3))])]))]);
    st.apply_ekos_event("scheduler_get_jobs", jobs(), 1_000);
    assert_eq!(st.scheduler_status.status, 2);
    assert_eq!(st.scheduler_jobs.len(), 2);

    let mut st = DeviceStore::new();
    st.apply_ekos_event("new_scheduler_state", obj(vec![("status", num(3))]), 1_000);
    st.apply_ekos_event("scheduler_get_jobs", jobs(), 1_000);
    assert_eq!(st.scheduler_status.status, 3);
}

#[test]
fn option_reply_keeps_only_guiding_options() {
    let mut st = DeviceStore::new();
    st.apply_ekos_event(
        "option_get",
        arr(vec![
            obj(vec![("name", s("GuiderType")), ("value", num(1))]),
            obj(vec![("name", s("SomethingElse")), ("value", num(9))]),
            obj(vec![("name", s("PHD2Host")), ("value", s("localhost"))]),
            obj(vec![("name", s("GuiderType")), ("value", num(2))]),
        ]),
        1_000,
    );
    assert_eq!(st.guide_options.len(), 2);
    assert_eq!(st.guide_options[0].key, "GuiderType");
    assert!(matches!(st.guide_options[0].value, Json::Number(JsonNumber::PosInt(2))));
    assert_eq!(st.guide_options[1].key, "PHD2Host");
}

#[test]
fn app_state_and_dialogs() {
    let mut st = DeviceStore::new();
    st.apply_ekos_event("app_state", obj(vec![("kstars", s("running")), ("phd2", s("stopped"))]), 1_000);
    assert!(st.kstars_running);
    assert!(!st.phd2_running);
    assert!(st.kstars_state_known);

    st.apply_ekos_event("dialog_get_info", obj(vec![("title", s("Q")), ("message", s("Park?"))]), 1_000);
    assert!(st.active_dialog.is_some());
    st.apply_ekos_event("dialog_get_info", obj(vec![]), 1_000);
    assert!(st.active_dialog.is_none());
}

#[test]
fn profiles_and_selection() {
    let mut st = DeviceStore::new();
    st.apply_ekos_event(
        "get_profiles",
        obj(vec![
            ("selectedProfile", s("Simulators")),
            ("profiles", arr(vec![obj(vec![("name", s("Simulators")), ("remote_port", num(7624))])])),
        ]),
        1_000,
    );
    assert_eq!(st.profiles.len(), 1);
    assert_eq!(st.profiles[0].name, "Simulators");
    assert_eq!(st.profiles[0].mode, "local");
    assert_eq!(st.profiles[0].remote_port, 7624);
    assert_eq!(st.selected_profile.as_deref(), Some("Simulators"));
    st.apply_ekos_event("get_profiles", obj(vec![("selectedProfile", s(""))]), 1_000);
    assert!(st.selected_profile.is_none());
    assert_eq!(st.profiles.len(), 1);
}

#[test]
fn module_train_follows_the_assignment_then_the_first_train() {
    let mut st = DeviceStore::new();
    st.apply_ekos_event(
        "train_get_all",
        arr(vec![
            obj(vec![("id", num(4)), ("name", s("Main")), ("camera", s("ZWO"))]),
            obj(vec![("id", num(7)), ("name", s("Guide")), ("reducer", num(0))]),
        ]),
        1_000,
    );
    assert_eq!(st.optical_trains[1].reducer, JsonNumber::Float(0x3FF0_0000_0000_0000));
    st.apply_ekos_event("train_get_profiles", obj(vec![("4", num(7))]), 1_000);
    assert_eq!(st.module_train_untracked("4").unwrap().name, "Guide");
    assert_eq!(st.module_train_untracked("1").unwrap().name, "Main");
    st.apply_ekos_event("train_get_profiles", obj(vec![("4", num(99))]), 1_000);
    assert_eq!(st.module_train_untracked("4").unwrap().name, "Main");
    assert!(DeviceStore::new().module_train_untracked("4").is_none());
}

#[test]
fn unknown_messages_change_nothing() {
    let mut st = DeviceStore::new();
    st.apply_ekos_event("new_weather_state", obj(vec![("status", s("ok"))]), 1_000);
    assert!(!st.connected);
    assert!(st.mount_status.is_none());
}

#[test]
fn redelivered_status_message_changes_nothing() {
    let mut a = DeviceStore::new();
    let p = || obj(vec![("status", s("Capturing")), ("seqv", num(3)), ("log", s("frame 3"))]);
    a.apply_ekos_event("new_capture_state", p(), 1_000);
    let once = (a.capture_status.status.clone(), a.capture_status.seq_current, a.capture_status.log.clone());
    a.apply_ekos_event("new_capture_state", p(), 1_000);
    assert_eq!(once, (a.capture_status.status.clone(), a.capture_status.seq_current, a.capture_status.log.clone()));
    assert_eq!(a.capture_status.seq_current, Some(3));
}

#[test]
fn polar_vector_defaults_missing_members_to_zero() {
    let mut st = DeviceStore::new();
    st.apply_ekos_event(
        "new_polar_state",
        obj(vec![("stage", s("First Capture")), ("vector", obj(vec![("mag", num(5))]))]),
        1_000,
    );
    assert_eq!(st.polar_state.stage, "First Capture");
    let v = st.polar_state.vector.unwrap();
    assert_eq!(v.mag, JsonNumber::PosInt(5));
    assert_eq!(v.center_x, JsonNumber::Float(0));
}

#[test]
fn take_member_moves_the_first_match() {
    let o = obj(vec![("a", num(1)), ("b", num(2)), ("a", num(3))]);
    assert!(matches!(take_member(o, "a"), Some(Json::Number(JsonNumber::PosInt(1)))));
    assert!(take_member(obj(vec![]), "a").is_none());
    assert!(take_member(num(1), "a").is_none());
}

#[test]
fn option_reply_delivered_twice_gives_the_same_options() {
    let reply = || {
        arr(vec![
            obj(vec![("name", s("PHD2Port")), ("value", num(4400))]),
            obj(vec![("name", s("GuiderType")), ("value", num(1))]),
            obj(vec![("name", s("PHD2Port")), ("value", num(4401))]),
        ])
    };
    let mut st = DeviceStore::new();
    st.apply_ekos_event("option_get", reply(), 1_000);
    let once: Vec<String> = st.guide_options.iter().map(|m| m.key.clone()).collect();
    st.apply_ekos_event("option_get", reply(), 1_000);
    let twice: Vec<String> = st.guide_options.iter().map(|m| m.key.clone()).collect();
    assert_eq!(once, twice);
    assert_eq!(once, vec!["PHD2Port".to_string(), "GuiderType".to_string()]);
    assert!(matches!(st.guide_options[0].value, Json::Number(JsonNumber::PosInt(4401))));
}

fn float(x: f64) -> Json {
    Json::Number(JsonNumber::Float(x.to_bits()))
}

#[test]
fn focus_keeps_last_positive_finite_hfr_readings() {
    let mut st = DeviceStore::new();
    st.apply_ekos_event("new_focus_state", obj(vec![("hfr", float(2.5)), ("pos", num(31000))]), 10);
    st.apply_ekos_event("new_focus_state", obj(vec![("hfr", float(0.0))]), 20);
    st.apply_ekos_event("new_focus_state", obj(vec![("hfr", float(-1.0))]), 30);
    st.apply_ekos_event("new_focus_state", obj(vec![("hfr", float(f64::INFINITY))]), 40);
    st.apply_ekos_event("new_focus_state", obj(vec![("hfr", float(f64::NAN))]), 50);
    st.apply_ekos_event("new_focus_state", obj(vec![("status", s("Idle"))]), 60);
    assert_eq!(st.focus_hfr_history.len(), 1);
    let h = st.focus_hfr_history[0];
    assert_eq!(h.t_ms, 10);
    assert_eq!(h.hfr, JsonNumber::Float(2.5f64.to_bits()));
    assert_eq!(h.position, Some(JsonNumber::PosInt(31000)));
    for i in 0..250u64 {
        st.apply_ekos_event("new_focus_state", obj(vec![("hfr", num(3))]), 100 + i);
    }
    assert_eq!(st.focus_hfr_history.len(), 200);
    assert_eq!(st.focus_hfr_history[0].t_ms, 150);
    assert_eq!(st.focus_hfr_history[199].t_ms, 349);
    assert_eq!(st.focus_status.as_ref().unwrap().status, "Idle");
}

#[test]
fn guide_records_status_changes_and_drift() {
    let mut st = DeviceStore::new();
    st.apply_ekos_event("new_guide_state", obj(vec![("status", s("Guiding"))]), 5);
    st.apply_ekos_event("new_guide_state", obj(vec![("status", s("Guiding"))]), 6);
    st.apply_ekos_event("new_guide_state", obj(vec![("drift_ra", float(0.4)), ("rarms", float(0.7))]), 7);
    st.apply_ekos_event("new_guide_state", obj(vec![("log", s(""))]), 8);
    let g = st.guide_status.as_ref().unwrap();
    assert!(g.connected);
    assert_eq!(g.status, "Guiding");
    assert_eq!(g.history.len(), 1);
    assert_eq!(g.history[0].t_ms, 5);
    assert_eq!(g.history[0].status, "Guiding");
    assert_eq!(g.drift.len(), 1);
    assert_eq!(g.drift[0].t_ms, 7);
    assert_eq!(g.drift[0].ra, Some(JsonNumber::Float(0.4f64.to_bits())));
    assert_eq!(g.drift[0].de, None);
    assert_eq!(g.ra_rms, Some(JsonNumber::Float(0.7f64.to_bits())));
    for i in 0..300u64 {
        let st_name = if i % 2 == 0 { "Calibrating" } else { "Guiding" };
        st.apply_ekos_event("new_guide_state", obj(vec![("status", s(st_name)), ("drift_de", num(1))]), 100 + i);
    }
    for i in 0..400u64 {
        st.apply_ekos_event("new_guide_state", obj(vec![("drift_de", num(2))]), 1000 + i);
    }
    let g = st.guide_status.as_ref().unwrap();
    assert_eq!(g.history.len(), 256);
    assert_eq!(g.history[255].t_ms, 399);
    assert_eq!(g.drift.len(), 600);
    assert_eq!(g.drift[0].t_ms, 100 + 100);
    assert_eq!(g.drift[599].t_ms, 1399);
}

#[test]
fn align_keeps_solution_and_disconnect_forgets_it() {
    let mut st = DeviceStore::new();
    st.apply_ekos_event("new_connection_state", obj(vec![("connected", Json::Bool(true))]), 1);
    st.apply_ekos_event(
        "new_align_state",
        obj(vec![("solution", obj(vec![("ra.Hours", float(5.5)), ("de.Degrees", num(22)), ("PA", float(91.5))]))]),
        77,
    );
    st.apply_ekos_event("new_align_state", obj(vec![("status", s("Complete")), ("solution", obj(vec![("fov", s("x"))]))]), 90);
    assert_eq!(st.align_status.as_deref(), Some("Complete"));
    assert_eq!(st.align_solution.ra_hours, Some(JsonNumber::Float(5.5f64.to_bits())));
    assert_eq!(st.align_solution.dec_deg, Some(JsonNumber::PosInt(22)));
    assert_eq!(st.align_solution.pixscale_arcsec, None);
    assert_eq!(st.align_solution.solved_at_ms, Some(77));
    st.apply_ekos_event("new_focus_state", obj(vec![("hfr", num(2))]), 95);
    st.apply_ekos_event("new_guide_state", obj(vec![("status", s("Idle"))]), 96);
    st.apply_ekos_event("new_connection_state", obj(vec![("connected", Json::Bool(false))]), 100);
    assert!(st.focus_hfr_history.is_empty());
    assert!(st.guide_status.is_none());
    assert!(st.align_status.is_none());
    assert_eq!(st.align_solution.solved_at_ms, None);
    assert_eq!(st.align_solution.ra_hours, None);
}

fn numbers(els: Vec<(&str, Json)>) -> Json {
    arr(els.into_iter().map(|(n, v)| obj(vec![("name", s(n)), ("value", v)])).collect())
}

fn prop(name: &str, device: &str, els: Vec<(&str, Json)>) -> Json {
    obj(vec![("name", s(name)), ("device", s(device)), ("numbers", numbers(els))])
}

#[test]
fn indi_number_properties_update_device_status() {
    let mut st = DeviceStore::new();
    st.apply_ekos_event(
        "device_property_get",
        prop("CCD_INFO", "ZWO CCD", vec![("CCD_MAX_X", num(6248)), ("CCD_MAX_Y", num(4176)), ("CCD_PIXEL_SIZE", float(3.76)), ("CCD_PIXEL_SIZE_Y", float(3.8))]),
        1,
    );
    let c = st.camera_status.as_ref().unwrap();
    assert_eq!(c.sensor_width, Some(JsonNumber::PosInt(6248)));
    assert_eq!(c.sensor_height, Some(JsonNumber::PosInt(4176)));
    assert_eq!(c.pixel_size_um, Some(JsonNumber::Float(3.8f64.to_bits())));
    assert_eq!(c.device, "");
    st.apply_ekos_event("device_property_set", prop("CCD_TEMPERATURE", "ZWO CCD", vec![("CCD_TEMPERATURE_VALUE", float(-9.5))]), 2);
    let c = st.camera_status.as_ref().unwrap();
    assert_eq!(c.temperature, Some(JsonNumber::Float((-9.5f64).to_bits())));
    assert_eq!(c.device, "ZWO CCD");
    assert_eq!(c.target_temperature, None);

    st.apply_ekos_event("device_property_get", prop("ABS_FOCUS_POSITION", "ZWO EAF", vec![("FOCUS_ABSOLUTE_POSITION", num(31250))]), 3);
    st.apply_ekos_event("device_property_get", prop("FOCUS_TEMPERATURE", "", vec![("TEMPERATURE", float(11.25))]), 4);
    let f = st.focus_status.as_ref().unwrap();
    assert_eq!(f.device, "ZWO EAF");
    assert_eq!(f.position, Some(JsonNumber::PosInt(31250)));
    assert_eq!(f.temperature, Some(JsonNumber::Float(11.25f64.to_bits())));
    assert!(!f.connected);

    st.apply_ekos_event("device_property_get", prop("FILTER_SLOT", "EFW", vec![("FILTER_SLOT_VALUE", num(3))]), 5);
    let w = st.filter_wheel_status.as_ref().unwrap();
    assert_eq!(w.current_slot, Some(JsonNumber::PosInt(3)));
    assert_eq!(w.device, "EFW");

    st.apply_ekos_event("device_property_get", prop("EQUATORIAL_EOD_COORD", "EQMod Mount", vec![("RA", float(5.5)), ("DEC", num(22))]), 6);
    let m = st.mount_status.as_ref().unwrap();
    assert_eq!(m.ra, Some(RightAscension::Hours(JsonNumber::Float(5.5f64.to_bits()))));
    assert_eq!(m.dec_deg, Some(JsonNumber::PosInt(22)));
    assert_eq!(m.device, "EQMod Mount");

    // A property without the element leaves the store as it was.
    st.apply_ekos_event("device_property_get", prop("FILTER_SLOT", "Other", vec![("X", num(9))]), 7);
    assert_eq!(st.filter_wheel_status.as_ref().unwrap().current_slot, Some(JsonNumber::PosInt(3)));
    assert_eq!(st.filter_wheel_status.as_ref().unwrap().device, "EFW");
}

#[test]
fn read_landing_follows_the_store() {
    let mut st = DeviceStore::new();
    assert!(!read_landed(&st, "CCD_INFO"));
    assert!(!read_landed(&st, "FILTER_SLOT"));
    st.apply_ekos_event("device_property_get", prop("CCD_INFO", "C", vec![("CCD_PIXEL_SIZE", float(3.76))]), 1);
    assert!(!read_landed(&st, "CCD_INFO"));
    st.apply_ekos_event("device_property_get", prop("CCD_INFO", "C", vec![("CCD_MAX_X", num(100))]), 2);
    assert!(read_landed(&st, "CCD_INFO"));
    st.apply_ekos_event("device_property_get", prop("FILTER_SLOT", "W", vec![("FILTER_SLOT_VALUE", num(1))]), 3);
    assert!(read_landed(&st, "FILTER_SLOT"));
    assert!(!read_landed(&st, "EQUATORIAL_EOD_COORD"));
    assert!(!read_landed(&st, "SOMETHING_ELSE"));
}
