use rekos::indi::ProfileInfo;
use rekos::json::{Json, JsonMember, JsonNumber};
use rekos::polar::{is_intro_stage, is_progress_stage, is_refresh_stage, is_rotation_stage, stage_color};
use rekos::rig::{device_summary, train_summary, OpticalTrain, ScopeInfo};
use rekos::tabs::{snap_index, tab_index, tabs, wheel_step, Tab, TAB_COUNT};

fn obj(members: Vec<(&str, Json)>) -> Json {
    Json::Object(
        members
            .into_iter()
            .map(|(k, v)| JsonMember { key: k.to_string(), value: v })
            .collect(),
    )
}

fn train(mount: &str, camera: &str, scope: &str, guider: &str) -> OpticalTrain {
    OpticalTrain::from_json(&obj(vec![
        ("id", Json::Number(JsonNumber::PosInt(2))),
        ("name", Json::Str("Main".to_string())),
        ("mount", Json::Str(mount.to_string())),
        ("camera", Json::Str(camera.to_string())),
        ("scope", Json::Str(scope.to_string())),
        ("guider", Json::Str(guider.to_string())),
    ]))
}

fn member<'a>(v: &'a Json, k: &str) -> &'a Json {
    match v {
        Json::Object(ms) => &ms.iter().find(|m| m.key == k).unwrap().value,
        _ => panic!("not an object"),
    }
}

fn str_of(v: &Json) -> &str {
    match v {
        Json::Str(s) => s.as_str(),
        _ => panic!("not a string"),
    }
}

#[test]
fn train_summary_skips_empty_and_placeholder_slots() {
    let t = train(" EQMod ", "--", "", "ZWO ASI120");
    assert_eq!(train_summary(&t), "EQMod · ZWO ASI120");
    let t = train("", "--", "  ", "");
    assert_eq!(train_summary(&t), "—");
}

#[test]
fn device_summary_lists_profile_devices_in_order() {
    let p = ProfileInfo::from_json(&obj(vec![
        ("mount", Json::Str("Telescope Simulator".to_string())),
        ("ccd", Json::Str("CCD Simulator".to_string())),
        ("filter", Json::Str("--".to_string())),
    ]));
    assert_eq!(device_summary(&p), "Telescope Simulator · CCD Simulator");
}

#[test]
fn train_json_sends_placeholders_and_optional_id() {
    let mut t = train("EQMod", "", "Scope 80", "  ");
    t.reducer = JsonNumber::Float(0x3FE8_0000_0000_0000);
    let j = t.to_json(false);
    assert_eq!(str_of(member(&j, "camera")), "--");
    assert_eq!(str_of(member(&j, "guider")), "--");
    assert_eq!(str_of(member(&j, "mount")), "EQMod");
    assert_eq!(str_of(member(&j, "scope")), "Scope 80");
    assert!(matches!(member(&j, "reducer"), Json::Number(JsonNumber::Float(0x3FE8_0000_0000_0000))));
    match &j {
        Json::Object(ms) => assert!(ms.iter().all(|m| m.key != "id")),
        _ => panic!(),
    }
    let j = t.to_json(true);
    assert!(matches!(member(&j, "id"), Json::Number(JsonNumber::PosInt(2))));
    t.reducer = JsonNumber::Float(0x7FF8_0000_0000_0000);
    assert!(matches!(member(&t.to_json(false), "reducer"), Json::Null));
}

#[test]
fn profile_json_defaults_the_driver_source() {
    let p = ProfileInfo::from_json(&obj(vec![
        ("name", Json::Str("Rig".to_string())),
        ("guiding", Json::Number(JsonNumber::PosInt(1))),
        ("auto_connect", Json::Bool(true)),
    ]));
    let j = p.to_json();
    assert_eq!(str_of(member(&j, "name")), "Rig");
    assert_eq!(str_of(member(&j, "driver_source")), "system");
    assert_eq!(str_of(member(&j, "mode")), "local");
    assert!(matches!(member(&j, "auto_connect"), Json::Bool(true)));
    assert!(matches!(member(&j, "guiding"), Json::Number(JsonNumber::PosInt(1))));
    match &j {
        Json::Object(ms) => assert_eq!(ms.len(), 24),
        _ => panic!(),
    }
}

#[test]
fn scope_record_defaults_numbers_to_zero() {
    let sc = ScopeInfo::from_json(&obj(vec![
        ("id", Json::Str("7".to_string())),
        ("type", Json::Str("Refractor".to_string())),
        ("focal_length", Json::Number(JsonNumber::PosInt(480))),
    ]));
    assert_eq!(sc.id, "7");
    assert_eq!(sc.type_, "Refractor");
    assert_eq!(sc.focal_length_mm, JsonNumber::PosInt(480));
    assert_eq!(sc.aperture_mm, JsonNumber::Float(0));
}

#[test]
fn polar_stages_are_grouped_and_coloured() {
    assert!(is_intro_stage(""));
    assert!(is_intro_stage("Idle"));
    assert!(is_progress_stage("Finding CP"));
    assert!(!is_progress_stage("First Rotation"));
    assert!(is_rotation_stage("Second Rotation"));
    assert!(is_refresh_stage("Refresh Complete"));
    assert_eq!(stage_color("Idle"), "var(--text-muted)");
    assert_eq!(stage_color("Third Solve"), "var(--state-info)");
    assert_eq!(stage_color("First Settle"), "var(--state-warn)");
    assert_eq!(stage_color("Refreshing"), "var(--state-ok)");
    assert_eq!(stage_color("Something"), "var(--text)");
}

#[test]
fn tab_positions_follow_the_wheel_order() {
    let order = tabs();
    assert_eq!(order.len(), TAB_COUNT);
    for (i, t) in order.iter().enumerate() {
        assert_eq!(tab_index(*t), i);
    }
    assert_eq!(tab_index(Tab::Profiles), 0);
    assert_eq!(tab_index(Tab::Sky), 1);
    assert_eq!(tab_index(Tab::Devices), 0);
}

#[test]
fn wheel_steps_stop_at_the_ends() {
    assert_eq!(wheel_step(0, false), 0);
    assert_eq!(wheel_step(0, true), 1);
    assert_eq!(wheel_step(10, true), 10);
    assert_eq!(wheel_step(5, false), 4);
    assert_eq!(snap_index(3, 2), 1);
    assert_eq!(snap_index(3, 5), 0);
    assert_eq!(snap_index(0, i32::MIN), TAB_COUNT - 1);
    assert_eq!(snap_index(10, i32::MAX), 0);
    assert_eq!(snap_index(3, -20), 10);
}

#[test]
fn defaults_and_editor_state() {
    let t = OpticalTrain::default();
    assert_eq!(t.id, 0);
    assert_eq!(t.reducer, JsonNumber::Float(0x3FF0_0000_0000_0000));
    let e = rekos::rig::EditorState::new_blank();
    assert!(e.is_new());
    assert_eq!(e.profile.mode, "local");
    assert_eq!(e.profile.driver_source, "system");
    assert!(e.profile.name.is_empty());
    let p = ProfileInfo::from_json(&obj(vec![("name", Json::Str("Rig".to_string()))]));
    let e = rekos::rig::EditorState::from_profile(&p);
    assert!(!e.is_new());
    assert_eq!(e.original_name, "Rig");
    assert_eq!(e.profile.name, "Rig");
}

#[test]
fn site_reads_numbers_as_sent() {
    let s = rekos::rig::SiteInfo::from_json(&obj(vec![
        ("name", Json::Str("Backyard".to_string())),
        ("latitude", Json::Number(JsonNumber::PosInt(48))),
        ("longitude", Json::Number(JsonNumber::NegInt(-2))),
    ]));
    assert_eq!(s.name, "Backyard");
    assert_eq!(s.latitude, JsonNumber::PosInt(48));
    assert_eq!(s.longitude, JsonNumber::NegInt(-2));
    assert_eq!(s.elevation, JsonNumber::Float(0));
}

#[test]
fn profile_round_trips_through_json() {
    let mut p = rekos::indi::ProfileInfo::default();
    p.name = "Backyard".to_string();
    p.mode = "remote".to_string();
    p.remote_host = "pi.local".to_string();
    p.remote_port = 7624;
    p.guiding = -1;
    p.auto_connect = true;
    p.mount = "EQMod Mount".to_string();
    p.aux4 = "Flip Flat".to_string();
    let q = rekos::indi::ProfileInfo::from_json(&p.to_json());
    assert_eq!(q.name, "Backyard");
    assert_eq!(q.mode, "remote");
    assert_eq!(q.remote_host, "pi.local");
    assert_eq!(q.remote_port, 7624);
    assert_eq!(q.guiding, -1);
    assert!(q.auto_connect);
    assert!(!q.port_selector);
    assert_eq!(q.mount, "EQMod Mount");
    assert_eq!(q.aux4, "Flip Flat");
    assert_eq!(q.driver_source, "system");
}
