use rekos::json::{Json, JsonMember, JsonNumber};
use rekos::session::{
    cap_property_landed, cap_retries, connect_prime_messages, mount_coord_requests,
    online_prime_messages, property_get_msg, property_subscribe_msg, refresh_requests,
    retry_messages, retry_step, train_binding_messages, train_set_msg, RetryStep, WatchedDevices,
    RETRY_ATTEMPTS,
};
use rekos::store::DeviceStore;

fn s(x: &str) -> Json {
    Json::Str(x.to_string())
}

fn num(i: u64) -> Json {
    Json::Number(JsonNumber::PosInt(i))
}

fn obj(members: Vec<(&str, Json)>) -> Json {
    Json::Object(
        members
            .into_iter()
            .map(|(k, v)| JsonMember { key: k.to_string(), value: v })
            .collect(),
    )
}

fn online_store_with_trains() -> DeviceStore {
    let mut st = DeviceStore::new();
    st.apply_ekos_event("new_connection_state", obj(vec![("connected", Json::Bool(true)), ("online", Json::Bool(true))]), 1_000);
    st.apply_ekos_event(
        "train_get_all",
        Json::Array(vec![
            obj(vec![("id", num(1)), ("name", s("Imaging")), ("camera", s("ZWO \"A\"")), ("filterwheel", s("--")), ("mount", s("EQ6")), ("focuser", s(""))]),
            obj(vec![("id", num(2)), ("name", s("Guiding")), ("camera", s("Guide Cam")), ("guider", s("Guide Cam")), ("focuser", s("EAF"))]),
        ]),
        1_000,
    );
    st
}

#[test]
fn property_messages_escape_device_names() {
    assert_eq!(
        property_get_msg("ZWO \"A\"", "CCD_INFO", true),
        "{\"payload\":{\"compact\":true,\"device\":\"ZWO \\\"A\\\"\",\"property\":\"CCD_INFO\"},\"type\":\"device_property_get\"}"
    );
    assert_eq!(
        property_subscribe_msg("EQ6", "EQUATORIAL_EOD_COORD"),
        "{\"payload\":{\"device\":\"EQ6\",\"properties\":[\"EQUATORIAL_EOD_COORD\"]},\"type\":\"device_property_subscribe\"}"
    );
    assert_eq!(train_set_msg("guide", "Guiding"), "{\"payload\":{\"module\":\"guide\",\"name\":\"Guiding\"},\"type\":\"train_set\"}");
    let (sub, get) = retry_messages("Cap", "CAP_PARK", false);
    assert!(sub.contains("device_property_subscribe"));
    assert!(get.contains("\"compact\":false"));
}

#[test]
fn priming_lists() {
    let on = online_prime_messages();
    assert_eq!(on.len(), 16);
    assert_eq!(on[0], "{\"type\":\"file_default_path\",\"payload\":{\"type\":8}}");
    assert!(on[15].starts_with("{\"type\":\"option_get\""));
    assert_eq!(connect_prime_messages(), vec!["{\"type\":\"get_profiles\",\"payload\":{}}", "{\"type\":\"get_drivers\",\"payload\":{}}"]);
}

#[test]
fn bindings_wait_for_the_assignment_and_are_sent_once() {
    let mut st = online_store_with_trains();
    assert!(train_binding_messages(&st, "").is_none());
    st.apply_ekos_event("train_get_profiles", obj(vec![("4", num(2)), ("1", num(1))]), 1_000);
    let (sig, msgs) = train_binding_messages(&st, "").unwrap();
    assert_eq!(sig, "capture=Imaging;focus=Imaging;mount=Imaging;guide=Guiding;align=Imaging");
    assert_eq!(msgs.len(), 5);
    assert_eq!(msgs[3], "{\"payload\":{\"module\":\"guide\",\"name\":\"Guiding\"},\"type\":\"train_set\"}");
    assert!(train_binding_messages(&st, &sig).is_none());
}

#[test]
fn refresh_asks_for_the_first_trains_devices() {
    let st = DeviceStore::new();
    assert!(refresh_requests(&st).is_empty());
    let mut st = online_store_with_trains();
    let r = refresh_requests(&st);
    // 13 module requests + 7 camera reads; the filter wheel is "--", no focuser.
    assert_eq!(r.len(), 20);
    assert_eq!(r[0], "{\"type\":\"get_devices\",\"payload\":{}}");
    assert_eq!(r[13], property_get_msg("ZWO \"A\"", "CCD_INFO", true));
    assert_eq!(r[19], property_get_msg("ZWO \"A\"", "CCD_ISO", false));
    st.apply_ekos_event(
        "get_devices",
        Json::Array(vec![obj(vec![("name", s("Flip Flat")), ("interface", num(1536))])]),
        1_000,
    );
    let r = refresh_requests(&st);
    assert_eq!(r.len(), 23);
    assert_eq!(r[22], property_get_msg("Flip Flat", "FLAT_LIGHT_INTENSITY", true));
}

#[test]
fn coordinate_poll_resubscribes_every_eighth_tick() {
    let st = online_store_with_trains();
    let r = mount_coord_requests(&st, 0);
    assert_eq!(r, vec![property_get_msg("EQ6", "EQUATORIAL_EOD_COORD", true), property_subscribe_msg("EQ6", "EQUATORIAL_EOD_COORD")]);
    assert_eq!(mount_coord_requests(&st, 3).len(), 1);
    assert!(mount_coord_requests(&DeviceStore::new(), 0).is_empty());
}

#[test]
fn retries_stop_when_data_lands_or_after_a_minute() {
    assert_eq!(RETRY_ATTEMPTS, 60);
    assert_eq!(retry_step(0, true), RetryStep::Done);
    assert_eq!(retry_step(0, false), RetryStep::Resend);
    assert_eq!(retry_step(58, false), RetryStep::Resend);
    assert_eq!(retry_step(59, false), RetryStep::GiveUp);
}

#[test]
fn dust_cap_retries_start_once_per_device() {
    let mut st = online_store_with_trains();
    st.apply_ekos_event("get_devices", Json::Array(vec![obj(vec![("name", s("Flip Flat")), ("interface", num(1536))])]), 1_000);
    assert_eq!(cap_retries(&st, ""), vec!["CAP_PARK", "FLAT_LIGHT_CONTROL", "FLAT_LIGHT_INTENSITY"]);
    assert!(cap_retries(&st, "Flip Flat").is_empty());
    assert!(!cap_property_landed(&st, "CAP_PARK"));
    st.apply_ekos_event("new_cap_state", obj(vec![("parkStatus", num(0))]), 1_000);
    assert!(cap_property_landed(&st, "CAP_PARK"));
    assert!(!cap_property_landed(&st, "FLAT_LIGHT_INTENSITY"));
}

#[test]
fn watching_devices_names_them_and_reads_each_once() {
    let mut st = online_store_with_trains();
    st.apply_ekos_event("train_get_profiles", obj(vec![("2", num(2)), ("4", num(2))]), 1_000);
    let mut w = WatchedDevices::new();
    let reads = st.watch_devices(&mut w);
    let props: Vec<(&str, &str)> = reads.iter().map(|r| (r.device.as_str(), r.property.as_str())).collect();
    assert_eq!(props.len(), 7 + 1 + 2);
    assert_eq!(props[0], ("ZWO \"A\"", "CCD_INFO"));
    assert_eq!(props[7], ("EQ6", "EQUATORIAL_EOD_COORD"));
    assert_eq!(props[8], ("EAF", "ABS_FOCUS_POSITION"));
    assert_eq!(w.camera, "ZWO \"A\"");
    assert_eq!(w.guider, "Guide Cam");
    assert_eq!(st.camera_status.as_ref().unwrap().device, "ZWO \"A\"");
    assert_eq!(st.mount_status.as_ref().unwrap().device, "EQ6");
    assert_eq!(st.focus_status.as_ref().unwrap().device, "EAF");
    assert!(st.filter_wheel_status.is_none());
    assert!(st.watch_devices(&mut w).is_empty());
}

#[test]
fn whole_messages_and_socket_loss() {
    let mut st = DeviceStore::new();
    st.apply_message(obj(vec![("type", s("new_connection_state")), ("payload", obj(vec![("connected", Json::Bool(true)), ("online", Json::Bool(true))]))]), 1_000);
    assert!(st.online);
    st.apply_message(obj(vec![("payload", obj(vec![]))]), 1_000);
    assert!(st.online);
    st.socket_lost();
    assert!(!st.connected);
    assert!(!st.online);
}

#[test]
fn socket_url_follows_page_protocol() {
    assert_eq!(rekos::session::socket_url("https:", "rig.local:8443"), "wss://rig.local:8443/ws");
    assert_eq!(rekos::session::socket_url("http:", "localhost:8080"), "ws://localhost:8080/ws");
    assert_eq!(rekos::session::socket_url("file:", "h"), "ws://h/ws");
}
