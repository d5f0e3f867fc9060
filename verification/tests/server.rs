use rekos::apps::{
    app_by_name, build_app_state_msg, detect_running, failure_message, monitor_change, state_str,
    unknown_app_message, AppId, AppTable, Handle, LaunchPlan, LaunchStep, ProcEntry,
};
use rekos::scheduler::{
    resolve_completion_condition, resolve_startup_condition, save_sequence_msg,
    scripts_settings_msg, sequence_base_name, sequence_paths, JobForm, ObservatoryScripts,
};
use rekos::server::{authenticate, log_exit, AuthRequest, Config, ListenerExit, STUB_JWT};

#[test]
fn config_defaults() {
    let c = Config::defaults();
    assert_eq!(c.http_addr, "0.0.0.0:8080");
    assert_eq!(c.https_addr, "0.0.0.0:8443");
    assert!(!c.no_https);
    assert!(c.tls_cert.is_none());
}

#[test]
fn authentication_always_succeeds_offline() {
    let r = authenticate(AuthRequest { username: String::new(), password: "x".into(), machine_id: "m1".into() });
    assert!(r.success);
    assert_eq!(r.token, STUB_JWT);
    assert_eq!(r.username, "rekos");
    assert_eq!(r.kind, "offline");
    assert_eq!(r.machine_id, "m1");
    let r = authenticate(AuthRequest { username: "ann".into(), password: String::new(), machine_id: String::new() });
    assert_eq!(r.username, "ann");
}

#[test]
fn listener_exit_logging() {
    assert_eq!(log_exit("http", &ListenerExit::Clean), (false, "http listener exited cleanly".to_string()));
    assert_eq!(
        log_exit("https", &ListenerExit::Failed("bind".into())),
        (true, "https listener error: bind".to_string())
    );
    assert_eq!(
        log_exit("http", &ListenerExit::Panicked("boom".into())),
        (true, "http task panicked: boom".to_string())
    );
}

#[test]
fn app_state_messages() {
    assert_eq!(state_str(true), "running");
    assert_eq!(
        build_app_state_msg(true, false),
        "{\"payload\":{\"kstars\":\"running\",\"phd2\":\"stopped\"},\"type\":\"app_state\"}"
    );
    assert_eq!(monitor_change((true, false), (true, false)), None);
    assert_eq!(
        monitor_change((true, false), (false, false)).as_deref(),
        Some("{\"payload\":{\"kstars\":\"stopped\",\"phd2\":\"stopped\"},\"type\":\"app_state\"}")
    );
    assert_eq!(unknown_app_message("gimp"), "unknown app: gimp");
    assert_eq!(failure_message("failed to launch ", "kstars", "not found"), "failed to launch kstars: not found");
}

#[test]
fn app_table_transitions() {
    assert_eq!(app_by_name("kstars"), Some(AppId::Kstars));
    assert_eq!(app_by_name("phd2"), Some(AppId::Phd2));
    assert_eq!(app_by_name("KStars"), None);
    let mut t = AppTable::new();
    assert_eq!(t.handle(AppId::Kstars), Handle::Idle);
    assert!(!t.record_probe(AppId::Kstars, true));
    assert_eq!(AppTable::launch_step(false), LaunchStep::Spawn);
    t.record_spawn(AppId::Kstars);
    assert!(t.record_probe(AppId::Kstars, true));
    assert_eq!(AppTable::launch_step(true), LaunchStep::AlreadyRunning);
    assert!(!t.record_probe(AppId::Kstars, false));
    assert_eq!(t.handle(AppId::Kstars), Handle::Idle);
    t.adopt_existing((None, Some(42)));
    assert_eq!(t.handle(AppId::Phd2), Handle::External(42));
    t.record_stop(AppId::Phd2);
    assert_eq!(t.handle(AppId::Phd2), Handle::Idle);
}

#[test]
fn running_apps_are_found_by_proc_name() {
    let e = |n: &str, c: &str| ProcEntry { name: n.into(), comm: c.into() };
    let entries = vec![e("self", "kstars"), e("12", "bash\n"), e("40", "KStars\n"), e("41", "kstars"), e("77", "phd2\n")];
    assert_eq!(detect_running(&entries), (Some(40), Some(77)));
    assert_eq!(detect_running(&[]), (None, None));
}

#[test]
fn scheduler_conditions() {
    assert_eq!(
        resolve_completion_condition("repeat", "5".into(), "t".into()),
        (false, true, 5, false, false, String::new())
    );
    assert_eq!(
        resolve_completion_condition("repeat", "many".into(), String::new()),
        (false, true, 1, false, false, String::new())
    );
    assert_eq!(resolve_completion_condition("loop", "5".into(), "t".into()), (false, false, 1, true, false, String::new()));
    assert_eq!(
        resolve_completion_condition("at", String::new(), "2024-01-01T22:00".into()),
        (false, false, 1, false, true, "2024-01-01T22:00".to_string())
    );
    assert_eq!(resolve_completion_condition("sequence", "5".into(), "t".into()), (true, false, 1, false, false, String::new()));
    assert_eq!(resolve_startup_condition("at", "22:00".into()), (false, true, "22:00".to_string()));
    assert_eq!(resolve_startup_condition("asap", "22:00".into()), (true, false, String::new()));
}

#[test]
fn job_submission_paths_and_messages() {
    assert_eq!(sequence_base_name(""), "sequence");
    assert_eq!(sequence_base_name("M31"), "M31");
    let (rel, abs) = sequence_paths("/home/astro", "M31");
    assert_eq!(rel, ".junos-sequences/M31.esq");
    assert_eq!(abs, "/home/astro/.junos-sequences/M31.esq");
    let (rel, abs) = sequence_paths("", "M31");
    assert_eq!(abs, rel);
    assert_eq!(
        save_sequence_msg(".junos-sequences/M31.esq", "<x a=\"1\"/>"),
        r#"{"payload":{"filedata":"<x a=\"1\"/>","path":".junos-sequences/M31.esq"},"type":"scheduler_save_sequence_file"}"#
    );
    let scripts = ObservatoryScripts {
        startup_enabled: true,
        pre_startup: "/opt/up.sh".to_string(),
        post_startup: String::new(),
        shutdown_enabled: false,
        pre_shutdown: String::new(),
        post_shutdown: "/opt/down.sh".to_string(),
    };
    assert_eq!(
        scripts_settings_msg(&scripts),
        r#"{"payload":{"schedulerPostShutdownScript":"/opt/down.sh","schedulerPostStartupScript":"","schedulerPreShutdownScript":"","schedulerPreStartupScript":"/opt/up.sh","schedulerShutdownEnabled":false,"schedulerStartupEnabled":true},"type":"scheduler_set_all_settings"}"#
    );
    let f = JobForm::cleared();
    assert_eq!(f.min_altitude, "30");
    assert_eq!(f.startup_condition, "asap");
    assert_eq!(f.completion_count, "1");
    assert!(f.step_track && f.step_guide && !f.step_focus && !f.step_align);
    assert_eq!(f.frames.len(), 1);
    assert_eq!(f.frames[0].exposure, "120");
}

#[test]
fn launch_plan_and_finish() {
    let mut t = AppTable::new();
    assert!(matches!(t.plan_launch("gimp", true), LaunchPlan::Unknown(ref m) if m == "unknown app: gimp"));
    assert!(matches!(t.plan_launch("kstars", true), LaunchPlan::Spawn(AppId::Kstars)));
    assert_eq!(t.finish_launch(AppId::Kstars, Ok(())), Ok(()));
    assert_eq!(t.kstars, Handle::Owned);
    assert!(matches!(t.plan_launch("kstars", true), LaunchPlan::AlreadyRunning));
    assert!(matches!(t.plan_launch("kstars", false), LaunchPlan::Spawn(AppId::Kstars)));
    assert_eq!(t.kstars, Handle::Idle);
    assert_eq!(
        t.finish_launch(AppId::Phd2, Err("No such file".to_string())),
        Err("failed to spawn phd2: No such file".to_string())
    );
    assert_eq!(t.phd2, Handle::Idle);
}
