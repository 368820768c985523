//! Starting up: the registry, stale IDs and the file that remembers them.

use hc_lutron::config::{DeviceConfig, DeviceKind, SceneConfig, TimeclockConfig};
use hc_lutron::published::{
    cache_path_in, load_published_ids, published_ids, published_ids_cache_path,
    save_published_ids, stale_ids,
};
use hc_lutron::startup::{after_failed_start, AfterFailure, Registry, StartupAction};

fn strings(list: &[&str]) -> Vec<String> {
    list.iter().map(|s| s.to_string()).collect()
}

fn registry() -> Registry {
    Registry::build(
        vec![DeviceConfig {
            integration_id: 9,
            name: "Hall".to_string(),
            kind: DeviceKind::Switch,
            area: Some("Ground floor".to_string()),
            fade_secs: None,
            invert_position: false,
            buttons: vec![],
            ccis: vec![],
        }],
        vec![SceneConfig {
            name: "Good Night".to_string(),
            main_repeater_id: 1,
            button_component: 4,
        }],
        vec![TimeclockConfig {
            name: "Sunset".to_string(),
            area: None,
            device_id: "lutron_tc_sunset".to_string(),
        }],
    )
}

#[test]
fn current_ids_in_order() {
    assert_eq!(
        registry().current_ids(),
        ["lutron_9", "lutron_scene_good_night", "lutron_tc_sunset"]
    );
}

#[test]
fn registrations_in_order() {
    let shown: Vec<String> = registry()
        .registrations()
        .into_iter()
        .map(|r| format!("{} {} {} {:?}", r.hc_id, r.name, r.device_type, r.area))
        .collect();
    assert_eq!(
        shown,
        [
            "lutron_9 Hall switch Some(\"Ground floor\")",
            "lutron_scene_good_night Good Night scene None",
            "lutron_tc_sunset Sunset timeclock_event None",
        ]
    );
}

#[test]
fn startup_plan_removes_then_announces() {
    let previous = strings(&["lutron_8", "lutron_9", "lutron_scene_dinner"]);
    let shown: Vec<String> = registry()
        .startup_plan(&previous)
        .into_iter()
        .map(|a| match a {
            StartupAction::Unregister { hc_id } => format!("unregister {hc_id}"),
            StartupAction::Register(r) => format!("register {}", r.hc_id),
            StartupAction::Subscribe { hc_id } => format!("subscribe {hc_id}"),
            StartupAction::PublishAvailable { hc_id } => format!("available {hc_id}"),
        })
        .collect();
    assert_eq!(
        shown,
        [
            "unregister lutron_8",
            "unregister lutron_scene_dinner",
            "register lutron_9",
            "subscribe lutron_9",
            "available lutron_9",
            "register lutron_scene_good_night",
            "subscribe lutron_scene_good_night",
            "available lutron_scene_good_night",
            "register lutron_tc_sunset",
            "subscribe lutron_tc_sunset",
            "available lutron_tc_sunset",
        ]
    );
}

#[test]
fn stale_ids_keep_their_order() {
    let previous = strings(&["c", "a", "b", "c"]);
    assert_eq!(stale_ids(&previous, &strings(&["a"])), ["c", "b", "c"]);
    assert!(stale_ids(&previous, &previous).is_empty());
    assert!(stale_ids(&strings(&[]), &previous).is_empty());
}

#[test]
fn published_ids_are_read_back() {
    for ids in [
        strings(&[]),
        strings(&["lutron_1", "lutron_scene_\u{e9}t\u{e9}", "quote\" \\ \n\t\u{1}\u{1f600}"]),
    ] {
        let json = save_published_ids(&ids).unwrap();
        let text = String::from_utf8(json).unwrap();
        assert_eq!(load_published_ids(Some(text.as_str())), ids);
    }
    let json = save_published_ids(&strings(&["a", "b"])).unwrap();
    assert_eq!(String::from_utf8(json).unwrap(), "[\n  \"a\",\n  \"b\"\n]");
}

#[test]
fn unreadable_files_hold_no_ids() {
    assert!(load_published_ids(None).is_empty());
    for text in ["", "{}", "[1]", "[\"a\"", "null"] {
        assert!(load_published_ids(Some(text)).is_empty());
    }
    assert_eq!(load_published_ids(Some(" [\"a\", \"b\"] ")), ["a", "b"]);
    assert_eq!(published_ids(Some(strings(&["a"]))), ["a"]);
    assert!(published_ids(None).is_empty());
}

#[test]
fn cache_stands_next_to_the_configuration() {
    let path = published_ids_cache_path("config/config.toml");
    assert_eq!(path.directory, "config");
    assert_eq!(path.file_name, ".published-device-ids.json");
    assert_eq!(published_ids_cache_path("config.toml").directory, "");
    assert_eq!(published_ids_cache_path("./config/config.toml").directory, "./config");
    assert_eq!(published_ids_cache_path("./config.toml").directory, ".");
    assert_eq!(published_ids_cache_path("../config.toml").directory, "..");
    assert_eq!(published_ids_cache_path("a//b").directory, "a");
    assert_eq!(published_ids_cache_path("a/b/").directory, "a");
    assert_eq!(published_ids_cache_path("a//b///c//").directory, "a//b");
    assert_eq!(published_ids_cache_path("a//").directory, "");
    assert_eq!(published_ids_cache_path("/a//").directory, "/");
    assert_eq!(published_ids_cache_path(".//a/").directory, ".");
    assert_eq!(published_ids_cache_path("/config.toml").directory, "/");
    assert_eq!(published_ids_cache_path("/etc/hc/lutron.toml").directory, "/etc/hc");
    assert_eq!(published_ids_cache_path("/").directory, ".");
    assert_eq!(published_ids_cache_path("").directory, ".");
    assert_eq!(cache_path_in(None).directory, ".");
    assert_eq!(cache_path_in(Some("x".to_string())).directory, "x");
}

#[test]
fn startup_is_tried_three_times() {
    assert_eq!(after_failed_start(1), AfterFailure::Retry { delay_secs: 60 });
    assert_eq!(after_failed_start(2), AfterFailure::Retry { delay_secs: 60 });
    assert_eq!(after_failed_start(3), AfterFailure::GiveUp);
}

#[test]
fn restarting_removes_nothing() {
    let reg = registry();
    let saved = save_published_ids(&reg.current_ids()).unwrap();
    let previous = load_published_ids(Some(String::from_utf8(saved).unwrap().as_str()));
    let plan = reg.startup_plan(&previous);
    assert_eq!(plan.len(), 9);
    assert!(!plan.iter().any(|a| matches!(a, StartupAction::Unregister { .. })));
}
