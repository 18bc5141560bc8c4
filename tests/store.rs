use nut_webgui::dispatch::{
    finish_daemon_call, get_cached_commands, plan_commands, prepare_fsd, prepare_instcmd, prepare_set_var,
    require_auth_config, update_commands, wants_commands, CommandsPlan, GetUpsQuery, UpsdConfig,
};
use nut_webgui::problem::{translate_error, DaemonError, ErrorKind};
use nut_webgui::store::{DeviceEntry, DeviceStore, InstCmd};
use nut_webgui::validate::Value;

fn cmd(id: &str, desc: &str) -> InstCmd {
    InstCmd { id: id.to_string(), desc: desc.to_string() }
}

fn ids(v: &[InstCmd]) -> Vec<String> {
    v.iter().map(|c| c.id.clone()).collect()
}

fn store_with(name: &str) -> DeviceStore {
    let mut store = DeviceStore::new();
    store.add_device(DeviceEntry::new(name.to_string()));
    store
}

fn config(user: Option<&str>, pass: Option<&str>) -> UpsdConfig {
    UpsdConfig {
        addr: "127.0.0.1:3493".to_string(),
        user: user.map(|s| s.to_string()),
        pass: pass.map(|s| s.to_string()),
    }
}

fn err(kind: ErrorKind) -> DaemonError {
    DaemonError { kind, message: "boom".to_string() }
}

#[test]
fn never_refreshed_is_empty_and_stale() {
    let store = store_with("ups1");
    let (cmds, stale) = store.read_commands("ups1", 1000, 60);
    assert!(cmds.is_empty());
    assert!(stale);
    let (cmds, stale) = get_cached_commands(&store, "other", 0, 0);
    assert!(cmds.is_empty());
    assert!(stale);
}

#[test]
fn fresh_until_ttl_elapses() {
    let mut store = store_with("ups1");
    let list = vec![cmd("test.battery.start", "Start a battery test")];
    store.apply_refresh("ups1", &list, 100);
    let (a, stale_a) = store.read_commands("ups1", 100, 30);
    let (b, stale_b) = store.read_commands("ups1", 129, 30);
    let (c, stale_c) = store.read_commands("ups1", 130, 30);
    let (d, stale_d) = store.read_commands("ups1", 500, 30);
    assert!(!stale_a && !stale_b);
    assert!(stale_c && stale_d);
    for got in [a, b, c, d] {
        assert_eq!(ids(&got), vec!["test.battery.start".to_string()]);
    }
}

#[test]
fn zero_ttl_is_always_stale() {
    let mut store = store_with("ups1");
    store.apply_refresh("ups1", &vec![cmd("a", "A")], 100);
    assert!(store.read_commands("ups1", 100, 0).1);
}

#[test]
fn failed_refresh_keeps_cache() {
    let mut store = store_with("ups1");
    let list = vec![cmd("load.off", "Turn off the load")];
    assert!(update_commands(&mut store, "ups1", Ok(list), 10).is_ok());
    let r = update_commands(&mut store, "ups1", Err(err(ErrorKind::Io)), 50);
    let p = r.unwrap_err();
    assert_eq!(p.title, "UPS daemon unreachable");
    assert_eq!(p.status, 502);
    let (cmds, stale) = store.read_commands("ups1", 20, 30);
    assert_eq!(ids(&cmds), vec!["load.off".to_string()]);
    assert!(!stale);
    assert_eq!(store.lookup_device("ups1").unwrap().commands, vec!["load.off".to_string()]);
}

#[test]
fn refresh_replaces_command_ids() {
    let mut store = store_with("ups1");
    store.apply_refresh("ups1", &vec![cmd("a", "A"), cmd("b", "B")], 1);
    assert!(store.lookup_device("ups1").unwrap().has_command("b"));
    store.apply_refresh("ups1", &vec![cmd("c", "C")], 2);
    let dev = store.lookup_device("ups1").unwrap();
    assert_eq!(dev.commands, vec!["c".to_string()]);
    assert!(!dev.has_command("a"));
    assert!(!dev.has_command("b"));
    store.apply_refresh("ups1", &vec![], 3);
    assert!(store.lookup_device("ups1").unwrap().commands.is_empty());
}

#[test]
fn refresh_of_unknown_device_still_caches() {
    let mut store = DeviceStore::new();
    store.apply_refresh("ghost", &vec![cmd("a", "A")], 5);
    assert!(store.lookup_device("ghost").is_none());
    assert_eq!(ids(&store.read_commands("ghost", 5, 10).0), vec!["a".to_string()]);
}

#[test]
fn descriptions_last_write_wins() {
    let mut store = DeviceStore::new();
    store.upsert_description("k".to_string(), "v1".to_string());
    assert_eq!(store.shared_desc.len(), 1);
    store.upsert_description("k".to_string(), "v2".to_string());
    assert_eq!(store.description("k").unwrap(), "v2");
    assert_eq!(store.shared_desc.len(), 1);
    store.upsert_description("j".to_string(), "w".to_string());
    assert_eq!(store.shared_desc.len(), 2);
    assert!(store.description("missing").is_none());
}

#[test]
fn refresh_upserts_descriptions() {
    let mut store = store_with("ups1");
    store.upsert_description("old".to_string(), "kept".to_string());
    store.apply_refresh("ups1", &vec![cmd("a", "first"), cmd("a", "second")], 1);
    assert_eq!(store.description("a").unwrap(), "second");
    assert_eq!(store.description("old").unwrap(), "kept");
    store.apply_refresh("ups1", &vec![], 2);
    assert_eq!(store.description("a").unwrap(), "second");
}

#[test]
fn error_mapping() {
    let p = translate_error(err(ErrorKind::AccessDenied));
    assert_eq!((p.title.as_str(), p.status), ("Access denied", 401));
    let p = translate_error(err(ErrorKind::UnknownDevice));
    assert_eq!((p.title.as_str(), p.status), ("Device not found", 404));
    let p = translate_error(err(ErrorKind::RequestTimeout));
    assert_eq!((p.title.as_str(), p.status), ("UPS daemon unreachable", 502));
    let p = translate_error(err(ErrorKind::Other { title: "Protocol error".to_string(), status: 500 }));
    assert_eq!((p.title.as_str(), p.status), ("Protocol error", 500));
    assert_eq!(p.detail.as_deref(), Some("boom"));
}

#[test]
fn access_denied_from_every_operation() {
    let mut store = store_with("ups1");
    let a = update_commands(&mut store, "ups1", Err(err(ErrorKind::AccessDenied)), 1).unwrap_err();
    let b = finish_daemon_call(Err(err(ErrorKind::AccessDenied))).unwrap_err();
    for p in [a, b] {
        assert_eq!(p.title, "Access denied");
        assert_eq!(p.status, 401);
        assert!(p.detail.is_none());
    }
    assert!(finish_daemon_call(Ok(())).is_ok());
}

#[test]
fn missing_credentials_block_daemon_operations() {
    let store = store_with("ups1");
    for cfg in [config(None, Some("p")), config(Some("u"), None), config(None, None)] {
        let problems = vec![
            require_auth_config(&cfg).err().unwrap(),
            prepare_instcmd(&store, &cfg, "ups1", "a").err().unwrap(),
            prepare_fsd(&store, &cfg, "ups1").err().unwrap(),
            prepare_set_var(&store, &cfg, "ups1", "v", &Value::Number(1)).err().unwrap(),
            match plan_commands(&store, &cfg, "ups1", true, 0, 10) {
                CommandsPlan::Fail(p) => p,
                _ => panic!("expected a failure"),
            },
        ];
        for p in problems {
            assert_eq!(p.title, "Insufficient upsd configuration");
            assert_eq!(p.status, 401);
            assert_eq!(
                p.detail.as_deref(),
                Some("Operation requires valid username and password to be configured.")
            );
        }
    }
}

#[test]
fn plan_serves_fresh_cache() {
    let mut store = store_with("ups1");
    store.apply_refresh("ups1", &vec![cmd("a", "A")], 100);
    let cfg = config(Some("u"), Some("p"));
    match plan_commands(&store, &cfg, "ups1", false, 110, 30) {
        CommandsPlan::Cached(c) => assert_eq!(ids(&c), vec!["a".to_string()]),
        _ => panic!("expected the cached list"),
    }
    match plan_commands(&store, &cfg, "ups1", true, 110, 30) {
        CommandsPlan::Fetch(c) => {
            assert_eq!(c.user, "u");
            assert_eq!(c.pass, "p");
            assert_eq!(c.addr, "127.0.0.1:3493");
        },
        _ => panic!("expected a fetch"),
    }
    assert!(matches!(plan_commands(&store, &cfg, "ups1", false, 130, 30), CommandsPlan::Fetch(_)));
    assert!(matches!(plan_commands(&store, &cfg, "ups2", false, 0, 30), CommandsPlan::Fetch(_)));
}

#[test]
fn instcmd_and_fsd_checks() {
    let mut store = store_with("ups1");
    store.apply_refresh("ups1", &vec![cmd("beeper.off", "Disable the beeper")], 1);
    let cfg = config(Some("u"), Some("p"));
    assert!(prepare_instcmd(&store, &cfg, "ups1", "beeper.off").is_ok());
    let p = prepare_instcmd(&store, &cfg, "ups1", "load.on").err().unwrap();
    assert_eq!(p.title, "Invalid INSTCMD");
    assert_eq!(p.status, 400);
    assert_eq!(p.detail.as_deref(), Some("'load.on' is not listed as supported command on device details."));
    let p = prepare_instcmd(&store, &cfg, "ups9", "beeper.off").err().unwrap();
    assert_eq!(p.title, "Device not found");
    assert!(prepare_fsd(&store, &cfg, "ups1").is_ok());
    assert_eq!(prepare_fsd(&store, &cfg, "ups9").err().unwrap().status, 404);
}

#[test]
fn commands_query_flag() {
    assert!(wants_commands(&GetUpsQuery { extra: Some("commands".to_string()) }));
    assert!(!wants_commands(&GetUpsQuery { extra: Some("command".to_string()) }));
    assert!(!wants_commands(&GetUpsQuery { extra: None }));
}
