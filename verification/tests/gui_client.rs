use pendrake::client::{
    background_open_args, daemon_bin, daemon_candidates, deep_links, endpoint, import_params,
    launch, launch_error, launch_macos, method_may_spawn, pushed_event, read_reply,
    reply_outcome, request_line, request_value, spawn_due, Bridge, Dial, DialStep, Launch,
};
use pendrake::clock::{Duration, Instant};
use pendrake::ipc::Response;
use pendrake::paths::Paths;
use pendrake::transport::Platform;
use serde_json::Value;

fn now() -> Instant {
    Instant {
        nanos: 1_000_000_000_000,
    }
}

#[test]
fn a_daemon_never_spawned_is_due() {
    assert!(spawn_due(None, now(), Duration::from_secs(10)));
}

#[test]
fn a_recent_spawn_is_not_due_again() {
    let spawned = now();
    let now = spawned.after(Duration::from_secs(2));
    assert!(!spawn_due(Some(spawned), now, Duration::from_secs(10)));
}

#[test]
fn a_spawn_is_due_again_once_the_cooldown_elapses() {
    let cooldown = Duration::from_secs(10);
    let spawned = now();
    // Exactly at the cooldown counts as elapsed, so a stuck daemon is retried.
    assert!(spawn_due(Some(spawned), spawned.after(cooldown), cooldown));
}

#[test]
fn the_helper_is_launched_without_stealing_focus() {
    let app = b"/Applications/PendrakeSync.app".to_vec();
    // `-g` keeps the helper in the background, so launching it never pulls focus off the
    // GUI window.
    assert_eq!(background_open_args(&app), vec![b"-g".to_vec(), app.clone()]);
}

#[test]
fn client_and_daemon_meet_at_the_same_socket() {
    assert_eq!(
        endpoint(Platform::Unix, Some(b"/data".to_vec()), None).unwrap(),
        Paths::with_root(Platform::Unix, b"/data".to_vec()).endpoint()
    );
    assert_eq!(
        endpoint(Platform::Unix, None, Some(b"/home/u".to_vec())).unwrap(),
        "/home/u/pendrake-watch/daemon.sock"
    );
    assert_eq!(
        endpoint(Platform::Unix, None, None).unwrap_err(),
        "could not determine OS data directory"
    );
    // On Windows they meet at the pipe of the data root.
    assert_eq!(
        endpoint(Platform::Windows, Some(b"foobar".to_vec()), None).unwrap(),
        r"\\.\pipe\pendrake-85944171f73967e8"
    );
    let data_dir = || Some(br"C:\Users\u\AppData\Roaming".to_vec());
    assert_eq!(
        endpoint(Platform::Windows, None, data_dir()).unwrap(),
        Paths::resolve(Platform::Windows, None, data_dir())
            .ok()
            .unwrap()
            .endpoint()
    );
}

#[test]
fn the_daemon_is_looked_for_in_order() {
    let places = daemon_candidates(Platform::Unix, &Some(b"/app".to_vec()), ".exe");
    let texts: Vec<String> = places
        .iter()
        .map(|p| String::from_utf8(p.clone()).unwrap())
        .collect();
    assert_eq!(
        texts,
        vec![
            "/app/pendraked.exe",
            "/app/../../../crates/target/release/pendraked.exe",
            "/app/../../../crates/target/debug/pendraked.exe",
            "crates/target/release/pendraked.exe",
            "../crates/target/release/pendraked.exe",
            "crates/target/debug/pendraked.exe",
            "../crates/target/debug/pendraked.exe",
        ]
    );
    assert_eq!(daemon_candidates(Platform::Unix, &None, "").len(), 4);
    assert_eq!(
        daemon_candidates(Platform::Windows, &Some(br"C:\app".to_vec()), ".exe")[0],
        br"C:\app\pendraked.exe"
    );
    let mut exists = vec![false; 7];
    assert_eq!(daemon_bin(None, &places, &exists), None);
    exists[4] = true;
    exists[2] = true;
    assert_eq!(daemon_bin(None, &places, &exists), Some(places[2].clone()));
    assert_eq!(
        daemon_bin(Some(b"/mine".to_vec()), &places, &exists),
        Some(b"/mine".to_vec())
    );
}

#[test]
fn an_override_wins_the_launch() {
    let path = |l: Launch| match l {
        Launch::OpenApp(p) => (true, p),
        Launch::RunBin(p) => (false, p),
    };
    let p = |s: &str| Some(s.as_bytes().to_vec());
    assert_eq!(path(launch(None)), (false, b"pendraked".to_vec()));
    assert_eq!(path(launch(p("x"))), (false, b"x".to_vec()));
    assert_eq!(
        path(launch_macos(p("app"), true, p("bin"), p("found"), None).unwrap()),
        (true, b"app".to_vec())
    );
    assert_eq!(
        path(launch_macos(p("app"), false, p("bin"), p("found"), None).unwrap()),
        (false, b"bin".to_vec())
    );
    assert_eq!(
        path(launch_macos(None, false, None, p("found"), p("other")).unwrap()),
        (true, b"found".to_vec())
    );
    assert_eq!(
        path(launch_macos(None, false, None, None, p("other")).unwrap()),
        (false, b"other".to_vec())
    );
    assert!(launch_macos(None, false, None, None, None).is_err());
    assert_eq!(
        launch_error(&Launch::RunBin(b"/x".to_vec()), "denied"),
        "failed to spawn /x: denied"
    );
    assert_eq!(
        launch_error(&Launch::OpenApp(b"/x".to_vec()), "denied"),
        "failed to launch /x: denied"
    );
}

#[test]
fn only_intent_starts_the_daemon() {
    for m in ["importUfvk", "unlock", "getWalletState", "shutdown"] {
        assert!(method_may_spawn(m));
    }
    for m in ["getBalance", "lock", "subscribeEvents", "getNotes", ""] {
        assert!(!method_may_spawn(m));
    }
}

#[test]
fn dialling_spawns_once_and_gives_up() {
    let (dial, step) = Dial::First.tried(true);
    assert_eq!(dial, Dial::First);
    assert_eq!(step, DialStep::Connected);
    let (dial, step) = Dial::First.tried(false);
    assert_eq!(step, DialStep::TakeGate);
    let (mut dial, step) = dial.tried(false);
    assert_eq!(step, DialStep::SpawnAndWait);
    let mut attempts = 0;
    loop {
        attempts += 1;
        let (next, step) = dial.tried(false);
        dial = next;
        match step {
            DialStep::Wait => {}
            DialStep::GiveUp(e) => {
                assert_eq!(e, "daemon did not come up within 5s");
                break;
            }
            other => panic!("unexpected step {other:?}"),
        }
    }
    assert_eq!(attempts, 50);
}

#[test]
fn the_bridge_waits_ever_longer() {
    let mut bridge = Bridge::new();
    let waits: Vec<Duration> = (0..7).map(|_| bridge.ended(false)).collect();
    assert_eq!(
        waits,
        [500, 1000, 2000, 4000, 8000, 10_000, 10_000]
            .into_iter()
            .map(Duration::from_millis)
            .collect::<Vec<_>>()
    );
    assert_eq!(bridge.ended(true), Duration::from_millis(500));
    assert_eq!(bridge.ended(false), Duration::from_millis(1000));
}

#[test]
fn a_request_is_one_line() {
    let line = request_line("getNotes", &Value::Null).unwrap();
    assert_eq!(
        String::from_utf8(line).unwrap(),
        "{\"id\":1,\"method\":\"getNotes\",\"params\":null}\n"
    );
}

#[test]
fn a_request_names_its_method_and_carries_its_params() {
    let request = request_value("getTransaction", &Value::from("params"));
    assert_eq!(request["id"], Value::from(1u64));
    assert_eq!(request["method"], Value::from("getTransaction"));
    assert_eq!(request["params"], Value::from("params"));
}

#[test]
fn an_import_leaves_a_missing_passphrase_out() {
    let params = |passphrase: Option<String>| {
        import_params("uview1", Value::Null, "https://a.b", "mainnet", &passphrase)
    };
    let sent = params(Some("pw".to_string()));
    assert_eq!(sent["passphrase"], Value::from("pw"));
    assert_eq!(sent["ufvk"], Value::from("uview1"));
    assert_eq!(sent["indexerUri"], Value::from("https://a.b"));
    assert_eq!(sent["network"], Value::from("mainnet"));
    assert!(params(None).get("passphrase").is_none());
    assert!(params(None).get("birthday").is_some());
}

#[test]
fn a_reply_is_its_result_or_its_error() {
    assert_eq!(
        read_reply("{\"id\":1,\"ok\":true,\"result\":[1]}\n"),
        Ok(Some(Value::from(vec![1])))
    );
    assert_eq!(read_reply("{\"id\":1,\"ok\":true}"), Ok(None));
    assert_eq!(
        read_reply("{\"id\":1,\"ok\":false,\"error\":\"wallet is locked\"}"),
        Err("wallet is locked".to_string())
    );
    assert_eq!(
        read_reply("{\"id\":1,\"ok\":\"true\"}"),
        Err("daemon error".to_string())
    );
    assert!(read_reply("").is_err());
    assert_eq!(
        reply_outcome(Some(false), Some(Value::Null), None),
        Err("daemon error".to_string())
    );
}

#[test]
fn only_events_are_pushed_on() {
    assert!(pushed_event("{\"id\":1,\"ok\":true}").is_none());
    assert!(pushed_event("not json").is_none());
    let event = pushed_event("{\"event\":\"finished\"}").unwrap();
    assert_eq!(event["event"], Value::from("finished"));
}

#[test]
fn deep_links_are_picked_out_of_the_arguments() {
    let args: Vec<String> = ["pendrake", "pendrake://tx?txid=1", "x", "pendrake://wallet"]
        .iter()
        .map(|s| s.to_string())
        .collect();
    assert_eq!(
        deep_links(&args),
        vec!["pendrake://tx?txid=1", "pendrake://wallet"]
    );
}

#[test]
fn a_response_is_good_or_an_error() {
    let good = Response::ok(7, Value::Null);
    assert!(good.ok && good.result.is_some() && good.error.is_none());
    let bad = Response::err(8, "no".to_string());
    assert!(!bad.ok && bad.result.is_none());
    assert_eq!(bad.error.as_deref(), Some("no"));
}
