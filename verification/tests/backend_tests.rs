use beacon::backend::{
    autoconnect, connect_to, disconnect_connection, execute, list_active_signals, reject_list_remove,
    scan_response, connect_response, disconnect_response, current_response, ConnectError, Plan,
    ScanDecision,
};
use beacon::types::{Connection, CurrentConnection, Host, Interface, InterfaceType};
use beacon::{Command, Response};

fn host(ssid: Option<&str>, bssid: Option<&str>, connected: bool) -> Host {
    Host {
        bssid: bssid.map(|s| s.to_string()),
        ssid: ssid.map(|s| s.to_string()),
        frequency: Some(2412),
        signal: Some(40),
        is_connected: connected,
    }
}

fn saved(ssid: &str, bssid: &str, password: &str) -> Connection {
    Connection { ssid: ssid.to_string(), bssid: bssid.to_string(), password: password.to_string() }
}

fn wireless(name: &str, index: u32) -> Interface {
    Interface {
        ifindex: Some(index),
        ifname: Some(name.to_string()),
        mac: Some("aa:bb:cc:dd:ee:ff".to_string()),
        iftype: InterfaceType::Wireless,
    }
}

#[test]
fn autoconnect_picks_last_joinable_host() {
    let hosts = vec![
        host(Some("home"), Some("AA:AA:AA:AA:AA:01"), false),
        host(Some("cafe"), Some("AA:AA:AA:AA:AA:02"), false),
        host(Some("other"), Some("AA:AA:AA:AA:AA:03"), false),
    ];
    let saved = vec![saved("home", "AA:AA:AA:AA:AA:01", "pw1"), saved("cafe", "AA:AA:AA:AA:AA:02", "pw2")];
    let mut connected = false;
    let r = autoconnect(&hosts, &vec![], &saved, &mut connected);
    let (h, p) = r.expect("a saved host is in range");
    assert_eq!(h.ssid.as_deref(), Some("cafe"));
    assert_eq!(p, "pw2");
    assert!(!connected);
}

#[test]
fn autoconnect_skips_rejected_names() {
    let hosts = vec![
        host(Some("home"), Some("AA:AA:AA:AA:AA:01"), false),
        host(Some("cafe"), Some("AA:AA:AA:AA:AA:02"), false),
    ];
    let saved = vec![saved("home", "AA:AA:AA:AA:AA:01", "pw1"), saved("cafe", "AA:AA:AA:AA:AA:02", "pw2")];
    let mut connected = false;
    let r = autoconnect(&hosts, &vec!["cafe".to_string()], &saved, &mut connected);
    let (h, p) = r.expect("home is joinable");
    assert_eq!(h.ssid.as_deref(), Some("home"));
    assert_eq!(p, "pw1");
}

#[test]
fn autoconnect_marks_connected_and_joins_nothing() {
    let hosts = vec![
        host(Some("home"), Some("AA:AA:AA:AA:AA:01"), false),
        host(Some("cafe"), Some("AA:AA:AA:AA:AA:02"), true),
    ];
    let saved = vec![saved("home", "AA:AA:AA:AA:AA:01", "pw1")];
    let mut connected = false;
    assert!(autoconnect(&hosts, &vec![], &saved, &mut connected).is_none());
    assert!(connected);
}

#[test]
fn autoconnect_waits_while_connected() {
    let hosts = vec![host(Some("home"), Some("AA:AA:AA:AA:AA:01"), false)];
    let saved = vec![saved("home", "AA:AA:AA:AA:AA:01", "pw1")];
    let mut connected = true;
    assert!(autoconnect(&hosts, &vec![], &saved, &mut connected).is_none());
    assert!(connected);
}

#[test]
fn autoconnect_nothing_saved() {
    let hosts = vec![host(Some("home"), Some("AA:AA:AA:AA:AA:01"), false), host(None, None, false)];
    let mut connected = false;
    assert!(autoconnect(&hosts, &vec![], &vec![], &mut connected).is_none());
    assert!(!connected);
}

#[test]
fn reject_list_remove_first_only() {
    let mut list = vec!["a".to_string(), "b".to_string(), "a".to_string()];
    reject_list_remove(&mut list, &"a".to_string());
    assert_eq!(list, vec!["b".to_string(), "a".to_string()]);
    reject_list_remove(&mut list, &"zzz".to_string());
    assert_eq!(list, vec!["b".to_string(), "a".to_string()]);
}

#[test]
fn connect_to_with_given_password() {
    let c = connect_to(host(Some("home"), Some("B1"), false), &Some("secret".to_string()), &vec![]).unwrap();
    assert_eq!(c.ssid, "home");
    assert_eq!(c.bssid, "B1");
    assert_eq!(c.password, "secret");
}

#[test]
fn connect_to_with_saved_password() {
    let saved = vec![saved("x", "B0", "p0"), saved("home", "B1", "first"), saved("home", "B1", "second")];
    let c = connect_to(host(Some("home"), Some("B1"), false), &None, &saved).unwrap();
    assert_eq!(c.password, "first");
}

#[test]
fn connect_to_errors() {
    let e = connect_to(host(Some("home"), Some("B1"), false), &None, &vec![]).unwrap_err();
    assert_eq!(e, ConnectError::PasswordMissing);
    assert_eq!(e.message(), "Password not provided. Please provide a password.");
    let e = connect_to(host(Some("home"), None, false), &Some("p".to_string()), &vec![]).unwrap_err();
    assert_eq!(e, ConnectError::BssidMissing);
    assert_eq!(e.message(), "No BSSID found.");
    let e = connect_to(host(None, Some("B1"), false), &Some("p".to_string()), &vec![]).unwrap_err();
    assert_eq!(e, ConnectError::SsidMissing);
    assert_eq!(e.message(), "Target SSID missing.");
}

#[test]
fn disconnect_connection_unrejects_network() {
    let mut c = CurrentConnection::new();
    c.ifname = Some("wlan0".to_string());
    c.ssid = Some("home".to_string());
    let mut reject = vec!["cafe".to_string(), "home".to_string()];
    disconnect_connection("wlan0", &vec![c], &mut reject);
    assert_eq!(reject, vec!["cafe".to_string()]);
}

#[test]
fn list_active_signals_decisions() {
    let mut wired = wireless("eth0", 2);
    wired.iftype = InterfaceType::Wired;
    assert_eq!(list_active_signals(&wired), ScanDecision::NotWireless);
    assert_eq!(list_active_signals(&wireless("wlan0", 3)), ScanDecision::Scan(3));
    let mut no_index = wireless("wlan0", 3);
    no_index.ifindex = None;
    assert_eq!(list_active_signals(&no_index), ScanDecision::NoIndex);
}

#[test]
fn execute_ping_answers_pong() {
    assert!(matches!(execute(Command::Ping), Plan::Respond(Response::Pong)));
    assert!(matches!(execute(Command::Tick), Plan::Respond(Response::Tick)));
    assert!(matches!(execute(Command::ListConnections), Plan::ListSaved));
    assert!(matches!(execute(Command::ListInterfaces), Plan::ListInterfaces));
    assert!(matches!(execute(Command::CurrentConnection), Plan::CurrentConnection));
    assert!(matches!(execute(Command::ClearNotification), Plan::Respond(Response::ClearNotification)));
    match execute(Command::Notification("hi".to_string())) {
        Plan::Respond(Response::Notification(m)) => assert_eq!(m, "hi"),
        other => panic!("unexpected plan {:?}", other),
    }
    match execute(Command::Disconnect("wlan0".to_string())) {
        Plan::Disconnect(n) => assert_eq!(n, "wlan0"),
        other => panic!("unexpected plan {:?}", other),
    }
    match execute(Command::Info("x".to_string())) {
        Plan::Respond(Response::Error(m)) => assert_eq!(m, "Unknown Command."),
        other => panic!("unexpected plan {:?}", other),
    }
}

#[test]
fn responses_wrap_outcomes() {
    match scan_response(&wireless("wlan0", 3), vec![host(Some("a"), Some("b"), false)]) {
        Response::ActiveHosts(n, h) => {
            assert_eq!(n, "wlan0");
            assert_eq!(h.len(), 1);
        }
        other => panic!("unexpected response {:?}", other),
    }
    let mut unnamed = wireless("wlan0", 3);
    unnamed.ifname = None;
    match scan_response(&unnamed, vec![]) {
        Response::Error(m) => assert_eq!(m, "Unknown Interface."),
        other => panic!("unexpected response {:?}", other),
    }
    assert!(matches!(connect_response(Ok(())), Response::Connected));
    match connect_response(Err("boom".to_string())) {
        Response::Error(m) => assert_eq!(m, "Could'nt Connect: boom"),
        other => panic!("unexpected response {:?}", other),
    }
    assert!(matches!(disconnect_response(Ok(())), Response::Disconnected));
    match disconnect_response(Err("boom".to_string())) {
        Response::Error(m) => assert_eq!(m, "Couldn't Disconnect. boom"),
        other => panic!("unexpected response {:?}", other),
    }
    assert!(matches!(current_response(Ok(None)), Response::CurrentConnection(None)));
    match current_response(Err("e".to_string())) {
        Response::Error(m) => assert_eq!(m, "e"),
        other => panic!("unexpected response {:?}", other),
    }
}
