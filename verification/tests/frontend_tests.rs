use beacon::frontend::{client_local_response, sigrate_to_bars, App, Key, Tab};
use beacon::types::{CurrentConnection, Host, Interface, InterfaceType};
use beacon::{Command, Response};

fn iface(name: &str, index: u32, kind: InterfaceType) -> Interface {
    Interface {
        ifindex: Some(index),
        ifname: Some(name.to_string()),
        mac: Some("aa:bb:cc:dd:ee:ff".to_string()),
        iftype: kind,
    }
}

fn host(ssid: &str, connected: bool) -> Host {
    Host {
        bssid: Some(format!("B-{}", ssid)),
        ssid: Some(ssid.to_string()),
        frequency: Some(2412),
        signal: Some(50),
        is_connected: connected,
    }
}

fn app_with_hosts(connected: bool) -> App {
    let mut app = App::new();
    app.set_interfaces(vec![iface("wlan0", 3, InterfaceType::Wireless), iface("eth0", 2, InterfaceType::Wired)]);
    app.set_hosts(vec![host("a", false), host("b", connected)], "wlan0");
    app
}

#[test]
fn new_app_is_empty() {
    let mut app = App::new();
    assert_eq!(app.active_tab, Tab::Interface);
    assert!(app.get_ifaces().is_empty());
    assert!(app.get_current_interface().is_none());
    assert!(app.get_hosts().is_empty());
}

#[test]
fn navigation_wraps_and_returns() {
    let mut app = app_with_hosts(false);
    assert!(app.handle_keys(Key::Down).is_none());
    assert_eq!(app.iface_index, Some(0));
    app.handle_keys(Key::Char('j'));
    assert_eq!(app.iface_index, Some(1));
    app.handle_keys(Key::Down);
    assert_eq!(app.iface_index, Some(0));
    app.handle_keys(Key::Up);
    assert_eq!(app.iface_index, Some(1));
    app.handle_keys(Key::Char('k'));
    assert_eq!(app.iface_index, Some(0));
    // down then up returns to the same row
    app.handle_keys(Key::Down);
    app.handle_keys(Key::Up);
    assert_eq!(app.iface_index, Some(0));
}

#[test]
fn selection_gives_interface_and_hosts() {
    let mut app = app_with_hosts(false);
    app.handle_keys(Key::Down);
    assert_eq!(app.get_current_interface().unwrap().ifname.as_deref(), Some("wlan0"));
    assert_eq!(app.get_hosts().len(), 2);
    assert_eq!(app.get_ifaces().len(), 2);
}

#[test]
fn toggle_moves_focus_to_hosts_and_back() {
    let mut app = app_with_hosts(false);
    app.handle_keys(Key::Tab);
    assert_eq!(app.active_tab, Tab::Interface);
    app.handle_keys(Key::Down);
    app.handle_keys(Key::Tab);
    assert_eq!(app.active_tab, Tab::Hosts);
    app.handle_keys(Key::Down);
    assert_eq!(app.host_index, Some(0));
    app.handle_keys(Key::Left);
    assert_eq!(app.active_tab, Tab::Interface);
}

#[test]
fn enter_on_hosts_opens_input_and_connects() {
    let mut app = app_with_hosts(false);
    app.handle_keys(Key::Down);
    app.handle_keys(Key::Tab);
    app.handle_keys(Key::Down);
    assert!(app.handle_keys(Key::Enter).is_none());
    assert_eq!(app.active_tab, Tab::Input);
    app.handle_keys(Key::Char('p'));
    app.handle_keys(Key::Char('w'));
    app.handle_keys(Key::Char('x'));
    app.handle_keys(Key::Backspace);
    assert_eq!(app.input_text, "pw");
    match app.handle_keys(Key::Enter) {
        Some(Command::Connect { host, password, iface }) => {
            assert_eq!(host.ssid.as_deref(), Some("a"));
            assert_eq!(password.as_deref(), Some("pw"));
            assert_eq!(iface.ifname.as_deref(), Some("wlan0"));
        }
        other => panic!("unexpected command {:?}", other),
    }
    assert_eq!(app.active_tab, Tab::Interface);
    assert_eq!(app.input_text, "");
}

#[test]
fn escape_leaves_input() {
    let mut app = app_with_hosts(false);
    app.active_tab = Tab::Input;
    app.handle_keys(Key::Esc);
    assert_eq!(app.active_tab, Tab::Interface);
}

#[test]
fn enter_without_selected_host_reports_error() {
    let mut app = app_with_hosts(false);
    app.active_tab = Tab::Input;
    match app.handle_keys(Key::Enter) {
        Some(Command::Notification(m)) => assert_eq!(m, "Error in app"),
        other => panic!("unexpected command {:?}", other),
    }
}

#[test]
fn enter_on_connected_network_disconnects() {
    let mut app = app_with_hosts(true);
    app.handle_keys(Key::Down);
    app.handle_keys(Key::Tab);
    match app.handle_keys(Key::Enter) {
        Some(Command::Disconnect(n)) => assert_eq!(n, "wlan0"),
        other => panic!("unexpected command {:?}", other),
    }
    assert_eq!(app.active_tab, Tab::Hosts);
}

#[test]
fn connect_without_interface_is_refused() {
    let mut app = App::new();
    match app.connect(host("a", false), None) {
        Command::Notification(m) => assert_eq!(m, "Cannot Connect, Interface not set."),
        other => panic!("unexpected command {:?}", other),
    }
}

#[test]
fn set_interfaces_keeps_hosts_of_unchanged_interfaces() {
    let mut app = app_with_hosts(false);
    app.set_interfaces(vec![iface("eth0", 2, InterfaceType::Wired), iface("wlan0", 3, InterfaceType::Wireless)]);
    assert_eq!(app.group[1].hosts.len(), 2);
    assert_eq!(app.group[0].hosts.len(), 0);
    app.set_interfaces(vec![iface("wlan0", 4, InterfaceType::Wireless)]);
    assert_eq!(app.group[0].hosts.len(), 0);
}

#[test]
fn set_hosts_for_unknown_interface_is_dropped() {
    let mut app = app_with_hosts(false);
    app.set_hosts(vec![host("z", false)], "wlan9");
    assert_eq!(app.group[0].hosts.len(), 2);
    assert_eq!(app.group[1].hosts.len(), 0);
}

#[test]
fn responses_update_client() {
    let mut app = app_with_hosts(false);
    assert!(app.apply_response(Response::Notification("hello".to_string())).is_empty());
    assert_eq!(app.notification.as_deref(), Some("hello"));
    assert!(app.apply_response(Response::ClearNotification).is_empty());
    assert!(app.notification.is_none());
    let out = app.apply_response(Response::Error("bad".to_string()));
    assert!(matches!(&out[..], [Command::Notification(m)] if m == "bad"));
    let out = app.apply_response(Response::Connected);
    assert!(matches!(&out[..], [Command::Notification(m)] if m == "Connected."));
    let out = app.apply_response(Response::Tick);
    assert!(matches!(&out[..], [Command::ListInterfaces]));
    app.handle_keys(Key::Down);
    let out = app.apply_response(Response::Tick);
    assert_eq!(out.len(), 3);
    assert!(matches!(&out[1], Command::ListActiveConnections(i) if i.ifname.as_deref() == Some("wlan0")));
    let mut c = CurrentConnection::new();
    c.ifname = Some("wlan0".to_string());
    app.apply_response(Response::CurrentConnection(Some(vec![c])));
    assert_eq!(app.current_connection.as_ref().unwrap().len(), 1);
    app.apply_response(Response::ActiveHosts("wlan0".to_string(), vec![host("only", false)]));
    assert_eq!(app.group[0].hosts.len(), 1);
    app.apply_response(Response::AllInterfaces(vec![]));
    assert!(app.group.is_empty());
    assert!(app.apply_response(Response::Pong).is_empty());
}

#[test]
fn follow_selection_asks_once_per_wireless_interface() {
    let mut app = app_with_hosts(false);
    let mut last = None;
    assert!(app.follow_selection(&mut last).is_none());
    app.handle_keys(Key::Down);
    match app.follow_selection(&mut last) {
        Some(Command::ListActiveConnections(i)) => assert_eq!(i.ifname.as_deref(), Some("wlan0")),
        other => panic!("unexpected command {:?}", other),
    }
    assert_eq!(last.as_deref(), Some("wlan0"));
    assert!(app.follow_selection(&mut last).is_none());
    app.handle_keys(Key::Down);
    assert!(app.follow_selection(&mut last).is_none());
}

#[test]
fn signal_bars() {
    assert_eq!(sigrate_to_bars(-20), "BEST");
    assert_eq!(sigrate_to_bars(-30), "||||||||");
    assert_eq!(sigrate_to_bars(-55), "||||||");
    assert_eq!(sigrate_to_bars(-65), "||||");
    assert_eq!(sigrate_to_bars(-70), "|||");
    assert_eq!(sigrate_to_bars(-85), "||");
    assert_eq!(sigrate_to_bars(-95), "---");
}

#[test]
fn local_responses() {
    assert!(matches!(client_local_response(Command::Tick), Ok(Response::Tick)));
    assert!(matches!(client_local_response(Command::ClearNotification), Ok(Response::ClearNotification)));
    assert!(matches!(client_local_response(Command::Notification("n".into())), Ok(Response::Notification(m)) if m == "n"));
    assert!(matches!(client_local_response(Command::Ping), Err(Command::Ping)));
}

#[test]
fn keys_safe_guards_empty_lists() {
    let mut app = App::new();
    assert!(app.keys_safe(Key::Down));
    app.iface_index = Some(0);
    assert!(!app.keys_safe(Key::Down));
    assert!(!app.keys_safe(Key::Up));
    assert!(app.keys_safe(Key::Tab));
    let mut app = app_with_hosts(false);
    app.handle_keys(Key::Down);
    assert!(app.keys_safe(Key::Down));
    assert!(app.keys_safe(Key::Up));
    app.active_tab = Tab::Input;
    assert!(app.keys_safe(Key::Char('j')));
}
