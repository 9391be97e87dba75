use beacon::types::{CurrentConnection, Host, Interface, InterfaceType};
use beacon::ui::{
    centered_rect, connection_lines, connection_panel, host_row, hosts_title, interface_labels,
    interface_title, Area,
};
use beacon::wpa::{
    classify_event, leave_addresses, leave_command, leave_reply, leave_target, trim_text, wpa_reply,
    LeaveError, LeaveState, WpaDialog, WpaEvent, WpaState,
};

#[test]
fn interface_list_texts() {
    let mut named = Interface::new();
    named.ifname = Some("wlan0".to_string());
    let unnamed = Interface::new();
    assert_eq!(interface_labels(&vec![named, unnamed]), vec!["wlan0".to_string(), "---".to_string()]);
    assert_eq!(interface_title(0), " Interface (No Interface) ");
    assert_eq!(interface_title(12), " Interface (12) ");
    assert_eq!(hosts_title(0), " Hosts (No Hosts) ");
    assert_eq!(hosts_title(3), " Hosts (3) ");
}

#[test]
fn host_row_cells() {
    let h = Host { bssid: None, ssid: Some("home".into()), frequency: Some(5180), signal: None, is_connected: true };
    assert_eq!(host_row(&h), vec!["home", "--", "5180", "0", "YES"]);
    let h = Host { bssid: Some("AA".into()), ssid: None, frequency: None, signal: Some(61), is_connected: false };
    assert_eq!(host_row(&h), vec!["--", "AA", "0", "61", "NO"]);
}

#[test]
fn connection_panel_lines() {
    let mut c = CurrentConnection::new();
    c.ip_addr = Some(0xC0A8_0105);
    c.dns_servers = vec![0x0808_0808, 0x0101_0101];
    c.gateway = Some(0xC0A8_0101);
    c.frequency = Some(2412);
    c.lease_duration = 86400;
    c.renewal_time = 43200;
    c.rebinding_time = 75600;
    let lines = connection_lines(&c);
    assert_eq!(
        lines,
        vec![
            format!("{:<20}: {:>15}", "IP", "192.168.1.5"),
            format!("{:<20}: {:>15}", "DNS", "8.8.8.8"),
            format!("{:<20}: {:>15}", "Gateway", "192.168.1.1"),
            format!("{:<20}: {:>15}", "Frequency", "2412"),
            format!("{:<20}: {:>15}", "Lease Duration", "86400"),
            format!("{:<20}: {:>15}", "Renewal Time", "43200"),
            format!("{:<20}: {:>15}", "Rebinding Time", "75600"),
        ]
    );
    assert_eq!(lines[0], "IP                  :     192.168.1.5");
    let panel = connection_panel(&Some(vec![c])).unwrap();
    assert_eq!(panel.len(), 7);
    assert!(connection_panel(&Some(vec![])).is_none());
    assert!(connection_panel(&None).is_none());
}

#[test]
fn notification_box_is_centred() {
    let screen = Area { x: 0, y: 0, width: 100, height: 50 };
    let r = centered_rect(60, 40, screen);
    assert!(r.width >= 58 && r.width <= 62);
    assert!(r.height >= 18 && r.height <= 22);
    assert!(r.x >= 18 && r.x <= 22);
    assert!(r.y >= 13 && r.y <= 17);
    let full = centered_rect(100, 100, screen);
    assert_eq!(full, screen);
}

fn dialogue_until_select(d: &mut WpaDialog) {
    let replies = ["PONG", "OK", "OK", "3", "OK", "OK", "OK", "OK", "OK"];
    for r in replies {
        assert!(d.command().is_some());
        d.on_reply(r.to_string());
    }
}

#[test]
fn joining_dialogue_succeeds() {
    let mut d = WpaDialog::new("home".to_string(), "secret".to_string());
    assert_eq!(d.command().as_deref(), Some("PING"));
    d.on_reply("PONG".to_string());
    assert_eq!(d.command().as_deref(), Some("REMOVE_NETWORK all"));
    d.on_reply("OK".to_string());
    assert_eq!(d.command().as_deref(), Some("ATTACH"));
    d.on_reply("OK".to_string());
    assert_eq!(d.command().as_deref(), Some("ADD_NETWORK"));
    d.on_reply("3".to_string());
    assert_eq!(d.command().as_deref(), Some("SET_NETWORK 3 ssid \"home\""));
    d.on_reply("OK".to_string());
    assert_eq!(d.command().as_deref(), Some("SET_NETWORK 3 psk \"secret\""));
    d.on_reply("OK".to_string());
    assert_eq!(d.command().as_deref(), Some("SAVE_CONFIG"));
    d.on_reply("OK".to_string());
    assert_eq!(d.command().as_deref(), Some("DISABLE_NETWORK all"));
    d.on_reply("OK".to_string());
    assert_eq!(d.command().as_deref(), Some("SELECT_NETWORK 3"));
    d.on_reply("OK".to_string());
    assert_eq!(d.state, WpaState::Waiting);
    assert!(d.command().is_none());
    d.on_event("<3>CTRL-EVENT-SCAN-RESULTS");
    assert_eq!(d.state, WpaState::Waiting);
    d.on_event("<3>CTRL-EVENT-CONNECTED - Connection to aa:bb completed");
    assert_eq!(d.state, WpaState::Connected);
    d.on_reply("FAIL".to_string());
    d.on_timeout();
    assert_eq!(d.state, WpaState::Connected);
}

#[test]
fn joining_dialogue_failures() {
    let mut d = WpaDialog::new("home".to_string(), "pw".to_string());
    d.on_reply("FAIL".to_string());
    assert_eq!(d.state, WpaState::Failed);
    assert_eq!(d.error, "wpa_supplicant did not respond.");

    let mut d = WpaDialog::new("home".to_string(), "pw".to_string());
    d.on_reply("PONG".to_string());
    d.on_reply("OK".to_string());
    d.on_reply("FAIL".to_string());
    assert_eq!(d.error, "Couldn't connect to wpa_supplicant.");

    let mut d = WpaDialog::new("home".to_string(), "pw".to_string());
    for r in ["PONG", "OK", "OK", "0"] {
        d.on_reply(r.to_string());
    }
    d.on_reply("FAIL".to_string());
    assert_eq!(d.error, "failed to set SSID. FAIL");

    let mut d = WpaDialog::new("home".to_string(), "pw".to_string());
    for r in ["PONG", "OK", "OK", "0", "OK", "OK", "OK", "OK"] {
        d.on_reply(r.to_string());
    }
    d.on_reply("FAIL".to_string());
    assert_eq!(d.error, "Couldn't connect to home. FAIL");

    let mut d = WpaDialog::new("home".to_string(), "pw".to_string());
    dialogue_until_select(&mut d);
    assert_eq!(d.state, WpaState::Waiting);
    d.on_timeout();
    assert_eq!(d.error, "connection timed out after 10 secs.");

    let mut d = WpaDialog::new("home".to_string(), "pw".to_string());
    dialogue_until_select(&mut d);
    d.on_event("<3>CTRL-EVENT-SSID-TEMP-DISABLED id=0 ssid=\"home\" reason=WRONG_KEY");
    assert_eq!(d.error, "Incorrect Password. Please try again.");

    let mut d = WpaDialog::new("home".to_string(), "pw".to_string());
    dialogue_until_select(&mut d);
    d.on_event("<3>CTRL-EVENT-NETWORK-NOT-FOUND");
    assert_eq!(d.error, "Network not found, Make sure host is in range.");
}

#[test]
fn rejected_authentication_forgets_network() {
    let mut d = WpaDialog::new("home".to_string(), "pw".to_string());
    dialogue_until_select(&mut d);
    d.on_event("<3>CTRL-EVENT-AUTH-REJECT aa:bb auth_type=0 status_code=1");
    assert_eq!(d.command().as_deref(), Some("REMOVE_NETWORK 3"));
    d.on_reply("OK".to_string());
    assert_eq!(d.command().as_deref(), Some("SAVE_CONFIG"));
    d.on_reply("OK".to_string());
    assert_eq!(d.state, WpaState::Failed);
    assert_eq!(d.error, "Authentication failed. Try Again.");
}

#[test]
fn control_socket_replies() {
    assert_eq!(wpa_reply("  PONG\n").as_deref(), Some("PONG"));
    assert_eq!(wpa_reply("<3>CTRL-EVENT-SCAN-STARTED"), None);
    assert_eq!(trim_text("\t x y \n"), "x y");
    assert_eq!(classify_event("CTRL-EVENT-CONNECTED"), WpaEvent::Connected);
    assert_eq!(classify_event("nothing"), WpaEvent::Other);
}

#[test]
fn leaving_dialogue() {
    assert_eq!(leave_command(LeaveState::Ping).as_deref(), Some("PING"));
    assert_eq!(leave_reply(LeaveState::Ping, &"PONG".to_string()), Ok(LeaveState::Attach));
    assert_eq!(leave_command(LeaveState::Attach).as_deref(), Some("ATTACH"));
    assert_eq!(leave_reply(LeaveState::Attach, &"OK".to_string()), Ok(LeaveState::Disconnect));
    assert_eq!(leave_command(LeaveState::Disconnect).as_deref(), Some("DISCONNECT"));
    assert_eq!(leave_reply(LeaveState::Disconnect, &"FAIL".to_string()), Ok(LeaveState::Done));
    assert!(leave_command(LeaveState::Done).is_none());
    assert_eq!(
        leave_reply(LeaveState::Ping, &"FAIL".to_string()),
        Err("wpa_supplicant did not respond.".to_string())
    );
    assert_eq!(
        leave_reply(LeaveState::Attach, &"FAIL".to_string()),
        Err("Couldn't connect to wpa_supplicant.".to_string())
    );
}

#[test]
fn leaving_target_and_addresses() {
    let mut a = Interface::new();
    a.ifname = Some("wlan0".into());
    a.ifindex = Some(3);
    a.mac = Some("aa:bb:cc:dd:ee:ff".into());
    a.iftype = InterfaceType::Wireless;
    let mut b = Interface::new();
    b.ifname = Some("eth0".into());
    let ifaces = vec![b, a];
    assert_eq!(leave_target("wlan0", &ifaces).unwrap().ifindex, Some(3));
    let e = leave_target("eth0", &ifaces).unwrap_err();
    assert_eq!(e, LeaveError::NoIndex);
    assert_eq!(e.message(), "Couldn't parse Ifindex.");
    let e = leave_target("wlan9", &ifaces).unwrap_err();
    assert_eq!(e.message(), "Interface not found.");
    let mut c = Interface::new();
    c.ifname = Some("wlan1".into());
    c.ifindex = Some(1);
    assert_eq!(leave_target("wlan1", &vec![c]).unwrap_err().message(), "Couldn't parse mac.");
    assert_eq!(leave_addresses(Some(1), Some(2)), Ok((1, 2)));
    assert_eq!(leave_addresses(None, Some(2)).unwrap_err().message(), "No Current IP found.");
    assert_eq!(leave_addresses(Some(1), None).unwrap_err().message(), "Gateway IP not found.");
}
