use peach_menu::render::{FontSize, PlanStep, RenderCommand};
use peach_menu::snapshot::{Clock, NetworkSnapshot, StatsSnapshot, TelemetrySnapshot};
use peach_menu::state_machine::State;
use peach_menu::states::{
    state_home, state_logo, state_network, state_network_conf, state_network_mode,
    state_shutdown, state_stats, PEACH_LOGO,
};

fn w6(x: i32, y: i32, text: &str) -> PlanStep {
    PlanStep::Command(RenderCommand::Write {
        x,
        y,
        text: text.to_string(),
        font: FontSize::F6x8,
    })
}

fn clear() -> PlanStep {
    PlanStep::Command(RenderCommand::Clear)
}

fn flush() -> PlanStep {
    PlanStep::Command(RenderCommand::Flush)
}

#[test]
fn home_root_issues_clear_six_writes_and_flush() {
    let clock = Clock { hour: 13, minute: 7 };
    let plan = state_home(0, &clock);
    let expected = vec![
        clear(),
        w6(96, 0, "13:07"),
        w6(0, 0, "PeachCloud"),
        w6(0, 18, "> Networking"),
        w6(0, 27, "  System Stats"),
        w6(0, 36, "  Display Off"),
        w6(0, 45, "  Shutdown"),
        flush(),
    ];
    assert_eq!(plan, expected);
}

#[test]
fn home_root_renders_the_same_through_the_dispatch() {
    let clock = Clock { hour: 13, minute: 7 };
    let direct = state_home(0, &clock);
    let dispatched = State::Home(0).render(&TelemetrySnapshot::Clock(clock));
    assert_eq!(direct, dispatched);
}

#[test]
fn home_submenu_rewrites_only_the_marker_column() {
    let clock = Clock { hour: 0, minute: 0 };
    let plan = state_home(2, &clock);
    let expected = vec![
        w6(0, 18, "  "),
        w6(0, 27, "> "),
        w6(0, 36, "  "),
        w6(0, 45, "  "),
        flush(),
    ];
    assert_eq!(plan, expected);
}

#[test]
fn rendering_twice_with_the_same_snapshot_is_identical() {
    let clock = Clock { hour: 23, minute: 59 };
    let snap = TelemetrySnapshot::Clock(clock);
    let p1 = State::Home(0).render(&snap);
    let p2 = State::Home(0).render(&snap);
    assert_eq!(p1, p2);
}

#[test]
fn logo_draws_the_bitmap() {
    let plan = state_logo();
    assert_eq!(plan.len(), 3);
    assert_eq!(plan[0], clear());
    match &plan[1] {
        PlanStep::Command(RenderCommand::Draw { bytes, width, height, x, y }) => {
            assert_eq!(bytes.as_slice(), PEACH_LOGO.as_slice());
            assert_eq!((*width, *height, *x, *y), (64, 64, 32, 0));
        }
        other => panic!("expected a draw step, got {:?}", other),
    }
    assert_eq!(plan[2], flush());
}

#[test]
fn network_screen_up_renders_client_mode_fields() {
    let snap = NetworkSnapshot {
        wlan_state: Some("up".to_string()),
        wlan_ip: Some("192.168.0.9".to_string()),
        wlan_ssid: Some("home-net".to_string()),
        wlan_rssi: Some("-52".to_string()),
        ap_state: None,
        ap_ip: None,
    };
    let plan = state_network(&snap);
    let expected = vec![
        clear(),
        w6(0, 0, "MODE Client"),
        w6(0, 9, "STATUS up"),
        w6(0, 18, "NETWORK home-net"),
        w6(0, 27, "IP 192.168.0.9"),
        w6(0, 36, "SIGNAL -52dBm"),
        w6(0, 54, "> Configuration"),
        flush(),
    ];
    assert_eq!(plan, expected);
}

#[test]
fn network_screen_not_up_renders_access_point_fields() {
    let snap = NetworkSnapshot {
        wlan_state: Some("down".to_string()),
        wlan_ip: None,
        wlan_ssid: None,
        wlan_rssi: None,
        ap_state: Some("up".to_string()),
        ap_ip: Some("10.0.0.1".to_string()),
    };
    let plan = state_network(&snap);
    let expected = vec![
        clear(),
        w6(0, 0, "MODE Access Point"),
        w6(0, 9, "STATUS up"),
        w6(0, 18, "NETWORK peach"),
        w6(0, 27, "IP 10.0.0.1"),
        w6(0, 54, "> Configuration"),
        flush(),
    ];
    assert_eq!(plan, expected);
}

#[test]
fn network_screen_failed_queries_show_placeholders() {
    let snap = NetworkSnapshot {
        wlan_state: Some("up".to_string()),
        wlan_ip: None,
        wlan_ssid: None,
        wlan_rssi: None,
        ap_state: None,
        ap_ip: None,
    };
    let plan = state_network(&snap);
    assert_eq!(plan[3], w6(0, 18, "NETWORK Not connected"));
    assert_eq!(plan[4], w6(0, 27, "IP x.x.x.x"));
    assert_eq!(plan[5], w6(0, 36, "SIGNAL _dBm"));
}

#[test]
fn network_screen_unreadable_state_falls_back_to_access_point() {
    let snap = NetworkSnapshot {
        wlan_state: None,
        wlan_ip: None,
        wlan_ssid: None,
        wlan_rssi: None,
        ap_state: None,
        ap_ip: None,
    };
    let plan = state_network(&snap);
    assert_eq!(plan[1], w6(0, 0, "MODE Access Point"));
    assert_eq!(plan[2], w6(0, 9, "STATUS Error"));
}

#[test]
fn network_conf_root_draws_both_rows() {
    let plan = state_network_conf(0);
    let expected = vec![
        clear(),
        w6(0, 0, "> Client Mode"),
        w6(0, 9, "  Access Point Mode"),
        flush(),
    ];
    assert_eq!(plan, expected);
}

#[test]
fn network_conf_cursor_rewrites_both_markers() {
    let on_client = state_network_conf(1);
    assert_eq!(
        on_client,
        vec![w6(0, 0, "> "), w6(0, 9, "  "), flush()]
    );
    let on_ap = state_network_conf(2);
    assert_eq!(on_ap, vec![w6(0, 0, "  "), w6(0, 9, "> "), flush()]);
}

#[test]
fn network_conf_out_of_range_renders_nothing() {
    assert!(state_network_conf(3).is_empty());
}

#[test]
fn activating_client_mode_announces_then_switches_then_confirms() {
    let plan = state_network_mode(0);
    let expected = vec![
        clear(),
        w6(24, 16, "ACTIVATING"),
        w6(24, 27, "WIRELESS"),
        w6(24, 38, "CONNECTION..."),
        flush(),
        PlanStep::ActivateClient,
        clear(),
        w6(0, 0, "> Client mode"),
        w6(0, 9, "  Access point mode"),
        flush(),
    ];
    assert_eq!(plan, expected);
}

#[test]
fn deploying_access_point_announces_then_switches_then_confirms() {
    let plan = state_network_mode(1);
    let expected = vec![
        clear(),
        w6(27, 16, "DEPLOYING"),
        w6(27, 27, "ACCESS"),
        w6(27, 38, "POINT..."),
        flush(),
        PlanStep::ActivateAp,
        clear(),
        w6(0, 0, "  Client mode"),
        w6(0, 9, "> Access point mode"),
        flush(),
    ];
    assert_eq!(plan, expected);
}

#[test]
fn shutdown_plan_settles_then_powers_off_then_shuts_down() {
    let plan = state_shutdown();
    let expected = vec![
        clear(),
        w6(27, 16, "SHUTTING"),
        w6(27, 27, "DOWN"),
        w6(27, 38, "DEVICE..."),
        flush(),
        PlanStep::Settle,
        PlanStep::Command(RenderCommand::Power { on: false }),
        PlanStep::OsShutdown,
    ];
    assert_eq!(plan, expected);
}

#[test]
fn stats_screen_formats_every_line() {
    let snap = StatsSnapshot {
        cpu_user: 17,
        cpu_system: 4,
        cpu_idle: 79,
        mem_free: 2048,
        mem_used: 1024,
        load_one: "0.10".to_string(),
        load_five: "0.25".to_string(),
        load_fifteen: "0.30".to_string(),
        uptime_secs: 7200,
        rx_bytes: 5 * 1024 * 1024,
        tx_bytes: 3 * 1024 * 1024,
    };
    let plan = state_stats(&snap);
    let expected = vec![
        clear(),
        w6(0, 0, "CPU 17 us 4 sy 79 id"),
        w6(0, 9, "MEM 2MB f 1MB u"),
        w6(0, 18, "LOAD 0.10 0.25 0.30"),
        w6(0, 27, "UPTIME 120 hrs"),
        w6(0, 36, "DATA RX 5MB"),
        w6(0, 45, "DATA TX 3MB"),
        flush(),
    ];
    assert_eq!(plan, expected);
}

#[test]
fn stats_divisions_round_down() {
    let snap = StatsSnapshot {
        cpu_user: 0,
        cpu_system: 0,
        cpu_idle: 100,
        mem_free: 1023,
        mem_used: 2047,
        load_one: "0".to_string(),
        load_five: "0".to_string(),
        load_fifteen: "0".to_string(),
        uptime_secs: 119,
        rx_bytes: 1024 * 1024 - 1,
        tx_bytes: 0,
    };
    let plan = state_stats(&snap);
    let expected_mem = w6(0, 9, "MEM 0MB f 1MB u");
    let expected_uptime = w6(0, 27, "UPTIME 1 hrs");
    let expected_rx = w6(0, 36, "DATA RX 0MB");
    let expected_tx = w6(0, 45, "DATA TX 0MB");
    assert_eq!(plan[2], expected_mem);
    assert_eq!(plan[4], expected_uptime);
    assert_eq!(plan[5], expected_rx);
    assert_eq!(plan[6], expected_tx);
}

#[test]
fn power_screens_issue_a_single_power_command() {
    let off = State::PowerOff.render(&TelemetrySnapshot::NoData);
    assert_eq!(off, vec![PlanStep::Command(RenderCommand::Power { on: false })]);
    let on = State::PowerOn.render(&TelemetrySnapshot::NoData);
    assert_eq!(on, vec![PlanStep::Command(RenderCommand::Power { on: true })]);
}

#[test]
fn out_of_range_home_row_renders_nothing() {
    let clock = Clock { hour: 0, minute: 0 };
    assert!(state_home(7, &clock).is_empty());
}
