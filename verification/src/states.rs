use vstd::prelude::*;
use vstd::string::*;
use crate::render::{
    apply_writes, clear_step, flush_step, has_os_shutdown, power_step, spec_write6, steps_view,
    write6, CommandV, PlanStep, RenderCommand, StepV,
};
use crate::snapshot::{
    opt_view, telemetry_ok, Clock, NetworkSnapshot, NetworkSnapshotV, StatsSnapshot,
    StatsSnapshotV, TelemetrySnapshot, TelemetryV,
};
use crate::state_machine::State;
use crate::text::{spec_dec, spec_two_digits, two_digit_string, u64_string};

verus! {

/// The 64 by 64 pixel boot logo, one bit per pixel.
pub const PEACH_LOGO: [u8; 512] = [
    0, 0, 0, 0, 0, 0, 0, 0, 0, 0, 0, 0, 0, 0, 0, 0, 0, 0, 0, 0, 0, 0, 0, 0, 0, 0, 0, 0, 0, 0, 0, 0,
    0, 0, 0, 0, 0, 0, 0, 0, 0, 0, 0, 0, 0, 0, 0, 0, 0, 0, 0, 0, 0, 0, 0, 0, 0, 0, 0, 0, 0, 0, 0, 0,
    0, 0, 0, 0, 0, 0, 0, 0, 0, 0, 0, 0, 0, 0, 0, 0, 0, 0, 0, 0, 0, 0, 0, 0, 0, 0, 0, 0, 0, 0, 0, 0,
    0, 0, 0, 0, 0, 0, 0, 0, 0, 0, 0, 0, 0, 0, 0, 0, 0, 0, 0, 0, 0, 0, 0, 0, 0, 224, 0, 0, 0, 0, 0,
    0, 3, 248, 14, 0, 0, 7, 0, 0, 15, 252, 63, 128, 0, 31, 192, 0, 63, 254, 127, 192, 0, 63, 224,
    0, 127, 255, 127, 224, 0, 127, 240, 0, 63, 255, 255, 128, 0, 255, 240, 0, 31, 255, 255, 192,
    31, 255, 248, 0, 15, 252, 64, 112, 63, 255, 248, 0, 24, 240, 96, 24, 127, 255, 255, 192, 48, 0,
    48, 12, 127, 255, 255, 224, 96, 0, 24, 12, 255, 255, 255, 240, 64, 0, 8, 6, 255, 255, 255, 248,
    64, 0, 12, 2, 255, 255, 255, 252, 192, 0, 4, 2, 255, 227, 255, 252, 192, 0, 4, 2, 127, 128,
    255, 252, 128, 0, 4, 2, 63, 0, 127, 252, 128, 0, 6, 2, 126, 0, 63, 252, 128, 0, 6, 3, 252, 0,
    63, 248, 128, 0, 6, 6, 0, 0, 1, 240, 192, 0, 6, 12, 0, 0, 0, 192, 192, 0, 6, 8, 0, 0, 0, 96,
    64, 0, 4, 24, 0, 0, 0, 32, 64, 0, 4, 24, 0, 0, 0, 48, 96, 0, 4, 16, 0, 0, 0, 16, 32, 0, 4, 16,
    0, 0, 0, 16, 48, 0, 12, 24, 0, 0, 0, 16, 24, 0, 8, 56, 0, 0, 0, 16, 12, 0, 24, 104, 0, 0, 0,
    48, 7, 0, 0, 204, 0, 0, 0, 96, 1, 128, 3, 134, 0, 0, 0, 192, 0, 240, 6, 3, 128, 0, 1, 128, 0,
    63, 28, 1, 255, 255, 255, 0, 0, 3, 240, 0, 31, 255, 252, 0, 0, 0, 0, 0, 0, 0, 0, 0, 0, 0, 0, 0,
    0, 0, 0, 0, 0, 0, 0, 0, 0, 0, 0, 0, 0, 0, 0, 0, 0, 0, 0, 0, 0, 0, 0, 0, 0, 0, 0, 0, 0, 0, 0, 0,
    0, 0, 0, 0, 0, 0, 0, 0, 0, 0, 0, 0, 0, 0, 0, 0, 0, 0, 0, 0, 0, 0, 0, 0, 0, 0, 0, 0, 0, 0, 0, 0,
    0, 0, 0, 0, 0, 0, 0, 0, 0, 0, 0, 0, 0, 0, 0, 0, 0, 0, 0, 0, 0, 0, 0, 0, 0, 0, 0, 0, 0, 0, 0, 0,
    0, 0, 0, 0, 0, 0, 0, 0, 0, 0, 0, 0, 0, 0, 0, 0, 0, 0, 0, 0,
];

/// A text field with a fixed placeholder where the query for it failed.
pub open spec fn spec_or_default(o: Option<Seq<char>>, d: Seq<char>) -> Seq<char> {
    match o {
        Option::Some(s) => s,
        Option::None => d,
    }
}

/// Substitutes a fixed placeholder for a failed query's field.
fn or_default(o: &Option<String>, d: &str) -> (r: String)
    ensures
        r@ == spec_or_default(opt_view(*o), d@),
{
    match o {
        Option::Some(s) => s.clone(),
        Option::None => d.to_owned(),
    }
}

/// The clock text in the home screen's header: `HH:MM`.
pub open spec fn spec_clock_text(c: Clock) -> Seq<char> {
    spec_two_digits(c.hour as nat) + ":"@ + spec_two_digits(c.minute as nat)
}

/// Formats a clock reading as `HH:MM`.
pub fn clock_text(c: &Clock) -> (s: String)
    requires
        c.wf(),
    ensures
        s@ == spec_clock_text(*c),
{
    let h = two_digit_string(c.hour);
    let m = two_digit_string(c.minute);
    let s = h.concat(":").concat(m.as_str());
    proof {
        assert(s@ =~= spec_clock_text(*c));
    }
    s
}

/// The selection marker text: `"> "` on the highlighted row, `"  "` (which
/// erases a stale marker) on every other row.
pub open spec fn spec_marker(on: bool) -> Seq<char> {
    if on {
        "> "@
    } else {
        "  "@
    }
}

/// Builds the marker text for one row.
fn marker(on: bool) -> (s: String)
    ensures
        s@ == spec_marker(on),
{
    if on {
        "> ".to_owned()
    } else {
        "  ".to_owned()
    }
}

/// The boot screen's plan: clear, draw the logo, flush.
pub open spec fn spec_logo_plan() -> Seq<StepV> {
    seq![
        StepV::Command(CommandV::Clear),
        StepV::Command(
            (CommandV::Draw { bytes: PEACH_LOGO@, width: 64, height: 64, x: 32, y: 0 }),
        ),
        StepV::Command(CommandV::Flush),
    ]
}

/// Renders the boot logo.
pub fn state_logo() -> (p: Vec<PlanStep>)
    ensures
        steps_view(p) == spec_logo_plan(),
{
    let bytes = vstd::slice::slice_to_vec(PEACH_LOGO.as_slice());
    let mut p: Vec<PlanStep> = Vec::new();
    p.push(clear_step());
    p.push(
        PlanStep::Command(RenderCommand::Draw { bytes, width: 64, height: 64, x: 32, y: 0 }),
    );
    p.push(flush_step());
    proof {
        assert(steps_view(p) =~= spec_logo_plan());
    }
    p
}

/// The home root screen's plan: clear, then six writes (the clock, the
/// title, and the four menu rows), then flush.
pub open spec fn spec_home_root_plan(c: Clock) -> Seq<StepV> {
    seq![
        StepV::Command(CommandV::Clear),
        spec_write6(96, 0, spec_clock_text(c)),
        spec_write6(0, 0, "PeachCloud"@),
        spec_write6(0, 18, "> Networking"@),
        spec_write6(0, 27, "  System Stats"@),
        spec_write6(0, 36, "  Display Off"@),
        spec_write6(0, 45, "  Shutdown"@),
        StepV::Command(CommandV::Flush),
    ]
}

/// A home submenu plan: rewrite only the four marker columns — erasing the
/// rows that are not selected and marking the one that is — then flush.
/// This deliberately skips clear and the fixed text, so moving the cursor
/// does not redraw the whole screen.
pub open spec fn spec_home_marker_plan(selected: u8) -> Seq<StepV> {
    seq![
        spec_write6(0, 18, spec_marker(selected == 1)),
        spec_write6(0, 27, spec_marker(selected == 2)),
        spec_write6(0, 36, spec_marker(selected == 3)),
        spec_write6(0, 45, spec_marker(selected == 4)),
        StepV::Command(CommandV::Flush),
    ]
}

/// The home screen's plan for a given cursor row: the full screen for the
/// root row, the marker-only rewrite for rows 1 through 4, and nothing for
/// an out-of-range row.
pub open spec fn spec_home_plan(selected: u8, c: Clock) -> Seq<StepV> {
    if selected == 0 {
        spec_home_root_plan(c)
    } else if selected <= 4 {
        spec_home_marker_plan(selected)
    } else {
        Seq::empty()
    }
}

/// Renders the home screen with the cursor on `selected`.
pub fn state_home(selected: u8, c: &Clock) -> (p: Vec<PlanStep>)
    requires
        c.wf(),
    ensures
        steps_view(p) == spec_home_plan(selected, *c),
{
    let mut p: Vec<PlanStep> = Vec::new();
    if selected == 0 {
        p.push(clear_step());
        p.push(write6(96, 0, clock_text(c)));
        p.push(write6(0, 0, "PeachCloud".to_owned()));
        p.push(write6(0, 18, "> Networking".to_owned()));
        p.push(write6(0, 27, "  System Stats".to_owned()));
        p.push(write6(0, 36, "  Display Off".to_owned()));
        p.push(write6(0, 45, "  Shutdown".to_owned()));
        p.push(flush_step());
        proof {
            assert(steps_view(p) =~= spec_home_root_plan(*c));
        }
    } else if selected <= 4 {
        p.push(write6(0, 18, marker(selected == 1)));
        p.push(write6(0, 27, marker(selected == 2)));
        p.push(write6(0, 36, marker(selected == 3)));
        p.push(write6(0, 45, marker(selected == 4)));
        p.push(flush_step());
        proof {
            assert(steps_view(p) =~= spec_home_marker_plan(selected));
        }
    } else {
        proof {
            assert(steps_view(p) =~= Seq::<StepV>::empty());
        }
    }
    p
}

/// The network status screen's plan in client mode: the wireless interface
/// is up, so show its status, network name, address and signal strength.
pub open spec fn spec_network_client_plan(v: NetworkSnapshotV) -> Seq<StepV> {
    seq![
        StepV::Command(CommandV::Clear),
        spec_write6(0, 0, "MODE Client"@),
        spec_write6(0, 9, "STATUS "@ + spec_or_default(v.wlan_state, "Error"@)),
        spec_write6(0, 18, "NETWORK "@ + spec_or_default(v.wlan_ssid, "Not connected"@)),
        spec_write6(0, 27, "IP "@ + spec_or_default(v.wlan_ip, "x.x.x.x"@)),
        spec_write6(0, 36, "SIGNAL "@ + spec_or_default(v.wlan_rssi, "_"@) + "dBm"@),
        spec_write6(0, 54, "> Configuration"@),
        StepV::Command(CommandV::Flush),
    ]
}

/// The network status screen's plan in access-point mode: the wireless
/// interface is not up, so show the access point's state and address and
/// the fixed network name.
pub open spec fn spec_network_ap_plan(v: NetworkSnapshotV) -> Seq<StepV> {
    seq![
        StepV::Command(CommandV::Clear),
        spec_write6(0, 0, "MODE Access Point"@),
        spec_write6(0, 9, "STATUS "@ + spec_or_default(v.ap_state, "Error"@)),
        spec_write6(0, 18, "NETWORK peach"@),
        spec_write6(0, 27, "IP "@ + spec_or_default(v.ap_ip, "x.x.x.x"@)),
        spec_write6(0, 54, "> Configuration"@),
        StepV::Command(CommandV::Flush),
    ]
}

/// Whether a network snapshot shows the device in client mode: the
/// wireless interface's state reads `"up"`.
pub open spec fn spec_client_mode(v: NetworkSnapshotV) -> bool {
    spec_or_default(v.wlan_state, "Error"@) == "up"@
}

/// The network status screen's plan: the client-mode fields when the
/// wireless interface is up, the access-point fields otherwise.
pub open spec fn spec_network_plan(v: NetworkSnapshotV) -> Seq<StepV> {
    if spec_client_mode(v) {
        spec_network_client_plan(v)
    } else {
        spec_network_ap_plan(v)
    }
}

/// Renders the network status screen from a fresh snapshot.
pub fn state_network(snap: &NetworkSnapshot) -> (p: Vec<PlanStep>)
    ensures
        steps_view(p) == spec_network_plan(snap@),
{
    let status = or_default(&snap.wlan_state, "Error");
    let up: String = "up".to_owned();
    let mut p: Vec<PlanStep> = Vec::new();
    if status == up {
        let line_status = "STATUS ".to_owned().concat(status.as_str());
        let line_ssid = "NETWORK ".to_owned().concat(
            or_default(&snap.wlan_ssid, "Not connected").as_str(),
        );
        let line_ip = "IP ".to_owned().concat(or_default(&snap.wlan_ip, "x.x.x.x").as_str());
        let line_rssi = "SIGNAL ".to_owned().concat(
            or_default(&snap.wlan_rssi, "_").as_str(),
        ).concat("dBm");
        p.push(clear_step());
        p.push(write6(0, 0, "MODE Client".to_owned()));
        p.push(write6(0, 9, line_status));
        p.push(write6(0, 18, line_ssid));
        p.push(write6(0, 27, line_ip));
        p.push(write6(0, 36, line_rssi));
        p.push(write6(0, 54, "> Configuration".to_owned()));
        p.push(flush_step());
        proof {
            assert(steps_view(p) =~= spec_network_client_plan(snap@));
        }
    } else {
        let line_status = "STATUS ".to_owned().concat(
            or_default(&snap.ap_state, "Error").as_str(),
        );
        let line_ip = "IP ".to_owned().concat(or_default(&snap.ap_ip, "x.x.x.x").as_str());
        p.push(clear_step());
        p.push(write6(0, 0, "MODE Access Point".to_owned()));
        p.push(write6(0, 9, line_status));
        p.push(write6(0, 18, "NETWORK peach".to_owned()));
        p.push(write6(0, 27, line_ip));
        p.push(write6(0, 54, "> Configuration".to_owned()));
        p.push(flush_step());
        proof {
            assert(steps_view(p) =~= spec_network_ap_plan(snap@));
        }
    }
    p
}

/// The network configuration screen's plan for a given cursor position:
/// the full two-row screen at the root, and the marker-only rewrite when
/// the cursor moves to the client or access-point row.
pub open spec fn spec_network_conf_plan(selected: u8) -> Seq<StepV> {
    if selected == 0 {
        seq![
            StepV::Command(CommandV::Clear),
            spec_write6(0, 0, "> Client Mode"@),
            spec_write6(0, 9, "  Access Point Mode"@),
            StepV::Command(CommandV::Flush),
        ]
    } else if selected == 1 {
        seq![
            spec_write6(0, 0, spec_marker(true)),
            spec_write6(0, 9, spec_marker(false)),
            StepV::Command(CommandV::Flush),
        ]
    } else if selected == 2 {
        seq![
            spec_write6(0, 0, spec_marker(false)),
            spec_write6(0, 9, spec_marker(true)),
            StepV::Command(CommandV::Flush),
        ]
    } else {
        Seq::empty()
    }
}

/// Renders the network configuration screen: `selected` 0 is the root, 1
/// highlights client mode, 2 highlights access-point mode.
pub fn state_network_conf(selected: u8) -> (p: Vec<PlanStep>)
    ensures
        steps_view(p) == spec_network_conf_plan(selected),
{
    let mut p: Vec<PlanStep> = Vec::new();
    if selected == 0 {
        p.push(clear_step());
        p.push(write6(0, 0, "> Client Mode".to_owned()));
        p.push(write6(0, 9, "  Access Point Mode".to_owned()));
        p.push(flush_step());
        proof {
            assert(steps_view(p) =~= spec_network_conf_plan(selected));
        }
    } else if selected == 1 {
        p.push(write6(0, 0, marker(true)));
        p.push(write6(0, 9, marker(false)));
        p.push(flush_step());
        proof {
            assert(steps_view(p) =~= spec_network_conf_plan(selected));
        }
    } else if selected == 2 {
        p.push(write6(0, 0, marker(false)));
        p.push(write6(0, 9, marker(true)));
        p.push(flush_step());
        proof {
            assert(steps_view(p) =~= spec_network_conf_plan(selected));
        }
    } else {
        proof {
            assert(steps_view(p) =~= Seq::<StepV>::empty());
        }
    }
    p
}

/// The plan for switching the network mode: announce the change, ask the
/// network service to make it, then show the configuration screen with the
/// new mode highlighted. Mode 0 activates the wireless client, mode 1
/// deploys the access point.
pub open spec fn spec_network_mode_plan(mode: u8) -> Seq<StepV> {
    if mode == 0 {
        seq![
            StepV::Command(CommandV::Clear),
            spec_write6(24, 16, "ACTIVATING"@),
            spec_write6(24, 27, "WIRELESS"@),
            spec_write6(24, 38, "CONNECTION..."@),
            StepV::Command(CommandV::Flush),
            StepV::ActivateClient,
            StepV::Command(CommandV::Clear),
            spec_write6(0, 0, "> Client mode"@),
            spec_write6(0, 9, "  Access point mode"@),
            StepV::Command(CommandV::Flush),
        ]
    } else if mode == 1 {
        seq![
            StepV::Command(CommandV::Clear),
            spec_write6(27, 16, "DEPLOYING"@),
            spec_write6(27, 27, "ACCESS"@),
            spec_write6(27, 38, "POINT..."@),
            StepV::Command(CommandV::Flush),
            StepV::ActivateAp,
            StepV::Command(CommandV::Clear),
            spec_write6(0, 0, "  Client mode"@),
            spec_write6(0, 9, "> Access point mode"@),
            StepV::Command(CommandV::Flush),
        ]
    } else {
        Seq::empty()
    }
}

/// Renders the network mode change: 0 activates the wireless client, 1
/// deploys the access point, anything else does nothing.
pub fn state_network_mode(mode: u8) -> (p: Vec<PlanStep>)
    ensures
        steps_view(p) == spec_network_mode_plan(mode),
{
    let mut p: Vec<PlanStep> = Vec::new();
    if mode == 0 {
        p.push(clear_step());
        p.push(write6(24, 16, "ACTIVATING".to_owned()));
        p.push(write6(24, 27, "WIRELESS".to_owned()));
        p.push(write6(24, 38, "CONNECTION...".to_owned()));
        p.push(flush_step());
        p.push(PlanStep::ActivateClient);
        p.push(clear_step());
        p.push(write6(0, 0, "> Client mode".to_owned()));
        p.push(write6(0, 9, "  Access point mode".to_owned()));
        p.push(flush_step());
        proof {
            assert(steps_view(p) =~= spec_network_mode_plan(mode));
        }
    } else if mode == 1 {
        p.push(clear_step());
        p.push(write6(27, 16, "DEPLOYING".to_owned()));
        p.push(write6(27, 27, "ACCESS".to_owned()));
        p.push(write6(27, 38, "POINT...".to_owned()));
        p.push(flush_step());
        p.push(PlanStep::ActivateAp);
        p.push(clear_step());
        p.push(write6(0, 0, "  Client mode".to_owned()));
        p.push(write6(0, 9, "> Access point mode".to_owned()));
        p.push(flush_step());
        proof {
            assert(steps_view(p) =~= spec_network_mode_plan(mode));
        }
    } else {
        proof {
            assert(steps_view(p) =~= Seq::<StepV>::empty());
        }
    }
    p
}

/// The terminal shutdown plan: announce the shutdown, flush, wait the
/// settling delay, power the display panel off, and invoke the operating
/// system's shutdown — each exactly once.
pub open spec fn spec_shutdown_plan() -> Seq<StepV> {
    seq![
        StepV::Command(CommandV::Clear),
        spec_write6(27, 16, "SHUTTING"@),
        spec_write6(27, 27, "DOWN"@),
        spec_write6(27, 38, "DEVICE..."@),
        StepV::Command(CommandV::Flush),
        StepV::Settle,
        StepV::Command((CommandV::Power { on: false })),
        StepV::OsShutdown,
    ]
}

/// Renders the terminal shutdown screen and its power-off sequence.
pub fn state_shutdown() -> (p: Vec<PlanStep>)
    ensures
        steps_view(p) == spec_shutdown_plan(),
{
    let mut p: Vec<PlanStep> = Vec::new();
    p.push(clear_step());
    p.push(write6(27, 16, "SHUTTING".to_owned()));
    p.push(write6(27, 27, "DOWN".to_owned()));
    p.push(write6(27, 38, "DEVICE...".to_owned()));
    p.push(flush_step());
    p.push(PlanStep::Settle);
    p.push(power_step(false));
    p.push(PlanStep::OsShutdown);
    proof {
        assert(steps_view(p) =~= spec_shutdown_plan());
    }
    p
}

/// The system statistics lines, formatted exactly as displayed.
pub open spec fn spec_cpu_line(v: StatsSnapshotV) -> Seq<char> {
    "CPU "@ + spec_dec(v.cpu_user as nat) + " us "@ + spec_dec(v.cpu_system as nat) + " sy "@
        + spec_dec(v.cpu_idle as nat) + " id"@
}

/// The memory line: free and used, in whole megabytes.
pub open spec fn spec_mem_line(v: StatsSnapshotV) -> Seq<char> {
    "MEM "@ + spec_dec((v.mem_free / 1024) as nat) + "MB f "@ + spec_dec(
        (v.mem_used / 1024) as nat,
    ) + "MB u"@
}

/// The load-average line: the three preformatted readings.
pub open spec fn spec_load_line(v: StatsSnapshotV) -> Seq<char> {
    "LOAD "@ + v.load_one + " "@ + v.load_five + " "@ + v.load_fifteen
}

/// The uptime line, in whole minutes.
pub open spec fn spec_uptime_line(v: StatsSnapshotV) -> Seq<char> {
    "UPTIME "@ + spec_dec((v.uptime_secs / 60) as nat) + " hrs"@
}

/// The received-traffic line, in whole megabytes.
pub open spec fn spec_rx_line(v: StatsSnapshotV) -> Seq<char> {
    "DATA RX "@ + spec_dec((v.rx_bytes / 1024 / 1024) as nat) + "MB"@
}

/// The transmitted-traffic line, in whole megabytes.
pub open spec fn spec_tx_line(v: StatsSnapshotV) -> Seq<char> {
    "DATA TX "@ + spec_dec((v.tx_bytes / 1024 / 1024) as nat) + "MB"@
}

/// The statistics screen's plan: clear, the six statistics lines, flush.
pub open spec fn spec_stats_plan(v: StatsSnapshotV) -> Seq<StepV> {
    seq![
        StepV::Command(CommandV::Clear),
        spec_write6(0, 0, spec_cpu_line(v)),
        spec_write6(0, 9, spec_mem_line(v)),
        spec_write6(0, 18, spec_load_line(v)),
        spec_write6(0, 27, spec_uptime_line(v)),
        spec_write6(0, 36, spec_rx_line(v)),
        spec_write6(0, 45, spec_tx_line(v)),
        StepV::Command(CommandV::Flush),
    ]
}

/// Renders the system statistics screen from a fresh snapshot.
pub fn state_stats(snap: &StatsSnapshot) -> (p: Vec<PlanStep>)
    ensures
        steps_view(p) == spec_stats_plan(snap@),
{
    let cpu_line = "CPU ".to_owned().concat(u64_string(snap.cpu_user).as_str()).concat(
        " us ",
    ).concat(u64_string(snap.cpu_system).as_str()).concat(" sy ").concat(
        u64_string(snap.cpu_idle).as_str(),
    ).concat(" id");
    let mem_line = "MEM ".to_owned().concat(u64_string(snap.mem_free / 1024).as_str()).concat(
        "MB f ",
    ).concat(u64_string(snap.mem_used / 1024).as_str()).concat("MB u");
    let load_line = "LOAD ".to_owned().concat(snap.load_one.as_str()).concat(" ").concat(
        snap.load_five.as_str(),
    ).concat(" ").concat(snap.load_fifteen.as_str());
    let uptime_line = "UPTIME ".to_owned().concat(
        u64_string(snap.uptime_secs / 60).as_str(),
    ).concat(" hrs");
    let rx_line = "DATA RX ".to_owned().concat(
        u64_string(snap.rx_bytes / 1024 / 1024).as_str(),
    ).concat("MB");
    let tx_line = "DATA TX ".to_owned().concat(
        u64_string(snap.tx_bytes / 1024 / 1024).as_str(),
    ).concat("MB");
    proof {
        assert(cpu_line@ =~= spec_cpu_line(snap@));
        assert(mem_line@ =~= spec_mem_line(snap@));
        assert(load_line@ =~= spec_load_line(snap@));
        assert(uptime_line@ =~= spec_uptime_line(snap@));
        assert(rx_line@ =~= spec_rx_line(snap@));
        assert(tx_line@ =~= spec_tx_line(snap@));
    }
    let mut p: Vec<PlanStep> = Vec::new();
    p.push(clear_step());
    p.push(write6(0, 0, cpu_line));
    p.push(write6(0, 9, mem_line));
    p.push(write6(0, 18, load_line));
    p.push(write6(0, 27, uptime_line));
    p.push(write6(0, 36, rx_line));
    p.push(write6(0, 45, tx_line));
    p.push(flush_step());
    proof {
        assert(steps_view(p) =~= spec_stats_plan(snap@));
    }
    p
}

/// The complete render function: the ordered command sequence for a screen,
/// given the live data gathered for it. A screen whose data is missing or
/// of the wrong kind renders nothing.
pub open spec fn spec_render(s: State, t: TelemetryV) -> Seq<StepV> {
    match s {
        State::ActivateAp => spec_network_mode_plan(1),
        State::ActivateClient => spec_network_mode_plan(0),
        State::Home(n) => if n == 0 {
            match t {
                TelemetryV::Clock(c) => spec_home_root_plan(c),
                _ => Seq::empty(),
            }
        } else if n <= 4 {
            spec_home_marker_plan(n)
        } else {
            Seq::empty()
        },
        State::Logo => spec_logo_plan(),
        State::Network => match t {
            TelemetryV::Network(v) => spec_network_plan(v),
            _ => Seq::empty(),
        },
        State::NetworkConf => spec_network_conf_plan(0),
        State::NetworkConfClient => spec_network_conf_plan(1),
        State::NetworkConfAp => spec_network_conf_plan(2),
        State::PowerOff => seq![StepV::Command((CommandV::Power { on: false }))],
        State::PowerOn => seq![StepV::Command((CommandV::Power { on: true }))],
        State::Shutdown => spec_shutdown_plan(),
        State::Stats => match t {
            TelemetryV::Stats(v) => spec_stats_plan(v),
            _ => Seq::empty(),
        },
    }
}

/// Rendering is deterministic: one screen and one snapshot value determine
/// one command sequence, so rendering the same screen twice with the same
/// snapshot issues identical commands.
pub proof fn lemma_render_deterministic(s: State, t: TelemetryV, p1: Seq<StepV>, p2: Seq<StepV>)
    requires
        p1 == spec_render(s, t),
        p2 == spec_render(s, t),
    ensures
        p1 == p2,
{
}

/// The shutdown plan powers the display panel off exactly once and invokes
/// the operating system's shutdown exactly once: each stands at one fixed
/// position of the plan and nowhere else.
pub proof fn lemma_shutdown_effects_once()
    ensures
        spec_shutdown_plan().len() == 8,
        forall|i: int|
            0 <= i < 8 ==> ((spec_shutdown_plan()[i] == StepV::OsShutdown) <==> i == 7),
        forall|i: int|
            0 <= i < 8 ==> ((spec_shutdown_plan()[i] == StepV::Command(
                (CommandV::Power { on: false }),
            )) <==> i == 6),
{
}

/// Only the terminal shutdown screen's plan ever invokes the operating
/// system's shutdown; no other screen's render can power the device down.
pub proof fn lemma_only_shutdown_plan_shuts_down(s: State, t: TelemetryV)
    ensures
        has_os_shutdown(spec_render(s, t)) <==> s == State::Shutdown,
{
    let p = spec_render(s, t);
    if s == State::Shutdown {
        assert(p[7] == StepV::OsShutdown);
    } else {
        assert forall|i: int| 0 <= i < p.len() implies p[i] != StepV::OsShutdown by {
            assert(p == spec_render(s, t));
        }
    }
}

/// The marker rows a home submenu plan leaves on the display: each of the
/// four menu rows is rewritten — the selected one marked, the others
/// erased — so the outcome does not depend on which row was marked before
/// the plan ran.
pub proof fn lemma_home_marker_plan_covers(rows: Map<int, Seq<char>>, selected: u8)
    requires
        1 <= selected <= 4,
    ensures
        ({
            let m = apply_writes(rows, spec_home_marker_plan(selected));
            &&& m[18] == spec_marker(selected == 1)
            &&& m[27] == spec_marker(selected == 2)
            &&& m[36] == spec_marker(selected == 3)
            &&& m[45] == spec_marker(selected == 4)
        }),
{
    let p = spec_home_marker_plan(selected);
    let q4 = seq![
        spec_write6(0, 18, spec_marker(selected == 1)),
        spec_write6(0, 27, spec_marker(selected == 2)),
        spec_write6(0, 36, spec_marker(selected == 3)),
        spec_write6(0, 45, spec_marker(selected == 4)),
    ];
    let q3 = q4.drop_last();
    let q2 = q3.drop_last();
    let q1 = q2.drop_last();
    assert(p.drop_last() =~= q4);
    assert(apply_writes(rows, p) == apply_writes(rows, q4));
    assert(apply_writes(rows, q4) == apply_writes(rows, q3).insert(
        45,
        spec_marker(selected == 4),
    ));
    assert(apply_writes(rows, q3) == apply_writes(rows, q2).insert(
        36,
        spec_marker(selected == 3),
    ));
    assert(apply_writes(rows, q2) == apply_writes(rows, q1).insert(
        27,
        spec_marker(selected == 2),
    ));
    assert(q1.drop_last() =~= Seq::<StepV>::empty());
    assert(apply_writes(rows, Seq::<StepV>::empty()) == rows);
    assert(apply_writes(rows, q1) == rows.insert(18, spec_marker(selected == 1)));
}

/// The same coverage for the network configuration submenu: moving the
/// cursor rewrites both of its rows, so the outcome does not depend on the
/// previous marker position.
pub proof fn lemma_conf_marker_plan_covers(rows: Map<int, Seq<char>>, selected: u8)
    requires
        selected == 1 || selected == 2,
    ensures
        ({
            let m = apply_writes(rows, spec_network_conf_plan(selected));
            &&& m[0] == spec_marker(selected == 1)
            &&& m[9] == spec_marker(selected == 2)
        }),
{
    let p = spec_network_conf_plan(selected);
    let q2 = seq![
        spec_write6(0, 0, spec_marker(selected == 1)),
        spec_write6(0, 9, spec_marker(selected == 2)),
    ];
    let q1 = q2.drop_last();
    assert(p.drop_last() =~= q2);
    assert(apply_writes(rows, p) == apply_writes(rows, q2));
    assert(apply_writes(rows, q2) == apply_writes(rows, q1).insert(
        9,
        spec_marker(selected == 2),
    ));
    assert(q1.drop_last() =~= Seq::<StepV>::empty());
    assert(apply_writes(rows, Seq::<StepV>::empty()) == rows);
    assert(apply_writes(rows, q1) == rows.insert(0, spec_marker(selected == 1)));
}

impl State {
    /// Computes the render plan for this screen from the live data gathered
    /// for it. Pure: the same screen and snapshot always yield the same
    /// plan.
    pub fn render(&self, t: &TelemetrySnapshot) -> (p: Vec<PlanStep>)
        requires
            telemetry_ok(*self, t@),
        ensures
            steps_view(p) == spec_render(*self, t@),
    {
        match self {
            State::ActivateAp => state_network_mode(1),
            State::ActivateClient => state_network_mode(0),
            State::Home(n) => match t {
                TelemetrySnapshot::Clock(c) if *n == 0 => state_home(0, c),
                _ => state_home(*n, &(Clock { hour: 0, minute: 0 })),
            },
            State::Logo => state_logo(),
            State::Network => match t {
                TelemetrySnapshot::Network(v) => state_network(v),
                _ => Vec::new(),
            },
            State::NetworkConf => state_network_conf(0),
            State::NetworkConfClient => state_network_conf(1),
            State::NetworkConfAp => state_network_conf(2),
            State::PowerOff => {
                let mut p: Vec<PlanStep> = Vec::new();
                p.push(power_step(false));
                proof {
                    assert(steps_view(p) =~= spec_render(State::PowerOff, t@));
                }
                p
            },
            State::PowerOn => {
                let mut p: Vec<PlanStep> = Vec::new();
                p.push(power_step(true));
                proof {
                    assert(steps_view(p) =~= spec_render(State::PowerOn, t@));
                }
                p
            },
            State::Shutdown => state_shutdown(),
            State::Stats => match t {
                TelemetrySnapshot::Stats(v) => state_stats(v),
                _ => Vec::new(),
            },
        }
    }
}

} // verus!
