use vstd::prelude::*;
use crate::state_machine::State;

verus! {

/// The wall-clock reading shown in the home screen's header.
#[derive(Debug, Clone, Copy, PartialEq, Eq, Structural)]
pub struct Clock {
    pub hour: u8,
    pub minute: u8,
}

impl Clock {
    /// A reading the clock can actually produce.
    pub open spec fn wf(self) -> bool {
        self.hour < 24 && self.minute < 60
    }
}

/// A point-in-time read of the network services, gathered fresh for every
/// render of the network screen. A `None` field records that the query for
/// it failed; the renderer substitutes a fixed placeholder.
#[derive(Debug, Clone, PartialEq, Eq)]
pub struct NetworkSnapshot {
    /// State of the wireless client interface (`"up"` when in client mode).
    pub wlan_state: Option<String>,
    /// IP address of the wireless client interface.
    pub wlan_ip: Option<String>,
    /// SSID the wireless client is connected to.
    pub wlan_ssid: Option<String>,
    /// Signal strength of the wireless client connection, in dBm.
    pub wlan_rssi: Option<String>,
    /// State of the access-point interface.
    pub ap_state: Option<String>,
    /// IP address of the access-point interface.
    pub ap_ip: Option<String>,
}

/// The mathematical value of a [`NetworkSnapshot`]: each text field as a
/// sequence of characters.
pub struct NetworkSnapshotV {
    pub wlan_state: Option<Seq<char>>,
    pub wlan_ip: Option<Seq<char>>,
    pub wlan_ssid: Option<Seq<char>>,
    pub wlan_rssi: Option<Seq<char>>,
    pub ap_state: Option<Seq<char>>,
    pub ap_ip: Option<Seq<char>>,
}

/// The view of an optional text field.
pub open spec fn opt_view(o: Option<String>) -> Option<Seq<char>> {
    match o {
        Option::Some(s) => Option::Some(s@),
        Option::None => Option::None,
    }
}

impl View for NetworkSnapshot {
    type V = NetworkSnapshotV;

    open spec fn view(&self) -> NetworkSnapshotV {
        NetworkSnapshotV {
            wlan_state: opt_view(self.wlan_state),
            wlan_ip: opt_view(self.wlan_ip),
            wlan_ssid: opt_view(self.wlan_ssid),
            wlan_rssi: opt_view(self.wlan_rssi),
            ap_state: opt_view(self.ap_state),
            ap_ip: opt_view(self.ap_ip),
        }
    }
}

/// A point-in-time read of the system statistics services, gathered fresh
/// for every render of the stats screen. CPU percentages arrive already
/// rounded to whole numbers; load averages arrive preformatted, since only
/// their text is displayed.
#[derive(Debug, Clone, PartialEq, Eq)]
pub struct StatsSnapshot {
    pub cpu_user: u64,
    pub cpu_system: u64,
    pub cpu_idle: u64,
    /// Free memory in kilobytes.
    pub mem_free: u64,
    /// Used memory in kilobytes.
    pub mem_used: u64,
    pub load_one: String,
    pub load_five: String,
    pub load_fifteen: String,
    /// System uptime in seconds.
    pub uptime_secs: u64,
    /// Bytes received on the wireless interface.
    pub rx_bytes: u64,
    /// Bytes transmitted on the wireless interface.
    pub tx_bytes: u64,
}

/// The mathematical value of a [`StatsSnapshot`].
pub struct StatsSnapshotV {
    pub cpu_user: u64,
    pub cpu_system: u64,
    pub cpu_idle: u64,
    pub mem_free: u64,
    pub mem_used: u64,
    pub load_one: Seq<char>,
    pub load_five: Seq<char>,
    pub load_fifteen: Seq<char>,
    pub uptime_secs: u64,
    pub rx_bytes: u64,
    pub tx_bytes: u64,
}

impl View for StatsSnapshot {
    type V = StatsSnapshotV;

    open spec fn view(&self) -> StatsSnapshotV {
        StatsSnapshotV {
            cpu_user: self.cpu_user,
            cpu_system: self.cpu_system,
            cpu_idle: self.cpu_idle,
            mem_free: self.mem_free,
            mem_used: self.mem_used,
            load_one: self.load_one@,
            load_five: self.load_five@,
            load_fifteen: self.load_fifteen@,
            uptime_secs: self.uptime_secs,
            rx_bytes: self.rx_bytes,
            tx_bytes: self.tx_bytes,
        }
    }
}

/// The live data gathered for one render: nothing, a clock reading, a
/// network snapshot, or a statistics snapshot, depending on the screen.
#[derive(Debug, Clone, PartialEq, Eq)]
pub enum TelemetrySnapshot {
    NoData,
    Clock(Clock),
    Network(NetworkSnapshot),
    Stats(StatsSnapshot),
}

/// The mathematical value of a [`TelemetrySnapshot`].
pub enum TelemetryV {
    NoData,
    Clock(Clock),
    Network(NetworkSnapshotV),
    Stats(StatsSnapshotV),
}

impl View for TelemetrySnapshot {
    type V = TelemetryV;

    open spec fn view(&self) -> TelemetryV {
        match self {
            TelemetrySnapshot::NoData => TelemetryV::NoData,
            TelemetrySnapshot::Clock(c) => TelemetryV::Clock(*c),
            TelemetrySnapshot::Network(n) => TelemetryV::Network(n@),
            TelemetrySnapshot::Stats(s) => TelemetryV::Stats(s@),
        }
    }
}

/// The kind of live data a screen needs before it can be rendered.
#[derive(Debug, Clone, Copy, PartialEq, Eq, Structural)]
pub enum TelemetryQuery {
    NoQuery,
    ClockQuery,
    NetworkQuery,
    StatsQuery,
}

/// Which live data each screen's render needs: the home root shows the
/// clock, the network screen shows interface data, the stats screen shows
/// system statistics, and every other screen renders from fixed text alone.
pub open spec fn spec_query(s: State) -> TelemetryQuery {
    match s {
        State::Home(n) => if n == 0 {
            TelemetryQuery::ClockQuery
        } else {
            TelemetryQuery::NoQuery
        },
        State::Network => TelemetryQuery::NetworkQuery,
        State::Stats => TelemetryQuery::StatsQuery,
        _ => TelemetryQuery::NoQuery,
    }
}

/// Tells the caller which live data to gather before rendering `s`.
pub fn telemetry_query(s: &State) -> (q: TelemetryQuery)
    ensures
        q == spec_query(*s),
{
    match s {
        State::Home(0) => TelemetryQuery::ClockQuery,
        State::Network => TelemetryQuery::NetworkQuery,
        State::Stats => TelemetryQuery::StatsQuery,
        _ => TelemetryQuery::NoQuery,
    }
}

/// Whether a gathered snapshot is the right kind, and well formed, for
/// rendering the screen `s`.
pub open spec fn telemetry_ok(s: State, t: TelemetryV) -> bool {
    match spec_query(s) {
        TelemetryQuery::NoQuery => true,
        TelemetryQuery::ClockQuery => t matches TelemetryV::Clock(c) && c.wf(),
        TelemetryQuery::NetworkQuery => t matches TelemetryV::Network(_),
        TelemetryQuery::StatsQuery => t matches TelemetryV::Stats(_),
    }
}

/// Relies on chrono: `Local::now` returns the current local date and time,
/// and `Timelike::hour` and `Timelike::minute` on its time component return
/// the hour number from 0 to 23 and the minute number from 0 to 59.
#[verifier::external_body]
fn local_hour_minute() -> (r: (u8, u8))
    ensures
        r.0 < 24,
        r.1 < 60,
{
    let now = chrono::Local::now();
    let t = now.time();
    (chrono::Timelike::hour(&t) as u8, chrono::Timelike::minute(&t) as u8)
}

/// Reads the wall clock, for the home screen's header.
pub fn clock_now() -> (c: Clock)
    ensures
        c.wf(),
{
    let (hour, minute) = local_hour_minute();
    Clock { hour, minute }
}

} // verus!
