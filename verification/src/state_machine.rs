use vstd::prelude::*;

verus! {

/// The button-press events that drive the menu.
#[derive(Debug, Clone, Copy, PartialEq, Eq, Structural)]
pub enum Event {
    Center,
    Left,
    Right,
    Down,
    Up,
    A,
    B,
    Unknown,
}

/// The screens of the menu state machine.
///
/// `Home` carries the index of the highlighted menu row.
#[derive(Debug, Clone, Copy, PartialEq, Eq, Structural)]
pub enum State {
    ActivateAp,
    ActivateClient,
    Home(u8),
    Logo,
    Network,
    NetworkConf,
    NetworkConfAp,
    NetworkConfClient,
    PowerOff,
    PowerOn,
    Shutdown,
    Stats,
}

/// The event a raw button code denotes: codes 0 through 6 name the seven
/// physical buttons; every other code means `Unknown`.
pub open spec fn spec_event(code: u8) -> Event {
    if code == 0 {
        Event::Center
    } else if code == 1 {
        Event::Left
    } else if code == 2 {
        Event::Right
    } else if code == 3 {
        Event::Up
    } else if code == 4 {
        Event::Down
    } else if code == 5 {
        Event::A
    } else if code == 6 {
        Event::B
    } else {
        Event::Unknown
    }
}

impl Event {
    /// Normalizes a raw button code into an event.
    pub fn from_code(code: u8) -> (e: Event)
        ensures
            e == spec_event(code),
    {
        match code {
            0 => Event::Center,
            1 => Event::Left,
            2 => Event::Right,
            3 => Event::Up,
            4 => Event::Down,
            5 => Event::A,
            6 => Event::B,
            _ => Event::Unknown,
        }
    }
}

/// The transition on the home screen: `B` backs out to the logo, `Up` and
/// `Down` move the cursor one row (wrapping between rows 1 and 4), `A`
/// enters the highlighted entry, and everything else returns to the root
/// row.
pub open spec fn spec_next_home(n: u8, e: Event) -> State {
    if e == Event::B {
        State::Logo
    } else if n == 0 {
        match e {
            Event::Down => State::Home(1),
            Event::Up => State::Home(4),
            Event::A => State::Network,
            _ => State::Home(0),
        }
    } else if n == 1 {
        match e {
            Event::Down => State::Home(2),
            Event::Up => State::Home(4),
            Event::A => State::Network,
            _ => State::Home(0),
        }
    } else if n == 2 {
        match e {
            Event::Down => State::Home(3),
            Event::Up => State::Home(1),
            Event::A => State::Stats,
            _ => State::Home(0),
        }
    } else if n == 3 {
        match e {
            Event::Down => State::Home(4),
            Event::Up => State::Home(2),
            Event::A => State::PowerOff,
            _ => State::Home(0),
        }
    } else if n == 4 {
        match e {
            Event::Down => State::Home(1),
            Event::Up => State::Home(3),
            Event::A => State::Shutdown,
            _ => State::Home(0),
        }
    } else {
        State::Home(0)
    }
}

/// The complete transition table: a total function from the current screen
/// and an event to the next screen. Every pair without an explicit rule
/// maps to the current screen unchanged.
pub open spec fn spec_next(s: State, e: Event) -> State {
    match s {
        State::Logo => if e == Event::A {
            State::Home(0)
        } else {
            s
        },
        State::Home(n) => spec_next_home(n, e),
        State::Network => match e {
            Event::A => State::NetworkConf,
            Event::B => State::Home(0),
            _ => s,
        },
        State::NetworkConf => match e {
            Event::A => State::ActivateClient,
            Event::B => State::Network,
            Event::Down => State::NetworkConfAp,
            Event::Up => State::NetworkConfAp,
            _ => s,
        },
        State::NetworkConfClient => match e {
            Event::A => State::ActivateClient,
            Event::B => State::Network,
            Event::Down => State::NetworkConfAp,
            Event::Up => State::NetworkConfAp,
            _ => s,
        },
        State::NetworkConfAp => match e {
            Event::A => State::ActivateAp,
            Event::B => State::Network,
            Event::Down => State::NetworkConfClient,
            Event::Up => State::NetworkConfClient,
            _ => s,
        },
        State::PowerOff => State::PowerOn,
        State::Stats => if e == Event::B {
            State::Home(0)
        } else {
            s
        },
        State::ActivateAp => match e {
            Event::B => State::Network,
            Event::Down => State::NetworkConfClient,
            Event::Up => State::NetworkConfClient,
            _ => s,
        },
        State::ActivateClient => match e {
            Event::B => State::Network,
            Event::Down => State::NetworkConfAp,
            Event::Up => State::NetworkConfAp,
            _ => s,
        },
        State::PowerOn => s,
        State::Shutdown => s,
    }
}

/// Whether the transition table holds an explicit rule for this pair.
/// Pairs without one are covered by the identity fallback alone.
pub open spec fn has_rule(s: State, e: Event) -> bool {
    match s {
        State::Logo => e == Event::A,
        State::Home(_) => true,
        State::Network => e == Event::A || e == Event::B,
        State::NetworkConf => e == Event::A || e == Event::B || e == Event::Down || e
            == Event::Up,
        State::NetworkConfClient => e == Event::A || e == Event::B || e == Event::Down || e
            == Event::Up,
        State::NetworkConfAp => e == Event::A || e == Event::B || e == Event::Down || e
            == Event::Up,
        State::PowerOff => true,
        State::PowerOn => false,
        State::Shutdown => false,
        State::Stats => e == Event::B,
        State::ActivateAp => e == Event::B || e == Event::Down || e == Event::Up,
        State::ActivateClient => e == Event::B || e == Event::Down || e == Event::Up,
    }
}

impl State {
    /// A screen the menu can reach: the home cursor never leaves the five
    /// menu rows.
    pub open spec fn wf(self) -> bool {
        match self {
            State::Home(n) => n <= 4,
            _ => true,
        }
    }

    /// Determines the next screen from the current screen and an event.
    /// Pure and total; unmatched combinations return the current screen.
    pub fn next(self, event: Event) -> (next: State)
        ensures
            next == spec_next(self, event),
            next.wf(),
    {
        match (self, event) {
            (State::Logo, Event::A) => State::Home(0),
            (State::Home(0), Event::Down) => State::Home(1),
            (State::Home(0), Event::Up) => State::Home(4),
            (State::Home(0), Event::A) => State::Network,
            (State::Home(_), Event::B) => State::Logo,
            (State::Home(1), Event::Down) => State::Home(2),
            (State::Home(1), Event::Up) => State::Home(4),
            (State::Home(1), Event::A) => State::Network,
            (State::Home(2), Event::Down) => State::Home(3),
            (State::Home(2), Event::Up) => State::Home(1),
            (State::Home(2), Event::A) => State::Stats,
            (State::Home(3), Event::Down) => State::Home(4),
            (State::Home(3), Event::Up) => State::Home(2),
            (State::Home(3), Event::A) => State::PowerOff,
            (State::Home(4), Event::Down) => State::Home(1),
            (State::Home(4), Event::Up) => State::Home(3),
            (State::Home(4), Event::A) => State::Shutdown,
            (State::Home(_), _) => State::Home(0),
            (State::Network, Event::A) => State::NetworkConf,
            (State::Network, Event::B) => State::Home(0),
            (State::NetworkConf, Event::A) => State::ActivateClient,
            (State::NetworkConf, Event::B) => State::Network,
            (State::NetworkConf, Event::Down) => State::NetworkConfAp,
            (State::NetworkConf, Event::Up) => State::NetworkConfAp,
            (State::NetworkConfClient, Event::A) => State::ActivateClient,
            (State::NetworkConfClient, Event::B) => State::Network,
            (State::NetworkConfClient, Event::Down) => State::NetworkConfAp,
            (State::NetworkConfClient, Event::Up) => State::NetworkConfAp,
            (State::NetworkConfAp, Event::A) => State::ActivateAp,
            (State::NetworkConfAp, Event::B) => State::Network,
            (State::NetworkConfAp, Event::Down) => State::NetworkConfClient,
            (State::NetworkConfAp, Event::Up) => State::NetworkConfClient,
            (State::PowerOff, _) => State::PowerOn,
            (State::Stats, Event::B) => State::Home(0),
            (State::ActivateAp, Event::B) => State::Network,
            (State::ActivateAp, Event::Down) => State::NetworkConfClient,
            (State::ActivateAp, Event::Up) => State::NetworkConfClient,
            (State::ActivateClient, Event::B) => State::Network,
            (State::ActivateClient, Event::Down) => State::NetworkConfAp,
            (State::ActivateClient, Event::Up) => State::NetworkConfAp,
            (s, _) => s,
        }
    }
}

/// Totality: from any screen, any event leads to a well-formed screen, even
/// from a home screen whose cursor index is out of range.
pub proof fn lemma_next_wf(s: State, e: Event)
    ensures
        spec_next(s, e).wf(),
{
}

/// Identity fallback: a pair without an explicit rule leaves the screen
/// unchanged.
pub proof fn lemma_no_rule_identity(s: State, e: Event)
    requires
        !has_rule(s, e),
    ensures
        spec_next(s, e) == s,
{
}

/// Every button code outside 0 through 6 means `Unknown`.
pub proof fn lemma_out_of_range_code_unknown(code: u8)
    requires
        code > 6,
    ensures
        spec_event(code) == Event::Unknown,
{
}

/// `Unknown` leaves a screen unchanged wherever the screen has no rule
/// covering it; only the home screens and `PowerOff` react to it.
pub proof fn lemma_unknown_identity(s: State)
    requires
        !(s matches State::Home(_)),
        s != State::PowerOff,
    ensures
        spec_next(s, Event::Unknown) == s,
{
    lemma_no_rule_identity(s, Event::Unknown);
}

} // verus!
