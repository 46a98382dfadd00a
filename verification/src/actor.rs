use vstd::prelude::*;
use crate::error::MenuError;
use crate::render::{has_os_shutdown, steps_view, PlanStep, StepV};
use crate::snapshot::{telemetry_ok, TelemetrySnapshot, TelemetryV};
use crate::state_machine::{spec_event, spec_next, Event, State};
use crate::states::{lemma_only_shutdown_plan_shuts_down, spec_render};

verus! {

/// Whether the actor is still consuming events or has issued the terminal
/// shutdown sequence and stopped.
#[derive(Debug, Clone, Copy, PartialEq, Eq, Structural)]
pub enum Phase {
    Running,
    Terminated,
}

/// The single consumer that owns the menu's current screen. Events are
/// applied one at a time: each accepted event replaces the screen through
/// the transition table, and the new screen is then rendered. Once the
/// shutdown screen has been rendered the actor is terminated and issues
/// nothing further, so the shutdown's side effects can never be repeated.
#[derive(Debug, Clone, Copy, PartialEq, Eq, Structural)]
pub struct MenuActor {
    pub state: State,
    pub phase: Phase,
}

/// One inbound notification from an upstream button publisher. Only the
/// `params` array matters to event handling: its first element is the
/// button code, and a notification without one is not a button event.
#[derive(Debug, Clone, PartialEq, Eq)]
pub struct EventMessage {
    pub params: Option<Vec<u8>>,
}

/// The mathematical value of an [`EventMessage`].
pub struct EventMessageV {
    pub params: Option<Seq<u8>>,
}

impl View for EventMessage {
    type V = EventMessageV;

    open spec fn view(&self) -> EventMessageV {
        EventMessageV {
            params: match self.params {
                Option::Some(p) => Option::Some(p@),
                Option::None => Option::None,
            },
        }
    }
}

/// The button code a notification carries: the first element of its
/// `params` array, or nothing when the array is missing or empty.
pub open spec fn spec_button_code(m: EventMessageV) -> Option<u8> {
    match m.params {
        Option::Some(p) => if p.len() > 0 {
            Option::Some(p[0])
        } else {
            Option::None
        },
        Option::None => Option::None,
    }
}

impl EventMessage {
    /// Extracts the button code, if this notification carries one.
    pub fn button_code(&self) -> (r: Option<u8>)
        ensures
            r == spec_button_code(self@),
    {
        match &self.params {
            Option::Some(p) => if p.len() > 0 {
                Option::Some(p[0])
            } else {
                Option::None
            },
            Option::None => Option::None,
        }
    }
}

impl MenuActor {
    /// The starting configuration: running, on the boot logo screen.
    pub fn new() -> (a: MenuActor)
        ensures
            a.state == State::Logo,
            a.phase == Phase::Running,
    {
        MenuActor { state: State::Logo, phase: Phase::Running }
    }

    /// Applies one raw button code to the current screen. A terminated
    /// actor ignores it.
    pub fn handle_code(&mut self, code: u8)
        ensures
            old(self).phase == Phase::Running ==> *final(self) == (MenuActor {
                state: spec_next(old(self).state, spec_event(code)),
                phase: Phase::Running,
            }),
            old(self).phase == Phase::Terminated ==> *final(self) == *old(self),
    {
        if matches!(self.phase, Phase::Running) {
            self.state = self.state.next(Event::from_code(code));
        }
    }

    /// Applies one inbound notification. A malformed notification — one
    /// carrying no button code — changes nothing and is reported as such,
    /// so the consumer can log it and keep listening.
    pub fn handle_message(&mut self, msg: &EventMessage) -> (r: Result<(), MenuError>)
        ensures
            match spec_button_code(msg@) {
                Option::Some(code) => r is Ok && (old(self).phase == Phase::Running
                    ==> *final(self) == (MenuActor {
                    state: spec_next(old(self).state, spec_event(code)),
                    phase: Phase::Running,
                })) && (old(self).phase == Phase::Terminated ==> *final(self) == *old(self)),
                Option::None => r == Result::<(), MenuError>::Err(
                    MenuError::MalformedMessageError,
                ) && *final(self) == *old(self),
            },
    {
        match msg.button_code() {
            Option::Some(code) => {
                self.handle_code(code);
                Result::Ok(())
            },
            Option::None => Result::Err(MenuError::MalformedMessageError),
        }
    }

    /// Renders the current screen from the gathered snapshot. A running
    /// actor issues the screen's full plan and, when that screen is the
    /// terminal shutdown, becomes terminated; a terminated actor issues
    /// nothing at all.
    pub fn render(&mut self, t: &TelemetrySnapshot) -> (p: Vec<PlanStep>)
        requires
            old(self).phase == Phase::Running ==> telemetry_ok(old(self).state, t@),
        ensures
            final(self).state == old(self).state,
            old(self).phase == Phase::Terminated ==> *final(self) == *old(self) && steps_view(p)
                == Seq::<StepV>::empty(),
            old(self).phase == Phase::Running ==> steps_view(p) == spec_render(
                old(self).state,
                t@,
            ) && final(self).phase == (if old(self).state == State::Shutdown {
                Phase::Terminated
            } else {
                Phase::Running
            }),
            has_os_shutdown(steps_view(p)) ==> final(self).phase == Phase::Terminated,
    {
        if matches!(self.phase, Phase::Terminated) {
            let p: Vec<PlanStep> = Vec::new();
            proof {
                assert(steps_view(p) =~= Seq::<StepV>::empty());
            }
            p
        } else {
            let p = self.state.render(t);
            proof {
                lemma_only_shutdown_plan_shuts_down(self.state, t@);
            }
            if self.state == State::Shutdown {
                self.phase = Phase::Terminated;
            }
            p
        }
    }
}

/// One actor step as a mathematical function: the actor after accepting
/// one button code and rendering the resulting screen, with the plan it
/// issues. A terminated actor stays as it is and issues nothing.
pub open spec fn spec_step(a: MenuActor, code: u8, t: TelemetryV) -> (MenuActor, Seq<StepV>) {
    if a.phase == Phase::Terminated {
        (a, Seq::<StepV>::empty())
    } else {
        let next = spec_next(a.state, spec_event(code));
        let phase = if next == State::Shutdown {
            Phase::Terminated
        } else {
            Phase::Running
        };
        ((MenuActor { state: next, phase }), spec_render(next, t))
    }
}

/// The plans an actor issues over a whole trace of inputs, one plan per
/// received button code.
pub open spec fn spec_trace(a: MenuActor, inputs: Seq<(u8, TelemetryV)>) -> Seq<Seq<StepV>>
    decreases inputs.len(),
{
    if inputs.len() == 0 {
        Seq::<Seq<StepV>>::empty()
    } else {
        let first = spec_step(a, inputs[0].0, inputs[0].1);
        seq![first.1] + spec_trace(first.0, inputs.drop_first())
    }
}

/// How many of a trace's plans invoke the operating system's shutdown.
pub open spec fn spec_shutdown_count(plans: Seq<Seq<StepV>>) -> int
    decreases plans.len(),
{
    if plans.len() == 0 {
        0
    } else {
        (if has_os_shutdown(plans[0]) {
            1int
        } else {
            0int
        }) + spec_shutdown_count(plans.drop_first())
    }
}

/// A terminated actor never invokes the operating system's shutdown again:
/// every plan in its trace is empty.
pub proof fn lemma_terminated_actor_is_silent(a: MenuActor, inputs: Seq<(u8, TelemetryV)>)
    requires
        a.phase == Phase::Terminated,
    ensures
        spec_shutdown_count(spec_trace(a, inputs)) == 0,
    decreases inputs.len(),
{
    if inputs.len() > 0 {
        let first = spec_step(a, inputs[0].0, inputs[0].1);
        assert(first.0 == a);
        assert(!has_os_shutdown(first.1));
        lemma_terminated_actor_is_silent(a, inputs.drop_first());
        assert(spec_trace(a, inputs).drop_first() =~= spec_trace(a, inputs.drop_first()));
    }
}

/// Over any trace of inputs, however long and whatever it holds, a menu
/// actor invokes the operating system's shutdown at most once — even when
/// events keep arriving after the shutdown screen was entered.
pub proof fn lemma_shutdown_at_most_once(a: MenuActor, inputs: Seq<(u8, TelemetryV)>)
    ensures
        spec_shutdown_count(spec_trace(a, inputs)) <= 1,
    decreases inputs.len(),
{
    if inputs.len() > 0 {
        let first = spec_step(a, inputs[0].0, inputs[0].1);
        assert(spec_trace(a, inputs).drop_first() =~= spec_trace(first.0, inputs.drop_first()));
        if a.phase == Phase::Terminated {
            lemma_terminated_actor_is_silent(a, inputs);
        } else {
            lemma_only_shutdown_plan_shuts_down(first.0.state, inputs[0].1);
            if has_os_shutdown(first.1) {
                assert(first.0.phase == Phase::Terminated);
                lemma_terminated_actor_is_silent(first.0, inputs.drop_first());
            } else {
                lemma_shutdown_at_most_once(first.0, inputs.drop_first());
            }
        }
    }
}

} // verus!
