//! Menu buttons, their interaction state machine, and the per-tick event
//! bus.
//!
//! Each button owns a fixed identity, a discrete interaction state driven by
//! an external hit-testing collaborator, and a color derived purely from
//! that state. A transition into the pressed state emits exactly one
//! lifecycle event on the bus; every other transition emits none. The bus is
//! cleared at the start of each tick, so an event never outlives the tick
//! that produced it.

use vstd::prelude::*;

verus! {

/// The fixed identity of a menu button.
#[derive(Clone, Copy, PartialEq, Eq, Structural, Debug)]
pub enum ButtonType {
    Start,
    Stop,
    Exit,
}

/// The discrete interaction state of a button, derived each tick from
/// pointer geometry by an external collaborator.
#[derive(Clone, Copy, PartialEq, Eq, Structural, Debug)]
pub enum Interaction {
    Idle,
    Hovered,
    Pressed,
}

/// A one-shot lifecycle command for the external simulation controller and
/// application shell; valid only within the tick that produced it.
#[derive(Clone, Copy, PartialEq, Eq, Structural, Debug)]
pub enum MenuEvent {
    SimulationStart,
    SimulationStop,
    GameExit,
}

/// A button color as red, green and blue channels in thousandths of full
/// intensity.
#[derive(Clone, Copy, PartialEq, Eq, Structural, Debug)]
pub struct ButtonColor {
    pub red: u32,
    pub green: u32,
    pub blue: u32,
}

/// One menu button: its identity, its current interaction state, and the
/// visual color derived from that state.
#[derive(Clone, Copy, PartialEq, Eq, Structural, Debug)]
pub struct MenuButton {
    pub button_type: ButtonType,
    pub interaction: Interaction,
    pub color: ButtonColor,
}

/// The lifecycle event a button of the given identity emits when pressed.
pub open spec fn event_for(bt: ButtonType) -> MenuEvent {
    match bt {
        ButtonType::Start => MenuEvent::SimulationStart,
        ButtonType::Stop => MenuEvent::SimulationStop,
        ButtonType::Exit => MenuEvent::GameExit,
    }
}

/// The visual color a button shows in each interaction state.
pub open spec fn color_for(i: Interaction) -> ButtonColor {
    match i {
        Interaction::Idle => ButtonColor { red: 800, green: 800, blue: 800 },
        Interaction::Hovered => ButtonColor { red: 400, green: 800, blue: 800 },
        Interaction::Pressed => ButtonColor { red: 400, green: 1000, blue: 1000 },
    }
}

/// A button after one tick's observation: untouched when the observed state
/// equals the current one, otherwise moved to the observed state with its
/// color updated.
pub open spec fn observe_spec(b: MenuButton, next: Interaction) -> MenuButton {
    if next == b.interaction {
        b
    } else {
        MenuButton { button_type: b.button_type, interaction: next, color: color_for(next) }
    }
}

/// The events one button emits on one tick's observation: exactly one,
/// matching its identity, on a transition into the pressed state; none
/// otherwise.
pub open spec fn emitted(b: MenuButton, next: Interaction) -> Seq<MenuEvent> {
    if next != b.interaction && next == Interaction::Pressed {
        seq![event_for(b.button_type)]
    } else {
        Seq::<MenuEvent>::empty()
    }
}

/// All buttons after one tick's observations, index by index.
pub open spec fn observe_all_spec(bs: Seq<MenuButton>, obs: Seq<Interaction>) -> Seq<MenuButton>
    recommends
        bs.len() == obs.len(),
{
    Seq::new(bs.len(), |i: int| observe_spec(bs[i], obs[i]))
}

/// The events emitted by the first n buttons of one tick's observations, in
/// button order.
pub open spec fn emitted_upto(bs: Seq<MenuButton>, obs: Seq<Interaction>, n: int) -> Seq<MenuEvent>
    recommends
        bs.len() == obs.len(),
        0 <= n <= bs.len(),
    decreases n,
{
    if n <= 0 {
        Seq::<MenuEvent>::empty()
    } else {
        emitted_upto(bs, obs, n - 1) + emitted(bs[n - 1], obs[n - 1])
    }
}

/// The events emitted by all buttons on one tick's observations.
pub open spec fn emitted_all(bs: Seq<MenuButton>, obs: Seq<Interaction>) -> Seq<MenuEvent>
    recommends
        bs.len() == obs.len(),
{
    emitted_upto(bs, obs, bs.len() as int)
}

/// The per-tick broadcast channel for lifecycle events: append-only within a
/// tick, cleared at every tick boundary.
pub struct EventBus {
    events: Vec<MenuEvent>,
}

impl View for EventBus {
    type V = Seq<MenuEvent>;

    closed spec fn view(&self) -> Seq<MenuEvent> {
        self.events@
    }
}

impl EventBus {
    /// An empty bus.
    pub fn new() -> (bus: EventBus)
        ensures
            bus@ == Seq::<MenuEvent>::empty(),
    {
        EventBus { events: Vec::new() }
    }

    /// Clear the bus at a tick boundary: an event enqueued in one tick is
    /// never visible in the next.
    pub fn begin_tick(&mut self)
        ensures
            final(self)@ == Seq::<MenuEvent>::empty(),
    {
        self.events = Vec::new();
    }

    /// Append one event for the current tick.
    pub fn emit(&mut self, e: MenuEvent)
        ensures
            final(self)@ == old(self)@.push(e),
    {
        self.events.push(e);
    }

    /// The events emitted so far this tick, in emission order, readable by
    /// any number of subscribers within the tick.
    pub fn events(&self) -> (evs: &Vec<MenuEvent>)
        ensures
            evs@ == self@,
    {
        &self.events
    }
}

impl MenuButton {
    /// A button created at startup: fixed identity, idle, with the idle
    /// color.
    pub fn new(bt: ButtonType) -> (b: MenuButton)
        ensures
            b.button_type == bt,
            b.interaction == Interaction::Idle,
            b.color == color_for(Interaction::Idle),
    {
        MenuButton { button_type: bt, interaction: Interaction::Idle, color: color_for_exec(Interaction::Idle) }
    }

    /// React to a changed interaction state: adopt it, show its color, and
    /// on entering the pressed state emit exactly one event matching this
    /// button's identity; entering any other state emits none.
    pub fn apply_transition(&mut self, next: Interaction, bus: &mut EventBus)
        ensures
            final(self).button_type == old(self).button_type,
            final(self).interaction == next,
            final(self).color == color_for(next),
            next == Interaction::Pressed ==> final(bus)@ == old(bus)@.push(
                event_for(old(self).button_type),
            ),
            next != Interaction::Pressed ==> final(bus)@ == old(bus)@,
    {
        self.interaction = next;
        self.color = color_for_exec(next);
        if matches!(next, Interaction::Pressed) {
            let e = match self.button_type {
                ButtonType::Start => MenuEvent::SimulationStart,
                ButtonType::Stop => MenuEvent::SimulationStop,
                ButtonType::Exit => MenuEvent::GameExit,
            };
            bus.emit(e);
        }
    }

    /// One tick of the interaction state machine: only a button whose
    /// observed state differs from its current one is processed; an
    /// unchanged button and the bus are left exactly as they were.
    pub fn observe(&mut self, next: Interaction, bus: &mut EventBus)
        ensures
            *final(self) == observe_spec(*old(self), next),
            final(bus)@ == old(bus)@ + emitted(*old(self), next),
            next == old(self).interaction ==> *final(self) == *old(self) && final(bus)@ == old(
                bus,
            )@,
    {
        if next != self.interaction {
            self.apply_transition(next, bus);
            proof {
                if next == Interaction::Pressed {
                    assert(old(bus)@ + emitted(*old(self), next) =~= old(bus)@.push(
                        event_for(old(self).button_type),
                    ));
                } else {
                    assert(old(bus)@ + emitted(*old(self), next) =~= old(bus)@);
                }
            }
        } else {
            proof {
                assert(old(bus)@ + emitted(*old(self), next) =~= old(bus)@);
            }
        }
    }
}

/// The visual color a button shows in each interaction state.
pub fn color_for_exec(i: Interaction) -> (c: ButtonColor)
    ensures
        c == color_for(i),
{
    match i {
        Interaction::Idle => ButtonColor { red: 800, green: 800, blue: 800 },
        Interaction::Hovered => ButtonColor { red: 400, green: 800, blue: 800 },
        Interaction::Pressed => ButtonColor { red: 400, green: 1000, blue: 1000 },
    }
}

/// One tick of the whole menu: observe every button against its externally
/// derived interaction state, in order, appending each emitted event to the
/// bus. Returns the updated buttons.
pub fn menu_tick(buttons: &Vec<MenuButton>, observed: &Vec<Interaction>, bus: &mut EventBus) -> (updated: Vec<
    MenuButton,
>)
    requires
        buttons@.len() == observed@.len(),
    ensures
        updated@ == observe_all_spec(buttons@, observed@),
        final(bus)@ == old(bus)@ + emitted_all(buttons@, observed@),
{
    let mut updated: Vec<MenuButton> = Vec::new();
    let mut i: usize = 0;
    while i < buttons.len()
        invariant
            i <= buttons.len(),
            buttons@.len() == observed@.len(),
            updated@.len() == i,
            forall|j: int| 0 <= j < i ==> updated@[j] == observe_spec(buttons@[j], observed@[j]),
            bus@ == old(bus)@ + emitted_upto(buttons@, observed@, i as int),
        decreases buttons.len() - i,
    {
        let mut b = buttons[i];
        b.observe(observed[i], bus);
        updated.push(b);
        proof {
            assert(old(bus)@ + emitted_upto(buttons@, observed@, i as int) + emitted(
                buttons@[i as int],
                observed@[i as int],
            ) =~= old(bus)@ + emitted_upto(buttons@, observed@, i as int + 1));
        }
        i = i + 1;
    }
    proof {
        assert(updated@ =~= observe_all_spec(buttons@, observed@));
    }
    updated
}

/// A transition into the pressed state emits exactly one event, and it
/// matches the button's identity; a transition out of the pressed state, to
/// idle or hovered, emits none.
pub proof fn lemma_pressed_transition_events(b: MenuButton, next: Interaction)
    ensures
        b.interaction != Interaction::Pressed && next == Interaction::Pressed ==> emitted(b, next)
            =~= seq![event_for(b.button_type)],
        b.interaction == Interaction::Pressed && next != Interaction::Pressed ==> emitted(b, next)
            =~= Seq::<MenuEvent>::empty(),
{
}

} // verus!
