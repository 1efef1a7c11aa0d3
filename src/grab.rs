use vstd::prelude::*;

use crate::geometry::{
    displacement, horizontal_dominant, is_horizontal_dominant, leaves_dead_zone,
    outside_dead_zone, Delta, LogicalPoint,
};

verus! {

/// Linux input event code of the left mouse button.
pub const BTN_LEFT: u32 = 0x110;

/// Linux input event code of the right mouse button.
pub const BTN_RIGHT: u32 = 0x111;

/// What the drag has been recognised as. Once it leaves `Recognizing` it never
/// changes again.
#[derive(Clone, Copy, Debug, PartialEq, Eq, Structural)]
pub enum GestureState {
    Recognizing,
    Move,
    ViewOffset,
}

/// Where the grab stands in its conversation with the host: between events, or
/// waiting for the answer to a command it handed out.
#[derive(Clone, Copy, Debug, PartialEq, Eq, Structural)]
pub enum Phase {
    /// Between events; motion and button events are taken.
    Ready,
    /// Waiting for whether the window is floating.
    AwaitFloating,
    /// Waiting for the layout's answer to a move begin during recognition.
    AwaitMoveBegin,
    /// Waiting for whether the window still has a place in the layout.
    AwaitPlacement,
    /// Waiting for whether the move goes on.
    AwaitMoveUpdate,
    /// Waiting for the result of a view-offset update.
    AwaitViewOffsetUpdate,
    /// The grab asked to be released and waits for the host to unset it.
    Releasing,
    /// The layout refused the move begin during recognition; the grab asked to
    /// be released and waits for the host to unset it, with no transaction open.
    Refused,
    /// Unset while still recognizing: waiting for the answer to the balancing move begin.
    AwaitFinalMoveBegin,
    /// The grab has been torn down.
    Ended,
}

/// The cursor shapes the grab asks for.
#[derive(Clone, Copy, Debug, PartialEq, Eq, Structural)]
pub enum CursorShape {
    Move,
    AllScroll,
}

/// A command that the grab hands to its host.
#[derive(Clone, Copy, Debug, PartialEq, Eq, Structural)]
pub enum Command {
    /// Release the grab; the host then calls `unset`.
    Release,
    /// Ask the layout whether the window is floating; answer with `answer_floating`.
    QueryFloating,
    /// Ask the layout for the output and workspace that hold the window; answer
    /// with `answer_placement`, and keep what was found for the view-offset begin.
    QueryPlacement,
    /// Begin an interactive move of the window from the start output and start
    /// position; answer with `answer_move_begin`.
    MoveBegin,
    /// Move the window by this displacement, on the output under the pointer;
    /// answer with `answer_move_update`.
    MoveUpdate(Delta),
    /// End the interactive move of the window.
    MoveEnd,
    /// Toggle the window between floating and tiled.
    ToggleFloating,
    /// Begin a view-offset gesture on the placement that was found.
    ViewOffsetBegin,
    /// Scroll the view by this horizontal amount; answer with `answer_view_offset_update`.
    ViewOffsetUpdate(i64),
    /// End the view-offset gesture, not cancelled.
    ViewOffsetEnd,
    /// Show this cursor shape.
    SetCursor(CursorShape),
    /// Return to the default cursor.
    ResetCursor,
    /// Redraw every output.
    RedrawAll,
    /// Redraw the output that the view-offset update named.
    RedrawOutput,
}

/// Everything that reaches the grab, as its transition function sees it.
#[derive(Clone, Copy, Debug, PartialEq, Eq, Structural)]
pub enum Event {
    /// Pointer motion to `location`; whether the window is alive and whether an
    /// output lies under the location.
    Motion { location: LogicalPoint, window_alive: bool, on_output: bool },
    /// A button event, and whether the grab's own button is held after it.
    Button { button: u32, pressed: bool, start_held: bool },
    /// Whether the window is floating.
    Floating(bool),
    /// Whether the layout began the move.
    MoveBegun(bool),
    /// Whether the window has a place in the layout.
    Placement(bool),
    /// Whether the move goes on.
    MoveUpdated(bool),
    /// The result of a view-offset update: `None` when the gesture is over, else
    /// whether it named an output.
    ViewOffsetUpdated(Option<bool>),
    /// The host tears the grab down.
    Unset,
}

/// The abstract state of a grab.
pub struct GrabModel {
    pub start: LogicalPoint,
    pub button: u32,
    pub last: LogicalPoint,
    pub decided_at: LogicalPoint,
    pub gesture: GestureState,
    pub phase: Phase,
}

/// The primary button that pairs with `button`: right for left, left for any other.
pub open spec fn paired_button(button: u32) -> u32 {
    if button == BTN_LEFT { BTN_RIGHT } else { BTN_LEFT }
}

/// The state of a grab that has just started.
pub open spec fn initial(start: LogicalPoint, button: u32) -> GrabModel {
    GrabModel {
        start,
        button,
        last: start,
        decided_at: start,
        gesture: GestureState::Recognizing,
        phase: Phase::Ready,
    }
}

/// The displacement from the start to where recognition was decided.
pub open spec fn cumulative(s: GrabModel) -> Delta {
    displacement(s.decided_at, s.start)
}

/// Whether the recognised gesture is a move.
pub open spec fn move_intended(c: Delta, floating: bool) -> bool {
    floating || horizontal_dominant(c)
}

/// The transition function of the grab: the next state, and the commands for the host.
pub open spec fn next(s: GrabModel, e: Event) -> (GrabModel, Seq<Command>) {
    match e {
        Event::Motion { location, window_alive, on_output } => {
            if s.phase != Phase::Ready {
                (s, seq![])
            } else if !window_alive {
                (GrabModel { phase: Phase::Releasing, ..s }, seq![Command::Release])
            } else if !on_output {
                (s, seq![])
            } else {
                let delta = displacement(location, s.last);
                match s.gesture {
                    GestureState::Recognizing => {
                        if leaves_dead_zone(displacement(location, s.start)) {
                            (
                                GrabModel {
                                    last: location,
                                    decided_at: location,
                                    phase: Phase::AwaitFloating,
                                    ..s
                                },
                                seq![Command::QueryFloating],
                            )
                        } else {
                            (GrabModel { last: location, ..s }, seq![])
                        }
                    },
                    GestureState::Move => (
                        GrabModel { last: location, phase: Phase::AwaitMoveUpdate, ..s },
                        seq![Command::MoveUpdate(delta)],
                    ),
                    GestureState::ViewOffset => (
                        GrabModel { last: location, phase: Phase::AwaitViewOffsetUpdate, ..s },
                        seq![Command::ViewOffsetUpdate((-delta.dx) as i64)],
                    ),
                }
            }
        },
        Event::Button { button, pressed, start_held } => {
            if s.phase != Phase::Ready {
                (s, seq![])
            } else {
                let toggle: Seq<Command> = if s.gesture == GestureState::Move && pressed && button
                    == paired_button(s.button) {
                    seq![Command::ToggleFloating]
                } else {
                    seq![]
                };
                if start_held {
                    (s, toggle)
                } else {
                    (GrabModel { phase: Phase::Releasing, ..s }, toggle.push(Command::Release))
                }
            }
        },
        Event::Floating(floating) => {
            if s.phase != Phase::AwaitFloating {
                (s, seq![])
            } else if move_intended(cumulative(s), floating) {
                (GrabModel { phase: Phase::AwaitMoveBegin, ..s }, seq![Command::MoveBegin])
            } else {
                (GrabModel { phase: Phase::AwaitPlacement, ..s }, seq![Command::QueryPlacement])
            }
        },
        Event::MoveBegun(ok) => {
            if s.phase == Phase::AwaitMoveBegin {
                if ok {
                    (
                        GrabModel {
                            gesture: GestureState::Move,
                            phase: Phase::AwaitMoveUpdate,
                            ..s
                        },
                        seq![
                            Command::SetCursor(CursorShape::Move),
                            Command::MoveUpdate(cumulative(s)),
                        ],
                    )
                } else {
                    (GrabModel { phase: Phase::Refused, ..s }, seq![Command::Release])
                }
            } else if s.phase == Phase::AwaitFinalMoveBegin {
                (
                    GrabModel { phase: Phase::Ended, ..s },
                    if ok {
                        seq![Command::MoveEnd, Command::RedrawAll, Command::ResetCursor]
                    } else {
                        seq![Command::RedrawAll, Command::ResetCursor]
                    },
                )
            } else {
                (s, seq![])
            }
        },
        Event::Placement(found) => {
            if s.phase != Phase::AwaitPlacement {
                (s, seq![])
            } else if found {
                (
                    GrabModel {
                        gesture: GestureState::ViewOffset,
                        phase: Phase::AwaitViewOffsetUpdate,
                        ..s
                    },
                    seq![
                        Command::ViewOffsetBegin,
                        Command::SetCursor(CursorShape::AllScroll),
                        Command::ViewOffsetUpdate((-cumulative(s).dx) as i64),
                    ],
                )
            } else {
                (GrabModel { phase: Phase::Releasing, ..s }, seq![Command::Release])
            }
        },
        Event::MoveUpdated(ongoing) => {
            if s.phase != Phase::AwaitMoveUpdate {
                (s, seq![])
            } else if ongoing {
                (GrabModel { phase: Phase::Ready, ..s }, seq![Command::RedrawAll])
            } else {
                (GrabModel { phase: Phase::Releasing, ..s }, seq![Command::Release])
            }
        },
        Event::ViewOffsetUpdated(result) => {
            if s.phase != Phase::AwaitViewOffsetUpdate {
                (s, seq![])
            } else {
                match result {
                    Some(named) => (
                        GrabModel { phase: Phase::Ready, ..s },
                        if named { seq![Command::RedrawOutput] } else { seq![] },
                    ),
                    None => (GrabModel { phase: Phase::Releasing, ..s }, seq![Command::Release]),
                }
            }
        },
        Event::Unset => {
            if s.phase == Phase::Ended || s.phase == Phase::AwaitFinalMoveBegin {
                (s, seq![])
            } else if s.phase == Phase::Refused {
                (GrabModel { phase: Phase::Ended, ..s }, seq![Command::RedrawAll, Command::ResetCursor])
            } else if s.phase == Phase::AwaitMoveBegin {
                (GrabModel { phase: Phase::AwaitFinalMoveBegin, ..s }, seq![])
            } else {
                match s.gesture {
                    GestureState::Recognizing => (
                        GrabModel { phase: Phase::AwaitFinalMoveBegin, ..s },
                        seq![Command::MoveBegin],
                    ),
                    GestureState::Move => (
                        GrabModel { phase: Phase::Ended, ..s },
                        seq![Command::MoveEnd, Command::RedrawAll, Command::ResetCursor],
                    ),
                    GestureState::ViewOffset => (
                        GrabModel { phase: Phase::Ended, ..s },
                        seq![Command::ViewOffsetEnd, Command::RedrawAll, Command::ResetCursor],
                    ),
                }
            }
        },
    }
}

fn no_commands() -> (r: Vec<Command>)
    ensures
        r@ == Seq::<Command>::empty(),
{
    Vec::new()
}

fn one_command(a: Command) -> (r: Vec<Command>)
    ensures
        r@ == seq![a],
{
    let mut v = Vec::new();
    v.push(a);
    v
}

fn two_commands(a: Command, b: Command) -> (r: Vec<Command>)
    ensures
        r@ == seq![a, b],
{
    let mut v = Vec::new();
    v.push(a);
    v.push(b);
    v
}

fn three_commands(a: Command, b: Command, c: Command) -> (r: Vec<Command>)
    ensures
        r@ == seq![a, b, c],
{
    let mut v = Vec::new();
    v.push(a);
    v.push(b);
    v.push(c);
    v
}

/// An interactive move grab: follows a drag that started on a window, decides
/// once whether it moves the window or scrolls the view, and drives the layout's
/// transactions accordingly. `O` is the host's handle of an output.
pub struct MoveGrab<O> {
    start_location: LogicalPoint,
    start_button: u32,
    start_output: O,
    start_pos_within_output: LogicalPoint,
    last_location: LogicalPoint,
    decided_at: LogicalPoint,
    gesture: GestureState,
    phase: Phase,
}

impl<O> View for MoveGrab<O> {
    type V = GrabModel;

    closed spec fn view(&self) -> GrabModel {
        GrabModel {
            start: self.start_location,
            button: self.start_button,
            last: self.last_location,
            decided_at: self.decided_at,
            gesture: self.gesture,
            phase: self.phase,
        }
    }
}

impl<O> MoveGrab<O> {
    pub closed spec fn spec_start_output(&self) -> O {
        self.start_output
    }

    pub closed spec fn spec_start_pos_within_output(&self) -> LogicalPoint {
        self.start_pos_within_output
    }

    /// Starts a grab at `start_location` with `start_button`, given the output
    /// under the start location and the position within it, if there is one.
    /// Without an output there is no grab.
    pub fn new(
        start_location: LogicalPoint,
        start_button: u32,
        output_under: Option<(O, LogicalPoint)>,
    ) -> (r: Option<Self>)
        ensures
            r.is_some() == output_under.is_some(),
            r matches Some(g) ==> g@ == initial(start_location, start_button)
                && g.spec_start_output() == output_under.unwrap().0
                && g.spec_start_pos_within_output() == output_under.unwrap().1,
    {
        match output_under {
            Some((output, pos_within_output)) => Some(
                MoveGrab {
                    start_location,
                    start_button,
                    start_output: output,
                    start_pos_within_output: pos_within_output,
                    last_location: start_location,
                    decided_at: start_location,
                    gesture: GestureState::Recognizing,
                    phase: Phase::Ready,
                },
            ),
            None => None,
        }
    }

    /// Whether the drag has been recognised as a window move.
    pub fn is_move(&self) -> (r: bool)
        ensures
            r == (self@.gesture == GestureState::Move),
    {
        self.gesture == GestureState::Move
    }

    pub fn gesture(&self) -> (r: GestureState)
        ensures
            r == self@.gesture,
    {
        self.gesture
    }

    pub fn phase(&self) -> (r: Phase)
        ensures
            r == self@.phase,
    {
        self.phase
    }

    pub fn start_location(&self) -> (r: LogicalPoint)
        ensures
            r == self@.start,
    {
        self.start_location
    }

    pub fn start_button(&self) -> (r: u32)
        ensures
            r == self@.button,
    {
        self.start_button
    }

    pub fn last_location(&self) -> (r: LogicalPoint)
        ensures
            r == self@.last,
    {
        self.last_location
    }

    pub fn start_output(&self) -> (r: &O)
        ensures
            *r == self.spec_start_output(),
    {
        &self.start_output
    }

    pub fn start_pos_within_output(&self) -> (r: LogicalPoint)
        ensures
            r == self.spec_start_pos_within_output(),
    {
        self.start_pos_within_output
    }

    /// Handles pointer motion to `location`. `window_alive` tells whether the
    /// dragged window still exists, `on_output` whether an output lies under
    /// `location`. While recognizing, motion past the dead zone asks whether the
    /// window is floating; once decided, the displacement since the previous
    /// motion goes to the active gesture. Motion is taken between exchanges
    /// (phase `Ready`); while the grab waits for an answer, or is being
    /// released, it is dropped.
    pub fn motion(&mut self, location: LogicalPoint, window_alive: bool, on_output: bool) -> (r: Vec<
        Command,
    >)
        ensures
            (final(self)@, r@) == next(
                old(self)@,
                Event::Motion { location, window_alive, on_output },
            ),
            final(self).spec_start_output() == old(self).spec_start_output(),
            final(self).spec_start_pos_within_output() == old(self).spec_start_pos_within_output(),
    {
        if self.phase != Phase::Ready {
            return no_commands();
        }
        if !window_alive {
            self.phase = Phase::Releasing;
            return one_command(Command::Release);
        }
        if !on_output {
            return no_commands();
        }
        let delta = location.minus(self.last_location);
        self.last_location = location;
        match self.gesture {
            GestureState::Recognizing => {
                if outside_dead_zone(location, self.start_location) {
                    self.decided_at = location;
                    self.phase = Phase::AwaitFloating;
                    one_command(Command::QueryFloating)
                } else {
                    no_commands()
                }
            },
            GestureState::Move => {
                self.phase = Phase::AwaitMoveUpdate;
                one_command(Command::MoveUpdate(delta))
            },
            GestureState::ViewOffset => {
                self.phase = Phase::AwaitViewOffsetUpdate;
                one_command(Command::ViewOffsetUpdate(-delta.dx))
            },
        }
    }

    /// Takes the answer to `QueryFloating`: a floating window, or a drag more
    /// horizontal than vertical, begins a move; otherwise the window's placement
    /// is asked for, to scroll its workspace.
    pub fn answer_floating(&mut self, is_floating: bool) -> (r: Vec<Command>)
        ensures
            (final(self)@, r@) == next(old(self)@, Event::Floating(is_floating)),
            final(self).spec_start_output() == old(self).spec_start_output(),
            final(self).spec_start_pos_within_output() == old(self).spec_start_pos_within_output(),
    {
        if self.phase != Phase::AwaitFloating {
            return no_commands();
        }
        let c = self.decided_at.minus(self.start_location);
        if is_floating || is_horizontal_dominant(c) {
            self.phase = Phase::AwaitMoveBegin;
            one_command(Command::MoveBegin)
        } else {
            self.phase = Phase::AwaitPlacement;
            one_command(Command::QueryPlacement)
        }
    }

    /// Takes the layout's answer to `MoveBegin`. During recognition a begun move
    /// receives the whole displacement since the start, and a refused one
    /// releases the grab; during teardown a begun move is ended at once.
    pub fn answer_move_begin(&mut self, begun: bool) -> (r: Vec<Command>)
        ensures
            (final(self)@, r@) == next(old(self)@, Event::MoveBegun(begun)),
            final(self).spec_start_output() == old(self).spec_start_output(),
            final(self).spec_start_pos_within_output() == old(self).spec_start_pos_within_output(),
    {
        if self.phase == Phase::AwaitMoveBegin {
            if begun {
                let c = self.decided_at.minus(self.start_location);
                self.gesture = GestureState::Move;
                self.phase = Phase::AwaitMoveUpdate;
                two_commands(Command::SetCursor(CursorShape::Move), Command::MoveUpdate(c))
            } else {
                self.phase = Phase::Refused;
                one_command(Command::Release)
            }
        } else if self.phase == Phase::AwaitFinalMoveBegin {
            self.phase = Phase::Ended;
            if begun {
                three_commands(Command::MoveEnd, Command::RedrawAll, Command::ResetCursor)
            } else {
                two_commands(Command::RedrawAll, Command::ResetCursor)
            }
        } else {
            no_commands()
        }
    }

    /// Takes the answer to `QueryPlacement`: with a placement the view-offset
    /// gesture begins and receives the whole horizontal displacement since the
    /// start; without one the grab is released.
    pub fn answer_placement(&mut self, found: bool) -> (r: Vec<Command>)
        ensures
            (final(self)@, r@) == next(old(self)@, Event::Placement(found)),
            final(self).spec_start_output() == old(self).spec_start_output(),
            final(self).spec_start_pos_within_output() == old(self).spec_start_pos_within_output(),
    {
        if self.phase != Phase::AwaitPlacement {
            return no_commands();
        }
        if found {
            let c = self.decided_at.minus(self.start_location);
            self.gesture = GestureState::ViewOffset;
            self.phase = Phase::AwaitViewOffsetUpdate;
            three_commands(
                Command::ViewOffsetBegin,
                Command::SetCursor(CursorShape::AllScroll),
                Command::ViewOffsetUpdate(-c.dx),
            )
        } else {
            self.phase = Phase::Releasing;
            one_command(Command::Release)
        }
    }

    /// Takes the layout's answer to `MoveUpdate`: whether the move goes on.
    pub fn answer_move_update(&mut self, ongoing: bool) -> (r: Vec<Command>)
        ensures
            (final(self)@, r@) == next(old(self)@, Event::MoveUpdated(ongoing)),
            final(self).spec_start_output() == old(self).spec_start_output(),
            final(self).spec_start_pos_within_output() == old(self).spec_start_pos_within_output(),
    {
        if self.phase != Phase::AwaitMoveUpdate {
            return no_commands();
        }
        if ongoing {
            self.phase = Phase::Ready;
            one_command(Command::RedrawAll)
        } else {
            self.phase = Phase::Releasing;
            one_command(Command::Release)
        }
    }

    /// Takes the layout's answer to `ViewOffsetUpdate`: `None` when the gesture
    /// is over, else whether the update named an output to redraw.
    pub fn answer_view_offset_update(&mut self, result: Option<bool>) -> (r: Vec<Command>)
        ensures
            (final(self)@, r@) == next(old(self)@, Event::ViewOffsetUpdated(result)),
            final(self).spec_start_output() == old(self).spec_start_output(),
            final(self).spec_start_pos_within_output() == old(self).spec_start_pos_within_output(),
    {
        if self.phase != Phase::AwaitViewOffsetUpdate {
            return no_commands();
        }
        match result {
            Some(named) => {
                self.phase = Phase::Ready;
                if named {
                    one_command(Command::RedrawOutput)
                } else {
                    no_commands()
                }
            },
            None => {
                self.phase = Phase::Releasing;
                one_command(Command::Release)
            },
        }
    }

    /// Handles a button event; `held` lists the buttons held after it. During a
    /// move, pressing the button paired with the grab's own toggles floating; the
    /// grab is released once its own button is no longer held. Like motion, a
    /// button event is taken between exchanges (phase `Ready`).
    pub fn button(&mut self, button: u32, pressed: bool, held: &[u32]) -> (r: Vec<Command>)
        ensures
            (final(self)@, r@) == next(
                old(self)@,
                Event::Button { button, pressed, start_held: held@.contains(old(self)@.button) },
            ),
            final(self).spec_start_output() == old(self).spec_start_output(),
            final(self).spec_start_pos_within_output() == old(self).spec_start_pos_within_output(),
    {
        if self.phase != Phase::Ready {
            return no_commands();
        }
        let mut commands = Vec::new();
        let toggle_floating_button = if self.start_button == BTN_LEFT {
            BTN_RIGHT
        } else {
            BTN_LEFT
        };
        if self.gesture == GestureState::Move && pressed && button == toggle_floating_button {
            commands.push(Command::ToggleFloating);
        }
        let mut start_held = false;
        let mut i: usize = 0;
        while i < held.len()
            invariant
                0 <= i <= held@.len(),
                start_held == held@.subrange(0, i as int).contains(self.start_button),
            decreases held@.len() - i,
        {
            if held[i] == self.start_button {
                start_held = true;
            }
            proof {
                let before = held@.subrange(0, i as int);
                let after = held@.subrange(0, i + 1);
                assert(after =~= before.push(held@[i as int]));
                if after.contains(self.start_button) {
                    let k = choose|k: int| 0 <= k < after.len() && after[k] == self.start_button;
                    if k < i {
                        assert(before[k] == self.start_button);
                    }
                }
                if before.contains(self.start_button) {
                    let k = choose|k: int| 0 <= k < before.len() && before[k] == self.start_button;
                    assert(after[k] == self.start_button);
                }
                if held@[i as int] == self.start_button {
                    assert(after[i as int] == self.start_button);
                }
            }
            i += 1;
        }
        proof {
            assert(held@.subrange(0, held@.len() as int) =~= held@);
        }
        if !start_held {
            self.phase = Phase::Releasing;
            commands.push(Command::Release);
        }
        commands
    }

    /// The host tears the grab down, in whatever phase. The layout's transaction
    /// is closed: an active move or view-offset gesture is ended, and a drag
    /// still being recognised begins a move to end it at once. After a refused
    /// move begin nothing is begun again. When the answer to a move begin is
    /// still outstanding, that answer settles the teardown through
    /// `answer_move_begin`.
    pub fn unset(&mut self) -> (r: Vec<Command>)
        ensures
            (final(self)@, r@) == next(old(self)@, Event::Unset),
            final(self).spec_start_output() == old(self).spec_start_output(),
            final(self).spec_start_pos_within_output() == old(self).spec_start_pos_within_output(),
    {
        if self.phase == Phase::Ended || self.phase == Phase::AwaitFinalMoveBegin {
            return no_commands();
        }
        if self.phase == Phase::Refused {
            self.phase = Phase::Ended;
            return two_commands(Command::RedrawAll, Command::ResetCursor);
        }
        if self.phase == Phase::AwaitMoveBegin {
            self.phase = Phase::AwaitFinalMoveBegin;
            return no_commands();
        }
        match self.gesture {
            GestureState::Recognizing => {
                self.phase = Phase::AwaitFinalMoveBegin;
                one_command(Command::MoveBegin)
            },
            GestureState::Move => {
                self.phase = Phase::Ended;
                three_commands(Command::MoveEnd, Command::RedrawAll, Command::ResetCursor)
            },
            GestureState::ViewOffset => {
                self.phase = Phase::Ended;
                three_commands(Command::ViewOffsetEnd, Command::RedrawAll, Command::ResetCursor)
            },
        }
    }
}

} // verus!
