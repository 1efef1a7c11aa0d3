use vstd::prelude::*;

use crate::geometry::{displacement, leaves_dead_zone, LogicalPoint};
use crate::grab::{
    initial, move_intended, next, paired_button, Command, Event, GestureState, GrabModel, Phase,
};

verus! {

/// How many times `c` occurs in `cmds`.
pub open spec fn count(cmds: Seq<Command>, c: Command) -> nat
    decreases cmds.len(),
{
    if cmds.len() == 0 {
        0
    } else {
        count(cmds.drop_last(), c) + if cmds.last() == c {
            1nat
        } else {
            0nat
        }
    }
}

/// `count` on a sequence of at most three commands, position by position.
pub proof fn lemma_count_short(cmds: Seq<Command>, c: Command)
    requires
        cmds.len() <= 3,
    ensures
        count(cmds, c) == (if cmds.len() > 0 && cmds[0] == c {
            1nat
        } else {
            0nat
        }) + (if cmds.len() > 1 && cmds[1] == c {
            1nat
        } else {
            0nat
        }) + (if cmds.len() > 2 && cmds[2] == c {
            1nat
        } else {
            0nat
        }),
    decreases cmds.len(),
{
    if cmds.len() > 0 {
        let rest = cmds.drop_last();
        lemma_count_short(rest, c);
        assert(forall|i: int| 0 <= i < rest.len() ==> rest[i] == cmds[i]);
    }
}

/// What the layout has seen of a grab's transactions: the move and view-offset
/// begins and ends the grab asked for, and the moves the layout actually began.
pub struct Tally {
    pub move_begins: nat,
    pub moves_opened: nat,
    pub move_ends: nat,
    pub view_begins: nat,
    pub view_ends: nat,
}

pub open spec fn empty_tally() -> Tally {
    Tally { move_begins: 0, moves_opened: 0, move_ends: 0, view_begins: 0, view_ends: 0 }
}

/// The layout's answer to a move begin, if `e` is one.
pub open spec fn move_begin_answer(e: Event) -> Option<bool> {
    match e {
        Event::MoveBegun(begun) => Some(begun),
        _ => None,
    }
}

/// The tally after the grab in state `s` takes event `e`.
pub open spec fn tally_step(t: Tally, s: GrabModel, e: Event) -> Tally {
    let cmds = next(s, e).1;
    let awaiting_begin = s.phase == Phase::AwaitMoveBegin || s.phase == Phase::AwaitFinalMoveBegin;
    Tally {
        move_begins: t.move_begins + count(cmds, Command::MoveBegin),
        moves_opened: t.moves_opened + if awaiting_begin && move_begin_answer(e) == Some(true) {
            1nat
        } else {
            0nat
        },
        move_ends: t.move_ends + count(cmds, Command::MoveEnd),
        view_begins: t.view_begins + count(cmds, Command::ViewOffsetBegin),
        view_ends: t.view_ends + count(cmds, Command::ViewOffsetEnd),
    }
}

/// The state reached from `s` through the events `es`, and the tally of what
/// they made the grab ask of the layout.
pub open spec fn run(s: GrabModel, es: Seq<Event>) -> (GrabModel, Tally)
    decreases es.len(),
{
    if es.len() == 0 {
        (s, empty_tally())
    } else {
        let (s1, t1) = run(s, es.drop_last());
        (next(s1, es.last()).0, tally_step(t1, s1, es.last()))
    }
}

/// Which gesture each waiting phase belongs to.
pub open spec fn phase_fits(s: GrabModel) -> bool {
    match s.phase {
        Phase::AwaitFloating | Phase::AwaitMoveBegin | Phase::AwaitPlacement
        | Phase::AwaitFinalMoveBegin | Phase::Refused => s.gesture == GestureState::Recognizing,
        Phase::AwaitMoveUpdate => s.gesture == GestureState::Move,
        Phase::AwaitViewOffsetUpdate => s.gesture == GestureState::ViewOffset,
        _ => true,
    }
}

/// The begins a grab has asked for, given its gesture and phase.
pub open spec fn begins_fit(s: GrabModel, t: Tally) -> bool {
    match s.gesture {
        GestureState::Move => t.move_begins == 1 && t.view_begins == 0,
        GestureState::ViewOffset => t.move_begins == 0 && t.view_begins == 1,
        GestureState::Recognizing => t.view_begins == 0 && match s.phase {
            Phase::AwaitMoveBegin | Phase::Refused | Phase::AwaitFinalMoveBegin | Phase::Ended => t.move_begins
                == 1,
            _ => t.move_begins == 0,
        },
    }
}

/// The transactions left open are exactly that of the active gesture.
pub open spec fn open_fits(s: GrabModel, t: Tally) -> bool {
    let live = s.phase != Phase::Ended;
    &&& t.moves_opened == t.move_ends + if live && s.gesture == GestureState::Move {
        1nat
    } else {
        0nat
    }
    &&& t.view_begins == t.view_ends + if live && s.gesture == GestureState::ViewOffset {
        1nat
    } else {
        0nat
    }
}

pub open spec fn tally_invariant(s: GrabModel, t: Tally) -> bool {
    phase_fits(s) && begins_fit(s, t) && open_fits(s, t)
}

proof fn lemma_step_keeps_invariant(s: GrabModel, t: Tally, e: Event)
    requires
        tally_invariant(s, t),
    ensures
        tally_invariant(next(s, e).0, tally_step(t, s, e)),
        next(s, e).0.start == s.start,
        next(s, e).0.button == s.button,
{
    let cmds = next(s, e).1;
    assert(cmds.len() <= 3);
    lemma_count_short(cmds, Command::MoveBegin);
    lemma_count_short(cmds, Command::MoveEnd);
    lemma_count_short(cmds, Command::ViewOffsetBegin);
    lemma_count_short(cmds, Command::ViewOffsetEnd);
}

proof fn lemma_run_keeps_invariant(start: LogicalPoint, button: u32, es: Seq<Event>)
    ensures
        tally_invariant(run(initial(start, button), es).0, run(initial(start, button), es).1),
    decreases es.len(),
{
    if es.len() > 0 {
        lemma_run_keeps_invariant(start, button, es.drop_last());
        let (s1, t1) = run(initial(start, button), es.drop_last());
        lemma_step_keeps_invariant(s1, t1, es.last());
    }
}

/// Intent is decided once: over any run of a grab, teardown included, at most
/// one move or view-offset begin is asked for.
pub proof fn lemma_single_decision(start: LogicalPoint, button: u32, es: Seq<Event>)
    ensures
        ({
            let t = run(initial(start, button), es).1;
            t.move_begins + t.view_begins <= 1
        }),
{
    lemma_run_keeps_invariant(start, button, es);
}

/// Teardown always completes: unsetting a grab, in whatever phase, ends it at
/// once, or after the one answer to a move begin that it still waits for.
pub proof fn lemma_teardown_ends(start: LogicalPoint, button: u32, es: Seq<Event>, begun: bool)
    ensures
        ({
            let s1 = next(run(initial(start, button), es).0, Event::Unset).0;
            ||| s1.phase == Phase::Ended
            ||| s1.phase == Phase::AwaitFinalMoveBegin && next(s1, Event::MoveBegun(begun)).0.phase
                == Phase::Ended
        }),
{
}

/// Once a grab has been torn down, every move the layout began has been ended,
/// and every view-offset gesture begun has been ended.
pub proof fn lemma_balanced_transactions(start: LogicalPoint, button: u32, es: Seq<Event>)
    ensures
        ({
            let (s, t) = run(initial(start, button), es);
            s.phase == Phase::Ended ==> t.moves_opened == t.move_ends && t.view_begins
                == t.view_ends
        }),
{
    lemma_run_keeps_invariant(start, button, es);
}

/// Intent, once decided, is final: once a grab has been recognised as a move or
/// a view-offset gesture, every further event leaves that gesture as it is.
pub proof fn lemma_decision_is_final(start: LogicalPoint, button: u32, es: Seq<Event>, e: Event)
    ensures
        ({
            let s = run(initial(start, button), es).0;
            s.gesture != GestureState::Recognizing ==> next(s, e).0.gesture == s.gesture
        }),
{
    lemma_run_keeps_invariant(start, button, es);
}

/// Whether `e` is a motion that stays strictly inside the dead zone around `start`.
pub open spec fn motion_within_dead_zone(e: Event, start: LogicalPoint) -> bool {
    match e {
        Event::Motion { location, .. } => !leaves_dead_zone(displacement(location, start)),
        _ => false,
    }
}

/// The dead zone: motions that all stay strictly inside the dead zone around the
/// start leave a recognizing grab recognizing, and ask for no move or view-offset
/// begin, whether or not the window dies or the pointer leaves every output.
pub proof fn lemma_dead_zone(s: GrabModel, es: Seq<Event>)
    requires
        s.gesture == GestureState::Recognizing,
        s.phase == Phase::Ready,
        forall|i: int| 0 <= i < es.len() ==> motion_within_dead_zone(#[trigger] es[i], s.start),
    ensures
        run(s, es).0.gesture == GestureState::Recognizing,
        run(s, es).1.move_begins == 0,
        run(s, es).1.view_begins == 0,
        run(s, es).0.phase == Phase::Ready || run(s, es).0.phase == Phase::Releasing,
        run(s, es).0.start == s.start,
    decreases es.len(),
{
    if es.len() > 0 {
        let rest = es.drop_last();
        assert forall|i: int| 0 <= i < rest.len() implies motion_within_dead_zone(
            #[trigger] rest[i],
            s.start,
        ) by {
            assert(rest[i] == es[i]);
        }
        lemma_dead_zone(s, rest);
        let s1 = run(s, rest).0;
        let e = es.last();
        assert(motion_within_dead_zone(es[es.len() - 1], s.start));
        let cmds = next(s1, e).1;
        assert(cmds.len() <= 1);
        lemma_count_short(cmds, Command::MoveBegin);
        lemma_count_short(cmds, Command::ViewOffsetBegin);
    }
}

/// Releasing the grab's own button ends the grab, whatever the gesture and
/// whatever other buttons stay held: the grab asks to be released, and the
/// host's teardown follows.
pub proof fn lemma_release_ends_grab(s: GrabModel, button: u32, pressed: bool, held: Seq<u32>)
    requires
        s.phase == Phase::Ready,
        !held.contains(s.button),
    ensures
        ({
            let (s1, cmds) = next(
                s,
                Event::Button { button, pressed, start_held: held.contains(s.button) },
            );
            &&& s1.phase == Phase::Releasing
            &&& cmds.len() > 0 && cmds.last() == Command::Release
            &&& next(s1, Event::Unset).0.phase == Phase::Ended || next(s1, Event::Unset).0.phase
                == Phase::AwaitFinalMoveBegin
        }),
{
}

/// Pressing the button paired with the grab's own toggles floating exactly when
/// the drag has been recognised as a move; the gesture stays as it was.
pub proof fn lemma_complementary_toggle(s: GrabModel, start_held: bool)
    requires
        s.phase == Phase::Ready,
    ensures
        ({
            let (s1, cmds) = next(
                s,
                Event::Button { button: paired_button(s.button), pressed: true, start_held },
            );
            &&& cmds.contains(Command::ToggleFloating) <==> s.gesture == GestureState::Move
            &&& s1.gesture == s.gesture
        }),
{
    let cmds = next(
        s,
        Event::Button { button: paired_button(s.button), pressed: true, start_held },
    ).1;
    if s.gesture == GestureState::Move {
        assert(cmds[0] == Command::ToggleFloating);
    }
}

/// The motion made inside the dead zone is not lost: when the motion that leaves
/// it is recognised as a move, the first move update carries the whole
/// displacement from the start.
pub proof fn lemma_carry_through(s: GrabModel, location: LogicalPoint, floating: bool)
    requires
        s.gesture == GestureState::Recognizing,
        s.phase == Phase::Ready,
        leaves_dead_zone(displacement(location, s.start)),
        move_intended(displacement(location, s.start), floating),
    ensures
        ({
            let s1 = next(
                s,
                Event::Motion { location, window_alive: true, on_output: true },
            ).0;
            let s2 = next(s1, Event::Floating(floating)).0;
            let (s3, cmds) = next(s2, Event::MoveBegun(true));
            &&& next(s1, Event::Floating(floating)).1 == seq![Command::MoveBegin]
            &&& s3.gesture == GestureState::Move
            &&& cmds.contains(Command::MoveUpdate(displacement(location, s.start)))
        }),
{
    let s1 = next(s, Event::Motion { location, window_alive: true, on_output: true }).0;
    let s2 = next(s1, Event::Floating(floating)).0;
    let cmds = next(s2, Event::MoveBegun(true)).1;
    assert(cmds[1] == Command::MoveUpdate(displacement(location, s.start)));
}

} // verus!
