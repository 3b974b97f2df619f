//! Whole runs of the control loop: what a sequence of readings makes the
//! clutch do, and the laws that hold of every run.
//!
//! A run starts from the reading taken at power-up, `first`, and then takes
//! in `readings` one by one, as repeated calls of
//! [`ControlLoop::iterate`](crate::control::ControlLoop::iterate) do.

use vstd::prelude::*;
use crate::action::{Action, Level};
use crate::control::react_spec;
use crate::machine::{classify_spec, Mode, Transition};
use crate::report::{lemma_key_down_single_key, KeyboardReport, KEY_ESC, KEY_I};
use crate::switch::SwitchState;

verus! {

/// The reading that `readings[i]` is compared with: the one just before
/// it, or `first` for the very first.
pub open spec fn previous_at(first: SwitchState, readings: Seq<SwitchState>, i: int)
    -> SwitchState {
    if i <= 0 {
        first
    } else {
        readings[i - 1]
    }
}

/// The reading that the loop holds after the run.
pub open spec fn state_after(first: SwitchState, readings: Seq<SwitchState>) -> SwitchState {
    previous_at(first, readings, readings.len() as int)
}

/// The transition that each reading of the run is classified as.
pub open spec fn events(first: SwitchState, readings: Seq<SwitchState>) -> Seq<Transition> {
    Seq::new(
        readings.len(),
        |i: int| classify_spec(previous_at(first, readings, i), readings[i]),
    )
}

/// Every action that the run asks of the driver, in order.
pub open spec fn actions(first: SwitchState, readings: Seq<SwitchState>) -> Seq<Action>
    decreases readings.len(),
{
    if readings.len() == 0 {
        Seq::empty()
    } else {
        actions(first, readings.drop_last()) + react_spec(
            classify_spec(state_after(first, readings.drop_last()), readings.last()),
        )
    }
}

/// The emission sequence: the reports among `actions`, in order.
pub open spec fn reports(actions: Seq<Action>) -> Seq<KeyboardReport>
    decreases actions.len(),
{
    if actions.len() == 0 {
        Seq::empty()
    } else {
        match actions.last() {
            Action::SendReport(report) => reports(actions.drop_last()).push(report),
            _ => reports(actions.drop_last()),
        }
    }
}

/// The indicator level once `actions` have been carried out, given the
/// level before them.
pub open spec fn level_after(before: Level, actions: Seq<Action>) -> Level
    decreases actions.len(),
{
    if actions.len() == 0 {
        before
    } else {
        match actions.last() {
            Action::SetIndicator(level) => level,
            _ => level_after(before, actions.drop_last()),
        }
    }
}

/// The reports that answer `transition`: none when nothing changed; on an
/// edge, the key of the mode entered held down, then released.
pub open spec fn key_pair(transition: Transition) -> Seq<KeyboardReport> {
    match transition.entered_spec() {
        None => Seq::empty(),
        Some(mode) => seq![
            KeyboardReport::key_down_spec(mode.key_code_spec()),
            KeyboardReport::key_up_spec(),
        ],
    }
}

/// `n` readings in a row that all read `state`.
pub open spec fn held(state: SwitchState, n: nat) -> Seq<SwitchState> {
    Seq::new(n, |i: int| state)
}

/// Taking in one more reading extends the run by one pass of the loop: the
/// reading is classified against the stored one, the reaction to that
/// transition is appended, and the reading is stored.
pub proof fn lemma_one_more_reading(
    first: SwitchState,
    readings: Seq<SwitchState>,
    reading: SwitchState,
)
    ensures
        state_after(first, readings.push(reading)) == reading,
        events(first, readings.push(reading)) == events(first, readings).push(
            classify_spec(state_after(first, readings), reading),
        ),
        actions(first, readings.push(reading)) == actions(first, readings) + react_spec(
            classify_spec(state_after(first, readings), reading),
        ),
{
    let longer = readings.push(reading);
    assert(longer.drop_last() =~= readings);
    assert(events(first, longer) =~= events(first, readings).push(
        classify_spec(state_after(first, readings), reading),
    ));
}

/// An event fires exactly where two consecutive readings differ. Two equal
/// readings in a row are classified as `Unchanged`, and an edge is named
/// after the state that the switch moved to.
pub proof fn lemma_event_iff_readings_differ(
    first: SwitchState,
    readings: Seq<SwitchState>,
    i: int,
)
    requires
        0 <= i < readings.len(),
    ensures
        events(first, readings).len() == readings.len(),
        events(first, readings)[i].fired() <==> previous_at(first, readings, i) != readings[i],
        events(first, readings)[i] == Transition::Unchanged <==> previous_at(first, readings, i)
            == readings[i],
        events(first, readings)[i].fired() ==> events(first, readings)[i] == Mode::of_switch(
            readings[i],
        ).entering(),
{
}

/// The reports of two action sequences in a row are the reports of the
/// first followed by those of the second.
pub proof fn lemma_reports_concat(a: Seq<Action>, b: Seq<Action>)
    ensures
        reports(a + b) == reports(a) + reports(b),
    decreases b.len(),
{
    if b.len() == 0 {
        assert(a + b =~= a);
        assert(reports(a) + reports(b) =~= reports(a));
    } else {
        assert((a + b).drop_last() =~= a + b.drop_last());
        assert((a + b).last() == b.last());
        lemma_reports_concat(a, b.drop_last());
        match b.last() {
            Action::SendReport(report) => {
                assert(reports(a + b) =~= reports(a) + reports(b));
            },
            _ => {},
        }
    }
}

/// Carrying out two action sequences in a row leaves the indicator where
/// the second leaves it, started from where the first left it.
pub proof fn lemma_level_concat(before: Level, a: Seq<Action>, b: Seq<Action>)
    ensures
        level_after(before, a + b) == level_after(level_after(before, a), b),
    decreases b.len(),
{
    if b.len() == 0 {
        assert(a + b =~= a);
    } else {
        assert((a + b).drop_last() =~= a + b.drop_last());
        assert((a + b).last() == b.last());
        lemma_level_concat(before, a, b.drop_last());
    }
}

/// The reaction to a transition, seen from outside: the host receives the
/// key pair of the transition, and the indicator ends at the level that the
/// transition calls for.
pub proof fn lemma_reaction_outputs(transition: Transition, before: Level)
    ensures
        reports(react_spec(transition)) == key_pair(transition),
        level_after(before, react_spec(transition)) == before.after(transition),
        react_spec(transition).len() == (if transition.fired() {
            5nat
        } else {
            0nat
        }),
{
    match transition.entered_spec() {
        None => {},
        Some(mode) => {
            let full = react_spec(transition);
            let code = mode.key_code_spec();
            reveal_with_fuel(reports, 6);
            reveal_with_fuel(level_after, 6);
            let indicator_and_key_down = full.take(2);
            assert(full.drop_last().drop_last().drop_last() =~= indicator_and_key_down);
            assert(indicator_and_key_down.drop_last().drop_last().len() == 0);
            assert(reports(indicator_and_key_down) =~= seq![KeyboardReport::key_down_spec(code)]);
            assert(reports(full) =~= key_pair(transition));
        },
    }
}

/// A run over two stretches of readings is the run over the first stretch
/// followed by the run over the second, started from where the first ended.
pub proof fn lemma_actions_concat(
    first: SwitchState,
    a: Seq<SwitchState>,
    b: Seq<SwitchState>,
)
    ensures
        state_after(first, a + b) == state_after(state_after(first, a), b),
        actions(first, a + b) == actions(first, a) + actions(state_after(first, a), b),
    decreases b.len(),
{
    let mid = state_after(first, a);
    if b.len() == 0 {
        assert(a + b =~= a);
        assert(actions(first, a) + actions(mid, b) =~= actions(first, a));
    } else {
        let shorter = b.drop_last();
        assert((a + b).drop_last() =~= a + shorter);
        assert((a + b).last() == b.last());
        lemma_actions_concat(first, a, shorter);
        let step = react_spec(classify_spec(state_after(mid, shorter), b.last()));
        assert(actions(first, a + b) == (actions(first, a) + actions(mid, shorter)) + step);
        assert((actions(first, a) + actions(mid, shorter)) + step =~= actions(first, a) + (
            actions(mid, shorter) + step));
    }
}

/// While the switch stays where it is, the clutch does nothing: no action is
/// asked for, however many readings are taken.
pub proof fn lemma_held_switch_is_silent(state: SwitchState, n: nat)
    ensures
        actions(state, held(state, n)) == Seq::<Action>::empty(),
        state_after(state, held(state, n)) == state,
        forall|i: int| 0 <= i < n ==> events(state, held(state, n))[i] == Transition::Unchanged,
    decreases n,
{
    if n > 0 {
        let shorter = held(state, (n - 1) as nat);
        assert(held(state, n).drop_last() =~= shorter);
        lemma_held_switch_is_silent(state, (n - 1) as nat);
        assert(actions(state, held(state, n)) =~= Seq::<Action>::empty());
    }
}

/// Every reading of a run appends exactly the key pair of its transition to
/// the emission sequence, and moves the indicator as that transition calls
/// for: the run up to and with reading `i` is the run before it, followed by
/// the reaction to event `i`.
pub proof fn lemma_event_outputs(
    first: SwitchState,
    readings: Seq<SwitchState>,
    i: int,
    led: Level,
)
    requires
        0 <= i < readings.len(),
    ensures
        reports(actions(first, readings.take(i + 1))) == reports(
            actions(first, readings.take(i)),
        ) + key_pair(events(first, readings)[i]),
        level_after(led, actions(first, readings.take(i + 1))) == level_after(
            led,
            actions(first, readings.take(i)),
        ).after(events(first, readings)[i]),
{
    let before = readings.take(i);
    let event = events(first, readings)[i];
    assert(readings.take(i + 1) =~= before.push(readings[i]));
    assert(state_after(first, before) == previous_at(first, readings, i));
    lemma_one_more_reading(first, before, readings[i]);
    lemma_reports_concat(actions(first, before), react_spec(event));
    lemma_level_concat(led, actions(first, before), react_spec(event));
    lemma_reaction_outputs(event, level_after(led, actions(first, before)));
}

/// Every `EnteredInsert` event is followed at once, in the emission
/// sequence, by exactly two reports: the "i" key held down, then all keys
/// released. Neither report populates any other slot, and the indicator is
/// high once the event has been reacted to.
pub proof fn lemma_entered_insert_presses_i(
    first: SwitchState,
    readings: Seq<SwitchState>,
    i: int,
    led: Level,
)
    requires
        0 <= i < readings.len(),
        events(first, readings)[i] == Transition::EnteredInsert,
    ensures
        reports(actions(first, readings.take(i + 1))) == reports(
            actions(first, readings.take(i)),
        ) + seq![KeyboardReport::key_down_spec(KEY_I), KeyboardReport::key_up_spec()],
        KeyboardReport::key_down_spec(KEY_I).is_single_key(),
        KeyboardReport::key_down_spec(KEY_I).slots()[0] == KEY_I,
        KeyboardReport::key_down_spec(KEY_I).populated() == 1,
        KeyboardReport::key_up_spec().is_single_key(),
        KeyboardReport::key_up_spec().populated() == 0,
        level_after(led, actions(first, readings.take(i + 1))) == Level::High,
{
    lemma_event_outputs(first, readings, i, led);
    lemma_key_down_single_key(KEY_I);
}

/// Every `EnteredNormal` event is followed at once, in the emission
/// sequence, by exactly two reports: the Escape key held down, then all keys
/// released. Neither report populates any other slot, and the indicator is
/// low once the event has been reacted to.
pub proof fn lemma_entered_normal_presses_escape(
    first: SwitchState,
    readings: Seq<SwitchState>,
    i: int,
    led: Level,
)
    requires
        0 <= i < readings.len(),
        events(first, readings)[i] == Transition::EnteredNormal,
    ensures
        reports(actions(first, readings.take(i + 1))) == reports(
            actions(first, readings.take(i)),
        ) + seq![KeyboardReport::key_down_spec(KEY_ESC), KeyboardReport::key_up_spec()],
        KeyboardReport::key_down_spec(KEY_ESC).is_single_key(),
        KeyboardReport::key_down_spec(KEY_ESC).slots()[0] == KEY_ESC,
        KeyboardReport::key_down_spec(KEY_ESC).populated() == 1,
        KeyboardReport::key_up_spec().is_single_key(),
        KeyboardReport::key_up_spec().populated() == 0,
        level_after(led, actions(first, readings.take(i + 1))) == Level::Low,
{
    lemma_event_outputs(first, readings, i, led);
    lemma_key_down_single_key(KEY_ESC);
}

/// A reading that repeats the one before it changes nothing: no report is
/// emitted for it and the indicator stays as it was.
pub proof fn lemma_unchanged_is_silent(
    first: SwitchState,
    readings: Seq<SwitchState>,
    i: int,
    led: Level,
)
    requires
        0 <= i < readings.len(),
        previous_at(first, readings, i) == readings[i],
    ensures
        events(first, readings)[i] == Transition::Unchanged,
        actions(first, readings.take(i + 1)) == actions(first, readings.take(i)),
        level_after(led, actions(first, readings.take(i + 1))) == level_after(
            led,
            actions(first, readings.take(i)),
        ),
{
    let before = readings.take(i);
    assert(readings.take(i + 1) =~= before.push(readings[i]));
    assert(state_after(first, before) == previous_at(first, readings, i));
    lemma_one_more_reading(first, before, readings[i]);
    assert(actions(first, before) + Seq::<Action>::empty() =~= actions(first, before));
}

/// Round trip. The switch leaves its state, dwells there for `away`
/// readings, comes back and dwells for `back` readings. The host sees
/// exactly two key pairs, one per edge: first the key of the mode that the
/// switch moved to, then the key of the mode it came back to. The loop ends
/// in the state it started from, and the indicator shows the mode that the
/// switch came back to.
pub proof fn lemma_round_trip(first: SwitchState, away: nat, back: nat, led: Level)
    requires
        away >= 1,
        back >= 1,
    ensures
        ({
            let readings = held(first.opposite(), away) + held(first, back);
            let there = Mode::of_switch(first.opposite());
            let home = Mode::of_switch(first);
            &&& reports(actions(first, readings)) == key_pair(there.entering()) + key_pair(
                home.entering(),
            )
            &&& reports(actions(first, readings)).len() == 4
            &&& actions(first, readings) == react_spec(there.entering()) + react_spec(
                home.entering(),
            )
            &&& state_after(first, readings) == first
            &&& level_after(led, actions(first, readings)) == home.indicator_level_spec()
        }),
{
    let other = first.opposite();
    let there = Mode::of_switch(other).entering();
    let home = Mode::of_switch(first).entering();
    lemma_edge_then_hold(first, other, away);
    lemma_edge_then_hold(other, first, back);
    lemma_actions_concat(first, held(other, away), held(first, back));
    lemma_reports_concat(react_spec(there), react_spec(home));
    lemma_level_concat(led, react_spec(there), react_spec(home));
    lemma_reaction_outputs(there, led);
    lemma_reaction_outputs(home, level_after(led, react_spec(there)));
}

/// Moving the switch to `to` and holding it there raises one edge, at the
/// first reading, and nothing after it.
proof fn lemma_edge_then_hold(from: SwitchState, to: SwitchState, n: nat)
    requires
        n >= 1,
        from != to,
    ensures
        actions(from, held(to, n)) == react_spec(Mode::of_switch(to).entering()),
        state_after(from, held(to, n)) == to,
{
    let rest = held(to, (n - 1) as nat);
    assert(held(to, n) =~= seq![to] + rest);
    lemma_actions_concat(from, seq![to], rest);
    lemma_held_switch_is_silent(to, (n - 1) as nat);
    assert(seq![to].drop_last() =~= Seq::<SwitchState>::empty());
    assert(actions(from, seq![to]) =~= react_spec(classify_spec(from, to))) by {
        reveal_with_fuel(actions, 2);
    }
    assert(actions(from, seq![to]) + Seq::<Action>::empty() =~= actions(from, seq![to]));
}

} // verus!
